use gatt_server::address::{
    get_bd_addr, get_erk, get_irk, get_random_addr, DeviceInformation, BLE_CFG_ERK, BLE_CFG_IRK,
};

fn sample() -> DeviceInformation {
    DeviceInformation { uid64: 0x1234_5678, device_type_id: 0x26, st_company_id: 0x0000_80E1 }
}

#[test]
fn public_address_layout() {
    assert_eq!(get_bd_addr(&sample()), [0x78, 0x56, 0x34, 0x26, 0xE1, 0x80]);
}

#[test]
fn public_address_ignores_high_bits() {
    let info = DeviceInformation { uid64: 0xFFAB_CDEF, device_type_id: 0, st_company_id: 0xDEAD_BEEF };
    assert_eq!(get_bd_addr(&info), [0xEF, 0xCD, 0xAB, 0x00, 0xEF, 0xBE]);
}

#[test]
fn random_address_layout() {
    assert_eq!(get_random_addr(&sample()), [0x78, 0x56, 0x34, 0x00, 0x6E, 0xED]);
}

#[test]
fn addresses_share_device_number() {
    let info = DeviceInformation { uid64: 0x00C0_FFEE, device_type_id: 9, st_company_id: 1 };
    let public = get_bd_addr(&info);
    let random = get_random_addr(&info);
    assert_eq!(public[..3], random[..3]);
}

#[test]
fn random_address_is_static() {
    for uid in [0u32, 1, 0xFFFF_FFFF, 0x8000_0000] {
        let info = DeviceInformation { uid64: uid, device_type_id: 0, st_company_id: 0 };
        assert_eq!(get_random_addr(&info)[5] & 0xC0, 0xC0);
    }
}

#[test]
fn identity_keys() {
    assert_eq!(get_irk(), BLE_CFG_IRK);
    assert_eq!(get_erk(), BLE_CFG_ERK);
    assert_eq!(get_irk()[0], 0x12);
    assert_eq!(get_erk()[15], 0x21);
    assert_ne!(get_irk(), get_erk());
}
