//! Device addresses and identity keys.

use vstd::prelude::*;

verus! {

/// What the firmware reads of the CPU2 device information block: the fields
/// from which the Bluetooth device addresses are derived.
#[derive(Clone, Copy, Debug, PartialEq, Eq)]
pub struct DeviceInformation {
    /// The low 32 bits of the chip's 64-bit unique device number.
    pub uid64: u32,
    /// The device type identifier.
    pub device_type_id: u8,
    /// ST's company identifier.
    pub st_company_id: u32,
}

/// Byte `k` (counting from the least significant) of `x`, for `k < 4`.
pub open spec fn le_byte(x: u32, k: nat) -> u8 {
    if k == 0 {
        (x % 256) as u8
    } else if k == 1 {
        ((x / 256) % 256) as u8
    } else if k == 2 {
        ((x / 65536) % 256) as u8
    } else {
        ((x / 16777216) % 256) as u8
    }
}

/// The public device address, least significant byte first: three bytes of
/// the unique device number, the device type, then two bytes of the company
/// identifier.
pub open spec fn spec_public_address(info: DeviceInformation) -> Seq<u8> {
    seq![
        le_byte(info.uid64, 0),
        le_byte(info.uid64, 1),
        le_byte(info.uid64, 2),
        info.device_type_id,
        le_byte(info.st_company_id, 0),
        le_byte(info.st_company_id, 1),
    ]
}

/// The static random address: three bytes of the unique device number, then
/// the fixed bytes `0x00`, `0x6E`, `0xED`.
pub open spec fn spec_random_address(info: DeviceInformation) -> Seq<u8> {
    seq![
        le_byte(info.uid64, 0),
        le_byte(info.uid64, 1),
        le_byte(info.uid64, 2),
        0u8,
        0x6Eu8,
        0xEDu8,
    ]
}

/// The identity root key (IRK) the stack is configured with.
pub const BLE_CFG_IRK: [u8; 16] = [
    0x12, 0x34, 0x56, 0x78, 0x9a, 0xbc, 0xde, 0xf0, 0x12, 0x34, 0x56, 0x78, 0x9a, 0xbc, 0xde, 0xf0,
];

/// The encryption root key (ERK) the stack is configured with.
pub const BLE_CFG_ERK: [u8; 16] = [
    0xfe, 0xdc, 0xba, 0x09, 0x87, 0x65, 0x43, 0x21, 0xfe, 0xdc, 0xba, 0x09, 0x87, 0x65, 0x43, 0x21,
];

fn low_byte(x: u32) -> (r: u8)
    ensures
        r == le_byte(x, 0),
{
    assert((x & 0xff) == x % 256) by (bit_vector);
    (x & 0xff) as u8
}

fn second_byte(x: u32) -> (r: u8)
    ensures
        r == le_byte(x, 1),
{
    assert(((x >> 8) & 0xff) == (x / 256) % 256) by (bit_vector);
    ((x >> 8) & 0xff) as u8
}

fn third_byte(x: u32) -> (r: u8)
    ensures
        r == le_byte(x, 2),
{
    assert(((x >> 16) & 0xff) == (x / 65536) % 256) by (bit_vector);
    ((x >> 16) & 0xff) as u8
}

/// The public Bluetooth device address of this chip.
pub fn get_bd_addr(info: &DeviceInformation) -> (addr: [u8; 6])
    ensures
        addr@ == spec_public_address(*info),
{
    let addr = [
        low_byte(info.uid64),
        second_byte(info.uid64),
        third_byte(info.uid64),
        info.device_type_id,
        low_byte(info.st_company_id),
        second_byte(info.st_company_id),
    ];
    assert(addr@ =~= spec_public_address(*info));
    addr
}

/// The static random Bluetooth address of this chip.
pub fn get_random_addr(info: &DeviceInformation) -> (addr: [u8; 6])
    ensures
        addr@ == spec_random_address(*info),
{
    let addr = [
        low_byte(info.uid64),
        second_byte(info.uid64),
        third_byte(info.uid64),
        0,
        0x6E,
        0xED,
    ];
    assert(addr@ =~= spec_random_address(*info));
    addr
}

/// The identity root key.
pub fn get_irk() -> (key: [u8; 16])
    ensures
        key == BLE_CFG_IRK,
{
    BLE_CFG_IRK
}

/// The encryption root key.
pub fn get_erk() -> (key: [u8; 16])
    ensures
        key == BLE_CFG_ERK,
{
    BLE_CFG_ERK
}

/// The public and the random address agree on their three low bytes, the
/// ones taken from the unique device number.
pub proof fn lemma_addresses_share_device_number(info: DeviceInformation)
    ensures
        spec_public_address(info).subrange(0, 3) == spec_random_address(info).subrange(0, 3),
{
    assert(spec_public_address(info).subrange(0, 3) =~= spec_random_address(info).subrange(0, 3));
}

/// The random address is a static random address: the two most significant
/// bits of its last (most significant) byte are set, whatever the chip.
pub proof fn lemma_random_address_is_static(info: DeviceInformation)
    ensures
        spec_random_address(info).len() == 6,
        spec_random_address(info)[5] & 0xC0u8 == 0xC0u8,
{
    assert(0xEDu8 & 0xC0u8 == 0xC0u8) by (bit_vector);
}

} // verus!
