use gatt_server::address::{DeviceInformation, BLE_CFG_ERK, BLE_CFG_IRK};
use gatt_server::command::{
    AdvertisingFilterPolicy, AdvertisingType, AuthenticationRequirements, BleCommand,
    CharacteristicParameters, DiscoverableParameters, GapParameters, IdentityAddressType,
    IoCapability, OwnAddressType, PinPolicy, PowerLevel, SecureConnectionSupport, ServiceType, Uuid,
};
use gatt_server::event::{HciEvent, ReturnParameters};
use gatt_server::gatt::{characteristic as build_characteristic, BleContext, CharHandles};
use gatt_server::init::{
    BleInit, HciResponse, InitError, InitInput, InitOutcome, InitStep, ADVERTISING_DATA,
    LOCAL_NAME, SCAN_RESPONSE_DATA,
};

fn info() -> DeviceInformation {
    DeviceInformation { uid64: 0x1234_5678, device_type_id: 0x26, st_company_id: 0x80E1 }
}

fn reply(event: HciEvent, payload: &'static [u8]) -> InitInput<'static> {
    InitInput::Response(HciResponse { event, payload })
}

fn complete(payload: &'static [u8]) -> InitInput<'static> {
    reply(HciEvent::CommandComplete(ReturnParameters::Other), payload)
}

/// The replies of a stack that confirms everything, in order.
fn confirming_replies() -> Vec<InitInput<'static>> {
    vec![
        InitInput::StackStarted,
        complete(&[0x01, 0x03, 0x0C, 0x00]),
        complete(&[0x01, 0x0C, 0xFC, 0x00]),
        complete(&[0x01, 0x0C, 0xFC, 0x00]),
        complete(&[0x01, 0x0C, 0xFC, 0x00]),
        complete(&[0x01, 0x0C, 0xFC, 0x00]),
        complete(&[0x01, 0x0F, 0xFC, 0x00]),
        complete(&[0x01, 0x01, 0xFD, 0x00, 0x01, 0x00, 0x02, 0x00, 0x04, 0x00]),
        complete(&[0x01, 0x8A, 0xFC, 0x00, 0x05, 0x00, 0x06, 0x00, 0x07, 0x00]),
        complete(&[0x01, 0x85, 0xFC, 0x00]),
        complete(&[0x01, 0x86, 0xFC, 0x00]),
        complete(&[0x01, 0x09, 0x20, 0x00]),
        reply(
            HciEvent::CommandComplete(ReturnParameters::GattAddService { service_handle: 0x0C }),
            &[0x01, 0x02, 0xFD, 0x00, 0x0C, 0x00],
        ),
        reply(
            HciEvent::CommandComplete(ReturnParameters::GattAddCharacteristic {
                characteristic_handle: 0x0E,
            }),
            &[0x01, 0x04, 0xFD, 0x00, 0x0E, 0x00],
        ),
        complete(&[0x01, 0x06, 0xFD, 0x00]),
        reply(
            HciEvent::CommandComplete(ReturnParameters::GattAddCharacteristic {
                characteristic_handle: 0x11,
            }),
            &[0x01, 0x04, 0xFD, 0x00, 0x11, 0x00],
        ),
        reply(
            HciEvent::CommandComplete(ReturnParameters::GattAddCharacteristic {
                characteristic_handle: 0x14,
            }),
            &[0x01, 0x04, 0xFD, 0x00, 0x14, 0x00],
        ),
        complete(&[0x01, 0x83, 0xFC, 0x00]),
    ]
}

/// Feeds replies to bring-up; returns the commands sent and how it ended.
fn run(replies: Vec<InitInput<'static>>) -> (Vec<BleCommand<'static>>, Option<InitOutcome>) {
    let (mut state, first) = BleInit::start(&info());
    let mut sent = vec![first];
    for input in replies.iter() {
        match state.advance(input) {
            InitOutcome::Send(next, command) => {
                sent.push(command);
                state = next;
            }
            done => return (sent, Some(done)),
        }
    }
    (sent, None)
}

fn characteristic(service_handle: u16, uuid16: u16, properties: u8) -> BleCommand<'static> {
    BleCommand::AddCharacteristic(CharacteristicParameters {
        service_handle,
        uuid: Uuid::Uuid16(uuid16),
        value_len: 32,
        properties,
        security_permissions: 0,
        gatt_event_mask: 0x0F,
        encryption_key_size: 7,
        is_variable: true,
    })
}

#[test]
fn bring_up_sends_the_script_and_reports_the_service() {
    let (sent, outcome) = run(confirming_replies());
    let expected = vec![
        BleCommand::StackInit,
        BleCommand::Reset,
        BleCommand::WritePublicAddress([0x78, 0x56, 0x34, 0x26, 0xE1, 0x80]),
        BleCommand::WriteRandomAddress([0x78, 0x56, 0x34, 0x00, 0x6E, 0xED]),
        BleCommand::WriteIdentityRoot(BLE_CFG_IRK),
        BleCommand::WriteIdentityRoot(BLE_CFG_ERK),
        BleCommand::SetTxPowerLevel(PowerLevel::ZeroDbm),
        BleCommand::InitGatt,
        BleCommand::InitGap(GapParameters {
            peripheral: true,
            privacy_enabled: false,
            device_name_len: 7,
        }),
        BleCommand::SetIoCapability(IoCapability::DisplayConfirm),
        BleCommand::SetAuthenticationRequirement(AuthenticationRequirements {
            bonding_required: false,
            mitm_protection_required: false,
            secure_connection_support: SecureConnectionSupport::Optional,
            keypress_notification_support: false,
            encryption_key_size_range: (8, 16),
            fixed_pin: PinPolicy::Requested,
            identity_address_type: IdentityAddressType::Public,
        }),
        BleCommand::SetScanResponseData(*b"LUMEN_RSP"),
        BleCommand::AddService {
            uuid: Uuid::Uuid16(0x500),
            service_type: ServiceType::Primary,
            max_attribute_records: 8,
        },
        characteristic(0x0C, 0x501, 0x02),
        BleCommand::UpdateCharacteristicValue {
            service_handle: 0x0C,
            characteristic_handle: 0x0E,
            offset: 0,
            value: &b"Hello from embassy"[..],
        },
        characteristic(0x0C, 0x502, 0x04 | 0x08 | 0x02),
        characteristic(0x0C, 0x503, 0x10 | 0x02),
        BleCommand::SetDiscoverable(DiscoverableParameters {
            advertising_type: AdvertisingType::ConnectableUndirected,
            address_type: OwnAddressType::Public,
            filter_policy: AdvertisingFilterPolicy::AllowConnectionAndScan,
            conn_interval_ms: (None, None),
            advertising_interval_ms: (100, 100),
            local_name: *b"LUMEN_01",
            advertising_data: *b"BUY LUMEN",
        }),
    ];
    assert_eq!(sent, expected);
    assert_eq!(
        outcome,
        Some(InitOutcome::Finished(BleContext {
            service_handle: 0x0C,
            chars: CharHandles { read: 0x0E, write: 0x11, notify: 0x14 },
            is_subscribed: false,
        }))
    );
}

#[test]
fn advertising_texts() {
    assert_eq!(&SCAN_RESPONSE_DATA, b"LUMEN_RSP");
    assert_eq!(&LOCAL_NAME, b"LUMEN_01");
    assert_eq!(&ADVERTISING_DATA, b"BUY LUMEN");
}

#[test]
fn bring_up_waits_for_the_next_reply() {
    let mut replies = confirming_replies();
    replies.truncate(5);
    let (sent, outcome) = run(replies);
    assert_eq!(outcome, None);
    assert_eq!(sent.len(), 6);
    assert_eq!(sent[5], BleCommand::WriteIdentityRoot(BLE_CFG_ERK));
}

fn failure_with(index: usize, bad: InitInput<'static>) -> Option<InitOutcome> {
    let mut replies = confirming_replies();
    replies[index] = bad;
    let (sent, outcome) = run(replies);
    assert_eq!(sent.len(), index + 1);
    outcome
}

#[test]
fn reset_not_completed_stops_bring_up() {
    assert_eq!(
        failure_with(1, reply(HciEvent::CommandStatus, &[0x00, 0x01, 0x03, 0x0C])),
        Some(InitOutcome::Failed(InitError::NotCommandComplete(InitStep::Reset)))
    );
}

#[test]
fn identity_root_reply_is_checked_before_its_kind() {
    assert_eq!(
        failure_with(4, reply(HciEvent::CommandStatus, &[0x01, 0x0C, 0xFC, 0x00])),
        Some(InitOutcome::Failed(InitError::NotCommandComplete(InitStep::IdentityRoot)))
    );
    assert_eq!(
        failure_with(4, reply(HciEvent::CommandStatus, &[0x01, 0x0C, 0xFC, 0x12])),
        Some(InitOutcome::Failed(InitError::UnexpectedPayload(InitStep::IdentityRoot)))
    );
}

#[test]
fn authentication_reply_kind_is_checked_before_its_payload() {
    assert_eq!(
        failure_with(10, reply(HciEvent::CommandStatus, &[0x01, 0x00])),
        Some(InitOutcome::Failed(InitError::NotCommandComplete(InitStep::AuthRequirement)))
    );
    assert_eq!(
        failure_with(10, complete(&[0x01, 0x86, 0xFC, 0x01])),
        Some(InitOutcome::Failed(InitError::UnexpectedPayload(InitStep::AuthRequirement)))
    );
}

#[test]
fn tx_power_payload_must_match() {
    assert_eq!(
        failure_with(6, complete(&[0x01, 0x0F, 0xFC])),
        Some(InitOutcome::Failed(InitError::UnexpectedPayload(InitStep::TxPower)))
    );
}

#[test]
fn service_must_be_announced() {
    assert_eq!(
        failure_with(12, complete(&[0x01, 0x02, 0xFD, 0x00, 0x0C, 0x00])),
        Some(InitOutcome::Failed(InitError::ServiceNotAdded))
    );
}

#[test]
fn characteristics_must_be_announced() {
    let bad = reply(
        HciEvent::CommandComplete(ReturnParameters::GattAddService { service_handle: 1 }),
        &[],
    );
    assert_eq!(
        failure_with(15, bad),
        Some(InitOutcome::Failed(InitError::CharacteristicNotAdded(
            InitStep::AddWriteCharacteristic
        )))
    );
}

#[test]
fn default_value_write_is_confirmed_by_its_payload_only() {
    let (_, outcome) = run({
        let mut replies = confirming_replies();
        replies[14] = reply(HciEvent::Other, &[0x01, 0x06, 0xFD, 0x00]);
        replies
    });
    assert!(matches!(outcome, Some(InitOutcome::Finished(_))));
    assert_eq!(
        failure_with(14, complete(&[0x01, 0x06, 0xFD, 0x01])),
        Some(InitOutcome::Failed(InitError::UnexpectedPayload(InitStep::SetReadValue)))
    );
}

#[test]
fn discoverable_must_be_confirmed() {
    assert_eq!(
        failure_with(17, complete(&[0x01, 0x83, 0xFC, 0x0C])),
        Some(InitOutcome::Failed(InitError::UnexpectedPayload(InitStep::Discoverable)))
    );
}

#[test]
fn inputs_out_of_order_are_refused() {
    assert_eq!(
        failure_with(0, complete(&[])),
        Some(InitOutcome::Failed(InitError::OutOfOrder(InitStep::StackInit)))
    );
    assert_eq!(
        failure_with(3, InitInput::StackStarted),
        Some(InitOutcome::Failed(InitError::OutOfOrder(InitStep::RandomAddress)))
    );
}

#[test]
fn first_refusal_wins() {
    let mut replies = confirming_replies();
    replies[2] = reply(HciEvent::Vendor, &[]);
    replies[9] = reply(HciEvent::Vendor, &[]);
    let (sent, outcome) = run(replies);
    assert_eq!(sent.len(), 3);
    assert_eq!(
        outcome,
        Some(InitOutcome::Failed(InitError::NotCommandComplete(InitStep::PublicAddress)))
    );
}

#[test]
fn characteristic_builder_takes_any_uuid_and_properties() {
    assert_eq!(build_characteristic(0x20, Uuid::Uuid16(0x1234), 0x30), match characteristic(0x20, 0x1234, 0x30) {
        BleCommand::AddCharacteristic(params) => params,
        _ => unreachable!(),
    });
    let uuid = Uuid::Uuid128([0x5A; 16]);
    let params = build_characteristic(7, uuid, 0x12);
    assert_eq!(params.service_handle, 7);
    assert_eq!(params.uuid, uuid);
    assert_eq!(params.properties, 0x12);
    assert_eq!(params.value_len, 32);
    assert_eq!(params.security_permissions, 0);
    assert_eq!(params.gatt_event_mask, 0x0F);
    assert_eq!(params.encryption_key_size, 7);
    assert!(params.is_variable);
}
