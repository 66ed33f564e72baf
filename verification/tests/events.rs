use gatt_server::event::{
    added_characteristic_handle, added_service_handle, ble_loop_event_kind, is_command_complete,
    EventKind, HciEvent, ReturnParameters,
};

#[test]
fn command_complete_is_recognised() {
    assert_eq!(is_command_complete(&HciEvent::CommandComplete(ReturnParameters::Other)), Ok(()));
    assert_eq!(
        is_command_complete(&HciEvent::CommandComplete(ReturnParameters::GattAddService {
            service_handle: 3
        })),
        Ok(())
    );
}

#[test]
fn other_events_are_not_command_complete() {
    for event in [
        HciEvent::CommandStatus,
        HciEvent::Vendor,
        HciEvent::Other,
        HciEvent::LeConnectionComplete,
        HciEvent::DisconnectionComplete,
    ] {
        assert_eq!(is_command_complete(&event), Err(()));
    }
}

#[test]
fn loop_reports_each_kind() {
    let cases = [
        (HciEvent::LeConnectionComplete, EventKind::LeConnectionComplete),
        (HciEvent::DisconnectionComplete, EventKind::DisconnectionComplete),
        (HciEvent::LePhyUpdateComplete, EventKind::LePhyUpdateComplete),
        (HciEvent::LeDataLengthChange, EventKind::LeDataLengthChange),
        (HciEvent::CommandComplete(ReturnParameters::Other), EventKind::CommandComplete),
        (HciEvent::CommandStatus, EventKind::CommandStatus),
        (HciEvent::Vendor, EventKind::Vendor),
        (HciEvent::Other, EventKind::Other),
    ];
    for (event, kind) in cases {
        assert_eq!(ble_loop_event_kind(&event), kind);
    }
}

#[test]
fn service_handle_is_read_from_its_completion() {
    let event = HciEvent::CommandComplete(ReturnParameters::GattAddService { service_handle: 0x0C });
    assert_eq!(added_service_handle(&event), Ok(0x0C));
    let char_event = HciEvent::CommandComplete(ReturnParameters::GattAddCharacteristic {
        characteristic_handle: 0x0C,
    });
    assert_eq!(added_service_handle(&char_event), Err(()));
    assert_eq!(added_service_handle(&HciEvent::CommandStatus), Err(()));
}

#[test]
fn characteristic_handle_is_read_from_its_completion() {
    let event = HciEvent::CommandComplete(ReturnParameters::GattAddCharacteristic {
        characteristic_handle: 0x0E,
    });
    assert_eq!(added_characteristic_handle(&event), Ok(0x0E));
    let service_event =
        HciEvent::CommandComplete(ReturnParameters::GattAddService { service_handle: 0x0E });
    assert_eq!(added_characteristic_handle(&service_event), Err(()));
    assert_eq!(
        added_characteristic_handle(&HciEvent::CommandComplete(ReturnParameters::Other)),
        Err(())
    );
}
