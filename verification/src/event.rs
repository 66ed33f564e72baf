//! What the host reads of an event the BLE stack sends it.

use vstd::prelude::*;

verus! {

/// The return parameters of a Command Complete event, as far as the host
/// looks into them.
#[derive(Clone, Copy, Debug, PartialEq, Eq)]
pub enum ReturnParameters {
    /// The vendor command that adds a GATT service completed, and the stack
    /// gave the new service this attribute handle.
    GattAddService { service_handle: u16 },
    /// The vendor command that adds a GATT characteristic completed, and the
    /// stack gave the new characteristic this attribute handle.
    GattAddCharacteristic { characteristic_handle: u16 },
    /// Any other command completed.
    Other,
}

/// An event of the BLE stack, decoded: its kind, and for a Command Complete
/// event what it returned.
#[derive(Clone, Copy, Debug, PartialEq, Eq)]
pub enum HciEvent {
    LeConnectionComplete,
    DisconnectionComplete,
    LePhyUpdateComplete,
    LeDataLengthChange,
    CommandComplete(ReturnParameters),
    CommandStatus,
    Vendor,
    /// An event of any other kind.
    Other,
}

/// The kinds of event the event loop tells apart when it reports them.
#[derive(Clone, Copy, Debug, PartialEq, Eq)]
pub enum EventKind {
    LeConnectionComplete,
    DisconnectionComplete,
    LePhyUpdateComplete,
    LeDataLengthChange,
    CommandComplete,
    CommandStatus,
    Vendor,
    Other,
}

/// The kind of an event.
pub open spec fn spec_event_kind(event: HciEvent) -> EventKind {
    match event {
        HciEvent::LeConnectionComplete => EventKind::LeConnectionComplete,
        HciEvent::DisconnectionComplete => EventKind::DisconnectionComplete,
        HciEvent::LePhyUpdateComplete => EventKind::LePhyUpdateComplete,
        HciEvent::LeDataLengthChange => EventKind::LeDataLengthChange,
        HciEvent::CommandComplete(_) => EventKind::CommandComplete,
        HciEvent::CommandStatus => EventKind::CommandStatus,
        HciEvent::Vendor => EventKind::Vendor,
        HciEvent::Other => EventKind::Other,
    }
}

/// A command the host sent has completed: the event is a Command Complete
/// event, whatever it returned.
pub fn is_command_complete(event: &HciEvent) -> (r: Result<(), ()>)
    ensures
        r is Ok <==> event is CommandComplete,
{
    match event {
        HciEvent::CommandComplete(_) => Ok(()),
        _ => Err(()),
    }
}

/// How the event loop reports an event: under its own kind for the kinds it
/// knows, as "other" for the rest.
pub fn ble_loop_event_kind(event: &HciEvent) -> (kind: EventKind)
    ensures
        kind == spec_event_kind(*event),
        (kind == EventKind::CommandComplete) <==> (*event is CommandComplete),
        (kind == EventKind::LeConnectionComplete) <==> (*event is LeConnectionComplete),
        (kind == EventKind::DisconnectionComplete) <==> (*event is DisconnectionComplete),
        (kind == EventKind::LePhyUpdateComplete) <==> (*event is LePhyUpdateComplete),
        (kind == EventKind::LeDataLengthChange) <==> (*event is LeDataLengthChange),
        (kind == EventKind::CommandStatus) <==> (*event is CommandStatus),
        (kind == EventKind::Vendor) <==> (*event is Vendor),
        (kind == EventKind::Other) <==> (*event is Other),
{
    match event {
        HciEvent::LeConnectionComplete => EventKind::LeConnectionComplete,
        HciEvent::DisconnectionComplete => EventKind::DisconnectionComplete,
        HciEvent::LePhyUpdateComplete => EventKind::LePhyUpdateComplete,
        HciEvent::LeDataLengthChange => EventKind::LeDataLengthChange,
        HciEvent::CommandComplete(_) => EventKind::CommandComplete,
        HciEvent::CommandStatus => EventKind::CommandStatus,
        HciEvent::Vendor => EventKind::Vendor,
        HciEvent::Other => EventKind::Other,
    }
}

/// The handle of the service that the reply to an "add service" command
/// announces, if the reply is the completion of that command.
pub open spec fn spec_added_service(event: HciEvent) -> Option<u16> {
    match event {
        HciEvent::CommandComplete(ReturnParameters::GattAddService { service_handle }) => Some(
            service_handle,
        ),
        _ => None,
    }
}

/// The handle of the characteristic that the reply to an "add
/// characteristic" command announces, if the reply is the completion of that
/// command.
pub open spec fn spec_added_characteristic(event: HciEvent) -> Option<u16> {
    match event {
        HciEvent::CommandComplete(
            ReturnParameters::GattAddCharacteristic { characteristic_handle },
        ) => Some(characteristic_handle),
        _ => None,
    }
}

/// Reads the service handle out of the reply to an "add service" command.
pub fn added_service_handle(event: &HciEvent) -> (r: Result<u16, ()>)
    ensures
        r matches Ok(h) ==> spec_added_service(*event) == Some(h),
        r is Err <==> spec_added_service(*event) is None,
{
    match event {
        HciEvent::CommandComplete(ReturnParameters::GattAddService { service_handle }) => Ok(
            *service_handle,
        ),
        _ => Err(()),
    }
}

/// Reads the characteristic handle out of the reply to an "add
/// characteristic" command.
pub fn added_characteristic_handle(event: &HciEvent) -> (r: Result<u16, ()>)
    ensures
        r matches Ok(h) ==> spec_added_characteristic(*event) == Some(h),
        r is Err <==> spec_added_characteristic(*event) is None,
{
    match event {
        HciEvent::CommandComplete(
            ReturnParameters::GattAddCharacteristic { characteristic_handle },
        ) => Ok(*characteristic_handle),
        _ => Err(()),
    }
}

/// The event loop reports each event under its own kind: every Command
/// Complete event as a command completion, whatever it returned, and every
/// other event under the kind of the same name, or as "other".
pub proof fn lemma_event_kind_is_the_event_variant(event: HciEvent)
    ensures
        (spec_event_kind(event) == EventKind::CommandComplete) <==> (event is CommandComplete),
        (spec_event_kind(event) == EventKind::LeConnectionComplete) <==> (
        event is LeConnectionComplete),
        (spec_event_kind(event) == EventKind::DisconnectionComplete) <==> (
        event is DisconnectionComplete),
        (spec_event_kind(event) == EventKind::LePhyUpdateComplete) <==> (
        event is LePhyUpdateComplete),
        (spec_event_kind(event) == EventKind::LeDataLengthChange) <==> (
        event is LeDataLengthChange),
        (spec_event_kind(event) == EventKind::CommandStatus) <==> (event is CommandStatus),
        (spec_event_kind(event) == EventKind::Vendor) <==> (event is Vendor),
        (spec_event_kind(event) == EventKind::Other) <==> (event is Other),
{
}

} // verus!
