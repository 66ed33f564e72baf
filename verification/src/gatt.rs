//! The GATT service this server offers, and the handles the stack gives it.

use stm32wb_hci::vendor::command::gatt::{EncryptionKeySize, EncryptionKeySizeError};
use crate::command::{BleCommand, CharacteristicParameters, ServiceType, Uuid};
use crate::event::{spec_added_characteristic, HciEvent, ReturnParameters};
use vstd::prelude::*;

verus! {

/// The 16-bit UUID of the service.
pub const SERVICE_UUID: u16 = 0x500;
/// The 16-bit UUID of the characteristic that clients read.
pub const READ_CHAR_UUID: u16 = 0x501;
/// The 16-bit UUID of the characteristic that clients write.
pub const WRITE_CHAR_UUID: u16 = 0x502;
/// The 16-bit UUID of the characteristic that notifies clients.
pub const NOTIFY_CHAR_UUID: u16 = 0x503;

/// The most attribute records the service may hold.
pub const MAX_ATTRIBUTE_RECORDS: u8 = 8;
/// The length of each characteristic's value, in bytes.
pub const CHARACTERISTIC_VALUE_LEN: u16 = 32;
/// The size of the encryption key that access to a characteristic requires.
pub const ENCRYPTION_KEY_SIZE: usize = 7;

/// Characteristic property bit: the value may be read.
pub const PROPERTY_READ: u8 = 0x02;
/// Characteristic property bit: the value may be written without response.
pub const PROPERTY_WRITE_WITHOUT_RESPONSE: u8 = 0x04;
/// Characteristic property bit: the value may be written with response.
pub const PROPERTY_WRITE: u8 = 0x08;
/// Characteristic property bit: the value may be notified.
pub const PROPERTY_NOTIFY: u8 = 0x10;

/// The security permission bits of each characteristic: none.
pub const NO_SECURITY_PERMISSIONS: u8 = 0x00;
/// The GATT event mask of each characteristic: every event (attribute
/// write 0x01, write confirmation 0x02, read confirmation 0x04, notification
/// complete 0x08).
pub const GATT_EVENT_MASK_ALL: u8 = 0x0F;

/// The value the read characteristic starts with: "Hello from embassy".
pub const READ_CHAR_DEFAULT_VALUE: [u8; 18] = [
    0x48, 0x65, 0x6c, 0x6c, 0x6f, 0x20, 0x66, 0x72, 0x6f, 0x6d, 0x20, 0x65, 0x6d, 0x62, 0x61, 0x73,
    0x73, 0x79,
];

/// The attribute handles of the three characteristics of the service.
#[derive(Clone, Copy, Debug, PartialEq, Eq)]
pub struct CharHandles {
    pub read: u16,
    pub write: u16,
    pub notify: u16,
}

/// What the server knows of its GATT service once it is set up.
#[derive(Clone, Copy, Debug, PartialEq, Eq)]
pub struct BleContext {
    pub service_handle: u16,
    pub chars: CharHandles,
    pub is_subscribed: bool,
}

/// Why an encryption key size is refused.
#[derive(Clone, Copy, Debug, PartialEq, Eq)]
pub enum KeySizeError {
    /// Shorter than 7 bytes.
    TooShort,
    /// Longer than 16 bytes.
    TooLong,
}

/// What the stack's encryption key size validation makes of `size`: sizes
/// from 7 to 16 bytes are kept as they are, others refused.
pub open spec fn spec_checked_key_size(size: usize) -> Result<usize, KeySizeError> {
    if size < 7 {
        Err(KeySizeError::TooShort)
    } else if size > 16 {
        Err(KeySizeError::TooLong)
    } else {
        Ok(size)
    }
}

/// Validates an encryption key size with
/// `stm32wb_hci::vendor::command::gatt::EncryptionKeySize::with_value` and
/// reads the validated size back with `EncryptionKeySize::value`. Claimed of
/// them: a size below 7 is refused as too short, one above 16 as too long,
/// and any other is accepted and read back unchanged.
#[verifier::external_body]
pub(crate) fn checked_key_size(size: usize) -> (r: Result<usize, KeySizeError>)
    ensures
        r == spec_checked_key_size(size),
{
    match EncryptionKeySize::with_value(size) {
        Ok(key_size) => Ok(key_size.value()),
        Err(EncryptionKeySizeError::TooShort) => Err(KeySizeError::TooShort),
        Err(EncryptionKeySizeError::TooLong) => Err(KeySizeError::TooLong),
    }
}

/// Validates an encryption key size as the stack does: sizes from 7 to 16
/// bytes are accepted unchanged, shorter and longer ones refused.
pub fn encryption_key_size(size: usize) -> (r: Result<usize, KeySizeError>)
    ensures
        r == spec_checked_key_size(size),
        r is Ok <==> 7 <= size <= 16,
{
    checked_key_size(size)
}

/// The reply that confirms a characteristic value was written: Command
/// Complete, one command packet allowed, opcode 0xFD06, status success.
pub const UPDATE_VALUE_REPLY: [u8; 4] = [0x01, 0x06, 0xFD, 0x00];

/// The command that adds a primary service with the given UUID, with room
/// for `MAX_ATTRIBUTE_RECORDS` attribute records.
pub open spec fn spec_service_command(uuid: Uuid) -> BleCommand<'static> {
    BleCommand::AddService {
        uuid,
        service_type: ServiceType::Primary,
        max_attribute_records: MAX_ATTRIBUTE_RECORDS,
    }
}

/// A characteristic with the given UUID and properties, added to the given
/// service: a variable-length value of up to 32 bytes, no security
/// permissions, every GATT event reported, 7-byte encryption keys.
pub open spec fn spec_characteristic(service_handle: u16, uuid: Uuid, properties: u8) -> CharacteristicParameters {
    CharacteristicParameters {
        service_handle,
        uuid,
        value_len: CHARACTERISTIC_VALUE_LEN,
        properties,
        security_permissions: NO_SECURITY_PERMISSIONS,
        gatt_event_mask: GATT_EVENT_MASK_ALL,
        encryption_key_size: ENCRYPTION_KEY_SIZE,
        is_variable: true,
    }
}

/// The command that writes `value` as the whole value of a characteristic
/// of a service (from offset 0).
pub open spec fn spec_update_value<'a>(service_handle: u16, characteristic_handle: u16, value: &'a [u8]) -> BleCommand<'a> {
    BleCommand::UpdateCharacteristicValue {
        service_handle,
        characteristic_handle,
        offset: 0,
        value,
    }
}

/// What the host makes of the reply to "add characteristic" for a
/// characteristic of a service that may have a default value: the handle
/// the stack announced, and the command that writes the default value to
/// that characteristic if there is one; or nothing, if the reply is not the
/// completion of "add characteristic".
pub open spec fn spec_characteristic_added<'a>(
    service_handle: u16,
    reply: HciEvent,
    default_value: Option<&'a [u8]>,
) -> Result<(u16, Option<BleCommand<'a>>), ()> {
    match spec_added_characteristic(reply) {
        None => Err(()),
        Some(h) => Ok(
            (
                h,
                match default_value {
                    Some(v) => Some(spec_update_value(service_handle, h, v)),
                    None => None,
                },
            ),
        ),
    }
}

/// The command that adds a primary service with the given UUID.
pub fn service_command(uuid: Uuid) -> (c: BleCommand<'static>)
    ensures
        c == spec_service_command(uuid),
        c == (BleCommand::AddService {
            uuid: uuid,
            service_type: ServiceType::Primary,
            max_attribute_records: 8u8,
        }),
{
    BleCommand::AddService {
        uuid,
        service_type: ServiceType::Primary,
        max_attribute_records: MAX_ATTRIBUTE_RECORDS,
    }
}

/// The parameters of a characteristic with the given UUID and properties,
/// added to the given service.
pub fn characteristic(service_handle: u16, uuid: Uuid, properties: u8) -> (c: CharacteristicParameters)
    ensures
        c == spec_characteristic(service_handle, uuid, properties),
        c.service_handle == service_handle,
        c.uuid == uuid,
        c.properties == properties,
        c.value_len == 32,
        c.security_permissions == 0,
        c.gatt_event_mask == 0x0F,
        c.encryption_key_size == 7,
        c.is_variable,
{
    CharacteristicParameters {
        service_handle,
        uuid,
        value_len: CHARACTERISTIC_VALUE_LEN,
        properties,
        security_permissions: NO_SECURITY_PERMISSIONS,
        gatt_event_mask: GATT_EVENT_MASK_ALL,
        encryption_key_size: match encryption_key_size(ENCRYPTION_KEY_SIZE) {
            Ok(size) => size,
            Err(_) => vstd::pervasive::unreached(),
        },
        is_variable: true,
    }
}

/// The command that writes `value` as the whole value of a characteristic.
pub fn update_value_command<'a>(service_handle: u16, characteristic_handle: u16, value: &'a [u8]) -> (c: BleCommand<'a>)
    ensures
        c == spec_update_value(service_handle, characteristic_handle, value),
        c == (BleCommand::UpdateCharacteristicValue {
            service_handle: service_handle,
            characteristic_handle: characteristic_handle,
            offset: 0usize,
            value: value,
        }),
        c matches BleCommand::UpdateCharacteristicValue { value: written, .. } && written@
            == value@,
{
    BleCommand::UpdateCharacteristicValue { service_handle, characteristic_handle, offset: 0, value }
}

/// Reads the reply to "add characteristic": the announced handle, and the
/// command that writes the default value, if any, to that characteristic.
pub fn characteristic_added<'a>(
    service_handle: u16,
    reply: &HciEvent,
    default_value: Option<&'a [u8]>,
) -> (r: Result<(u16, Option<BleCommand<'a>>), ()>)
    ensures
        r == spec_characteristic_added(service_handle, *reply, default_value),
{
    match reply {
        HciEvent::CommandComplete(
            ReturnParameters::GattAddCharacteristic { characteristic_handle },
        ) => {
            let h = *characteristic_handle;
            match default_value {
                Some(v) => Ok((h, Some(update_value_command(service_handle, h, v)))),
                None => Ok((h, None)),
            }
        },
        _ => Err(()),
    }
}

/// The reply to a characteristic value write confirms it: its parameters are
/// exactly those of a successful completion.
pub fn value_written(payload: &[u8]) -> (r: bool)
    ensures
        r == (payload@ == UPDATE_VALUE_REPLY@),
{
    let r = payload.len() == 4 && payload[0] == UPDATE_VALUE_REPLY[0]
        && payload[1] == UPDATE_VALUE_REPLY[1] && payload[2] == UPDATE_VALUE_REPLY[2]
        && payload[3] == UPDATE_VALUE_REPLY[3];
    if r {
        assert(payload@ =~= UPDATE_VALUE_REPLY@);
    }
    r
}

/// The default value of the read characteristic, as a slice.
pub fn read_char_default_value() -> (v: &'static [u8])
    ensures
        v == vstd::array::spec_array_as_slice(&READ_CHAR_DEFAULT_VALUE),
        v@ == READ_CHAR_DEFAULT_VALUE@,
{
    let value: &'static [u8; 18] = &READ_CHAR_DEFAULT_VALUE;
    proof {
        broadcast use vstd::array::axiom_spec_array_as_slice;
    }
    value.as_slice()
}

/// A service is added as a primary service under exactly the UUID given,
/// whatever its width, with room for eight attribute records.
pub proof fn lemma_service_command_keeps_uuid(uuid: Uuid)
    ensures
        spec_service_command(uuid) matches BleCommand::AddService {
            uuid: u,
            service_type: t,
            max_attribute_records: n,
        } && u == uuid && t == ServiceType::Primary && n == 8,
{
}

/// A characteristic is added to the service given, under exactly the UUID
/// and with exactly the properties given; its value holds up to 32 bytes, of
/// variable length, with no security permissions, every GATT event reported
/// and 7-byte encryption keys.
pub proof fn lemma_characteristic_keeps_arguments(service_handle: u16, uuid: Uuid, properties: u8)
    ensures
        spec_characteristic(service_handle, uuid, properties).service_handle == service_handle,
        spec_characteristic(service_handle, uuid, properties).uuid == uuid,
        spec_characteristic(service_handle, uuid, properties).properties == properties,
        spec_characteristic(service_handle, uuid, properties).value_len == 32,
        spec_characteristic(service_handle, uuid, properties).security_permissions == 0,
        spec_characteristic(service_handle, uuid, properties).gatt_event_mask == 0x0F,
        spec_characteristic(service_handle, uuid, properties).encryption_key_size == 7,
        spec_characteristic(service_handle, uuid, properties).is_variable,
{
}

/// A value write writes the whole value given, of any length, from offset
/// 0, to the characteristic and service given.
pub proof fn lemma_update_value_writes_whole_value(
    service_handle: u16,
    characteristic_handle: u16,
    value: &[u8],
)
    ensures
        spec_update_value(service_handle, characteristic_handle, value) matches BleCommand::UpdateCharacteristicValue {
            service_handle: s,
            characteristic_handle: c,
            offset: o,
            value: v,
        } && s == service_handle && c == characteristic_handle && o == 0 && v == value && v@
            == value@,
{
}

} // verus!
