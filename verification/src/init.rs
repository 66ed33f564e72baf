//! Bringing up the BLE stack: which command the host sends at each stage,
//! how it checks the stack's reply, and what it learns from it.

use crate::address::{
    get_bd_addr, get_erk, get_irk, get_random_addr, spec_public_address, spec_random_address,
    DeviceInformation, BLE_CFG_ERK, BLE_CFG_IRK,
};
use crate::command::{
    AdvertisingFilterPolicy, AdvertisingType, AuthenticationRequirements, BleCommand,
    DiscoverableParameters, GapParameters, IdentityAddressType, IoCapability, OwnAddressType,
    PinPolicy, PowerLevel, SecureConnectionSupport, Uuid,
};
use crate::event::{
    added_characteristic_handle, added_service_handle, is_command_complete, spec_added_characteristic,
    spec_added_service, HciEvent,
};
use crate::gatt::{
    characteristic, read_char_default_value, value_written, service_command, spec_characteristic,
    spec_characteristic_added, spec_service_command, spec_update_value, update_value_command,
    BleContext, CharHandles, NOTIFY_CHAR_UUID, PROPERTY_NOTIFY, PROPERTY_READ, PROPERTY_WRITE,
    PROPERTY_WRITE_WITHOUT_RESPONSE, READ_CHAR_DEFAULT_VALUE, READ_CHAR_UUID, SERVICE_UUID,
    UPDATE_VALUE_REPLY, WRITE_CHAR_UUID,
};
use vstd::prelude::*;

verus! {

/// The length of the device name characteristic that the GAP layer creates.
pub const BLE_GAP_DEVICE_NAME_LENGTH: u8 = 7;
/// The scan response data: "LUMEN_RSP".
pub const SCAN_RESPONSE_DATA: [u8; 9] = [0x4c, 0x55, 0x4d, 0x45, 0x4e, 0x5f, 0x52, 0x53, 0x50];
/// The complete local name advertised: "LUMEN_01".
pub const LOCAL_NAME: [u8; 8] = [0x4c, 0x55, 0x4d, 0x45, 0x4e, 0x5f, 0x30, 0x31];
/// The advertising data: "BUY LUMEN".
pub const ADVERTISING_DATA: [u8; 9] = [0x42, 0x55, 0x59, 0x20, 0x4c, 0x55, 0x4d, 0x45, 0x4e];
/// The advertising interval, in milliseconds.
pub const ADVERTISING_INTERVAL_MS: u64 = 100;

/// The reply that confirms the identity root key was configured: Command
/// Complete, one command packet allowed, opcode 0xFC0C, status success.
pub const WRITE_CONFIG_REPLY: [u8; 4] = [0x01, 0x0C, 0xFC, 0x00];
/// The reply that confirms the transmit power was set (opcode 0xFC0F).
pub const TX_POWER_REPLY: [u8; 4] = [0x01, 0x0F, 0xFC, 0x00];
/// The reply that confirms the IO capability was set (opcode 0xFC85).
pub const IO_CAPABILITY_REPLY: [u8; 4] = [0x01, 0x85, 0xFC, 0x00];
/// The reply that confirms the authentication requirements were set
/// (opcode 0xFC86).
pub const AUTHENTICATION_REPLY: [u8; 4] = [0x01, 0x86, 0xFC, 0x00];
/// The reply that confirms the scan response data was set (opcode 0x2009).
pub const SCAN_RESPONSE_REPLY: [u8; 4] = [0x01, 0x09, 0x20, 0x00];
/// The reply that confirms the device became discoverable (opcode 0xFC83).
pub const DISCOVERABLE_REPLY: [u8; 4] = [0x01, 0x83, 0xFC, 0x00];

/// The stages of bring-up, in the order they run.
#[derive(Clone, Copy, Debug, PartialEq, Eq, Structural)]
pub enum InitStep {
    StackInit,
    Reset,
    PublicAddress,
    RandomAddress,
    IdentityRoot,
    /// Writing the encryption root key. The key is written with the same
    /// configuration command as the identity root key, so it goes to the
    /// identity root slot and replaces the key written by the stage before.
    EncryptionRoot,
    TxPower,
    GattInit,
    GapInit,
    IoCapability,
    AuthRequirement,
    ScanResponseData,
    AddService,
    AddReadCharacteristic,
    SetReadValue,
    AddWriteCharacteristic,
    AddNotifyCharacteristic,
    Discoverable,
}

/// The number of stages.
pub open spec fn init_step_count() -> int {
    18
}

/// The position of a stage in the order of bring-up, from 0.
pub open spec fn step_index(step: InitStep) -> int {
    match step {
        InitStep::StackInit => 0,
        InitStep::Reset => 1,
        InitStep::PublicAddress => 2,
        InitStep::RandomAddress => 3,
        InitStep::IdentityRoot => 4,
        InitStep::EncryptionRoot => 5,
        InitStep::TxPower => 6,
        InitStep::GattInit => 7,
        InitStep::GapInit => 8,
        InitStep::IoCapability => 9,
        InitStep::AuthRequirement => 10,
        InitStep::ScanResponseData => 11,
        InitStep::AddService => 12,
        InitStep::AddReadCharacteristic => 13,
        InitStep::SetReadValue => 14,
        InitStep::AddWriteCharacteristic => 15,
        InitStep::AddNotifyCharacteristic => 16,
        InitStep::Discoverable => 17,
    }
}

/// The stage at position `i` of bring-up (the last one past the end).
pub open spec fn step_at(i: int) -> InitStep {
    if i <= 0 {
        InitStep::StackInit
    } else if i == 1 {
        InitStep::Reset
    } else if i == 2 {
        InitStep::PublicAddress
    } else if i == 3 {
        InitStep::RandomAddress
    } else if i == 4 {
        InitStep::IdentityRoot
    } else if i == 5 {
        InitStep::EncryptionRoot
    } else if i == 6 {
        InitStep::TxPower
    } else if i == 7 {
        InitStep::GattInit
    } else if i == 8 {
        InitStep::GapInit
    } else if i == 9 {
        InitStep::IoCapability
    } else if i == 10 {
        InitStep::AuthRequirement
    } else if i == 11 {
        InitStep::ScanResponseData
    } else if i == 12 {
        InitStep::AddService
    } else if i == 13 {
        InitStep::AddReadCharacteristic
    } else if i == 14 {
        InitStep::SetReadValue
    } else if i == 15 {
        InitStep::AddWriteCharacteristic
    } else if i == 16 {
        InitStep::AddNotifyCharacteristic
    } else {
        InitStep::Discoverable
    }
}

/// A reply of the stack to a command: the decoded event, and its raw
/// parameters.
#[derive(Clone, Copy, Debug)]
pub struct HciResponse<'a> {
    pub event: HciEvent,
    pub payload: &'a [u8],
}

/// What the host hands to bring-up after it carried out a command.
#[derive(Clone, Copy, Debug)]
pub enum InitInput<'a> {
    /// The BLE stack was started (the reply to [`BleCommand::StackInit`],
    /// whose status is not checked).
    StackStarted,
    /// The stack replied to a command on the BLE channel.
    Response(HciResponse<'a>),
}

/// Why bring-up stopped.
#[derive(Clone, Copy, Debug, PartialEq, Eq)]
pub enum InitError {
    /// The input does not belong to this stage: a stack start outside the
    /// first stage, or a reply in it.
    OutOfOrder(InitStep),
    /// The reply is not a Command Complete event.
    NotCommandComplete(InitStep),
    /// The reply's parameters are not the expected ones.
    UnexpectedPayload(InitStep),
    /// The reply to "add service" is not its completion.
    ServiceNotAdded,
    /// The reply to "add characteristic" is not its completion.
    CharacteristicNotAdded(InitStep),
}

/// The state of bring-up: the stage whose command is outstanding, the
/// device's addresses, and the handles learned so far.
#[derive(Clone, Copy, Debug, PartialEq, Eq)]
pub struct BleInit {
    pub step: InitStep,
    pub public_addr: [u8; 6],
    pub random_addr: [u8; 6],
    pub service_handle: u16,
    pub read_handle: u16,
    pub write_handle: u16,
    pub notify_handle: u16,
}

/// What bring-up does after an input.
#[derive(Clone, Copy, Debug, PartialEq, Eq)]
pub enum InitOutcome {
    /// Send this command; bring-up is now in this state.
    Send(BleInit, BleCommand<'static>),
    /// Bring-up is complete, with this GATT service.
    Finished(BleContext),
    /// Bring-up stopped.
    Failed(InitError),
}

/// The reply parameters that a stage insists on, if any.
pub open spec fn expected_reply(step: InitStep) -> Option<[u8; 4]> {
    match step {
        InitStep::IdentityRoot => Some(WRITE_CONFIG_REPLY),
        InitStep::EncryptionRoot => Some(WRITE_CONFIG_REPLY),
        InitStep::TxPower => Some(TX_POWER_REPLY),
        InitStep::IoCapability => Some(IO_CAPABILITY_REPLY),
        InitStep::AuthRequirement => Some(AUTHENTICATION_REPLY),
        InitStep::ScanResponseData => Some(SCAN_RESPONSE_REPLY),
        InitStep::SetReadValue => Some(UPDATE_VALUE_REPLY),
        InitStep::Discoverable => Some(DISCOVERABLE_REPLY),
        _ => None,
    }
}

/// The stages that check the reply's parameters before they check its kind.
pub open spec fn payload_checked_first(step: InitStep) -> bool {
    ||| step == InitStep::IdentityRoot
    ||| step == InitStep::EncryptionRoot
    ||| step == InitStep::TxPower
    ||| step == InitStep::IoCapability
}

/// The payload meets the stage's expectation.
pub open spec fn payload_ok(step: InitStep, payload: Seq<u8>) -> bool {
    match expected_reply(step) {
        Some(p) => payload == p@,
        None => true,
    }
}

/// What a stage makes of the stack's reply: the handle it announces, for the
/// stages that add an attribute, or why it is refused.
pub open spec fn spec_reply_verdict(step: InitStep, event: HciEvent, payload: Seq<u8>) -> Result<
    Option<u16>,
    InitError,
> {
    match step {
        InitStep::AddService => match spec_added_service(event) {
            Some(h) => Ok(Some(h)),
            None => Err(InitError::ServiceNotAdded),
        },
        InitStep::AddReadCharacteristic | InitStep::AddWriteCharacteristic
        | InitStep::AddNotifyCharacteristic => match spec_added_characteristic(event) {
            Some(h) => Ok(Some(h)),
            None => Err(InitError::CharacteristicNotAdded(step)),
        },
        InitStep::SetReadValue => if payload_ok(step, payload) {
            Ok(None)
        } else {
            Err(InitError::UnexpectedPayload(step))
        },
        _ => if payload_checked_first(step) {
            if !payload_ok(step, payload) {
                Err(InitError::UnexpectedPayload(step))
            } else if !(event is CommandComplete) {
                Err(InitError::NotCommandComplete(step))
            } else {
                Ok(None)
            }
        } else {
            if !(event is CommandComplete) {
                Err(InitError::NotCommandComplete(step))
            } else if !payload_ok(step, payload) {
                Err(InitError::UnexpectedPayload(step))
            } else {
                Ok(None)
            }
        },
    }
}

/// What a stage makes of an input.
pub open spec fn spec_verdict(step: InitStep, input: InitInput) -> Result<Option<u16>, InitError> {
    match input {
        InitInput::StackStarted => if step == InitStep::StackInit {
            Ok(None)
        } else {
            Err(InitError::OutOfOrder(step))
        },
        InitInput::Response(r) => if step == InitStep::StackInit {
            Err(InitError::OutOfOrder(step))
        } else {
            spec_reply_verdict(step, r.event, r.payload@)
        },
    }
}

/// The stage after `step` (the last stage is its own successor).
pub open spec fn spec_next_step(step: InitStep) -> InitStep {
    step_at(step_index(step) + 1)
}

/// `h` if the stage announced a handle, `old` otherwise.
pub open spec fn handle_or(h: Option<u16>, old: u16) -> u16 {
    match h {
        Some(v) => v,
        None => old,
    }
}

/// The state after a stage accepted its input, which announced `h`.
pub open spec fn spec_record(s: BleInit, h: Option<u16>) -> BleInit {
    BleInit {
        step: spec_next_step(s.step),
        public_addr: s.public_addr,
        random_addr: s.random_addr,
        service_handle: if s.step == InitStep::AddService {
            handle_or(h, s.service_handle)
        } else {
            s.service_handle
        },
        read_handle: if s.step == InitStep::AddReadCharacteristic {
            handle_or(h, s.read_handle)
        } else {
            s.read_handle
        },
        write_handle: if s.step == InitStep::AddWriteCharacteristic {
            handle_or(h, s.write_handle)
        } else {
            s.write_handle
        },
        notify_handle: if s.step == InitStep::AddNotifyCharacteristic {
            handle_or(h, s.notify_handle)
        } else {
            s.notify_handle
        },
    }
}

/// The GATT service as the state knows it.
pub open spec fn spec_context(s: BleInit) -> BleContext {
    BleContext {
        service_handle: s.service_handle,
        chars: CharHandles { read: s.read_handle, write: s.write_handle, notify: s.notify_handle },
        is_subscribed: false,
    }
}

/// The authentication requirements: no bonding, no MITM protection,
/// secure connections optional, no keypress notifications, keys of 8 to 16
/// bytes, pin requested, public identity address.
pub open spec fn spec_authentication() -> AuthenticationRequirements {
    AuthenticationRequirements {
        bonding_required: false,
        mitm_protection_required: false,
        secure_connection_support: SecureConnectionSupport::Optional,
        keypress_notification_support: false,
        encryption_key_size_range: (8, 16),
        fixed_pin: PinPolicy::Requested,
        identity_address_type: IdentityAddressType::Public,
    }
}

/// The command that a state's stage sends.
pub open spec fn spec_command(s: BleInit) -> BleCommand<'static> {
    match s.step {
        InitStep::StackInit => BleCommand::StackInit,
        InitStep::Reset => BleCommand::Reset,
        InitStep::PublicAddress => BleCommand::WritePublicAddress(s.public_addr),
        InitStep::RandomAddress => BleCommand::WriteRandomAddress(s.random_addr),
        InitStep::IdentityRoot => BleCommand::WriteIdentityRoot(BLE_CFG_IRK),
        InitStep::EncryptionRoot => BleCommand::WriteIdentityRoot(BLE_CFG_ERK),
        InitStep::TxPower => BleCommand::SetTxPowerLevel(PowerLevel::ZeroDbm),
        InitStep::GattInit => BleCommand::InitGatt,
        InitStep::GapInit => BleCommand::InitGap(
            GapParameters {
                peripheral: true,
                privacy_enabled: false,
                device_name_len: BLE_GAP_DEVICE_NAME_LENGTH,
            },
        ),
        InitStep::IoCapability => BleCommand::SetIoCapability(IoCapability::DisplayConfirm),
        InitStep::AuthRequirement => BleCommand::SetAuthenticationRequirement(
            spec_authentication(),
        ),
        InitStep::ScanResponseData => BleCommand::SetScanResponseData(SCAN_RESPONSE_DATA),
        InitStep::AddService => spec_service_command(Uuid::Uuid16(SERVICE_UUID)),
        InitStep::AddReadCharacteristic => BleCommand::AddCharacteristic(
            spec_characteristic(s.service_handle, Uuid::Uuid16(READ_CHAR_UUID), PROPERTY_READ),
        ),
        InitStep::SetReadValue => spec_update_value(
            s.service_handle,
            s.read_handle,
            vstd::array::spec_array_as_slice(&READ_CHAR_DEFAULT_VALUE),
        ),
        InitStep::AddWriteCharacteristic => BleCommand::AddCharacteristic(
            spec_characteristic(
                s.service_handle,
                Uuid::Uuid16(WRITE_CHAR_UUID),
                PROPERTY_WRITE_WITHOUT_RESPONSE | PROPERTY_WRITE | PROPERTY_READ,
            ),
        ),
        InitStep::AddNotifyCharacteristic => BleCommand::AddCharacteristic(
            spec_characteristic(s.service_handle, Uuid::Uuid16(NOTIFY_CHAR_UUID), PROPERTY_NOTIFY | PROPERTY_READ),
        ),
        InitStep::Discoverable => BleCommand::SetDiscoverable(
            DiscoverableParameters {
                advertising_type: AdvertisingType::ConnectableUndirected,
                address_type: OwnAddressType::Public,
                filter_policy: AdvertisingFilterPolicy::AllowConnectionAndScan,
                conn_interval_ms: (None, None),
                advertising_interval_ms: (ADVERTISING_INTERVAL_MS, ADVERTISING_INTERVAL_MS),
                local_name: LOCAL_NAME,
                advertising_data: ADVERTISING_DATA,
            },
        ),
    }
}

/// What bring-up does when the stage of `s` receives `input`: stop, if the
/// stage refuses it; finish, after the last stage; otherwise record what the
/// reply announced and send the next stage's command.
pub open spec fn spec_advance(s: BleInit, input: InitInput) -> InitOutcome {
    match spec_verdict(s.step, input) {
        Err(e) => InitOutcome::Failed(e),
        Ok(h) => if s.step == InitStep::Discoverable {
            InitOutcome::Finished(spec_context(s))
        } else {
            let next = spec_record(s, h);
            InitOutcome::Send(next, spec_command(next))
        },
    }
}

/// The state bring-up starts in, for a device.
pub open spec fn is_initial(s: BleInit, info: DeviceInformation) -> bool {
    &&& s.step == InitStep::StackInit
    &&& s.public_addr@ == spec_public_address(info)
    &&& s.random_addr@ == spec_random_address(info)
    &&& s.service_handle == 0
    &&& s.read_handle == 0
    &&& s.write_handle == 0
    &&& s.notify_handle == 0
}

fn payload_matches(payload: &[u8], expected: [u8; 4]) -> (r: bool)
    ensures
        r == (payload@ == expected@),
{
    let r = payload.len() == 4 && payload[0] == expected[0] && payload[1] == expected[1]
        && payload[2] == expected[2] && payload[3] == expected[3];
    if r {
        assert(payload@ =~= expected@);
    }
    r
}

fn step_payload_ok(step: InitStep, payload: &[u8]) -> (r: bool)
    ensures
        r == payload_ok(step, payload@),
{
    match step {
        InitStep::IdentityRoot => payload_matches(payload, WRITE_CONFIG_REPLY),
        InitStep::EncryptionRoot => payload_matches(payload, WRITE_CONFIG_REPLY),
        InitStep::TxPower => payload_matches(payload, TX_POWER_REPLY),
        InitStep::IoCapability => payload_matches(payload, IO_CAPABILITY_REPLY),
        InitStep::AuthRequirement => payload_matches(payload, AUTHENTICATION_REPLY),
        InitStep::ScanResponseData => payload_matches(payload, SCAN_RESPONSE_REPLY),
        InitStep::SetReadValue => value_written(payload),
        InitStep::Discoverable => payload_matches(payload, DISCOVERABLE_REPLY),
        _ => true,
    }
}

fn reply_verdict(step: InitStep, response: &HciResponse) -> (r: Result<Option<u16>, InitError>)
    ensures
        r == spec_reply_verdict(step, response.event, response.payload@),
{
    match step {
        InitStep::AddService => match added_service_handle(&response.event) {
            Ok(h) => Ok(Some(h)),
            Err(()) => Err(InitError::ServiceNotAdded),
        },
        InitStep::AddReadCharacteristic | InitStep::AddWriteCharacteristic
        | InitStep::AddNotifyCharacteristic => match added_characteristic_handle(&response.event) {
            Ok(h) => Ok(Some(h)),
            Err(()) => Err(InitError::CharacteristicNotAdded(step)),
        },
        InitStep::SetReadValue => if step_payload_ok(step, response.payload) {
            Ok(None)
        } else {
            Err(InitError::UnexpectedPayload(step))
        },
        _ => {
            let first = step == InitStep::IdentityRoot || step == InitStep::EncryptionRoot
                || step == InitStep::TxPower || step == InitStep::IoCapability;
            let complete = is_command_complete(&response.event).is_ok();
            let payload_good = step_payload_ok(step, response.payload);
            if first {
                if !payload_good {
                    Err(InitError::UnexpectedPayload(step))
                } else if !complete {
                    Err(InitError::NotCommandComplete(step))
                } else {
                    Ok(None)
                }
            } else {
                if !complete {
                    Err(InitError::NotCommandComplete(step))
                } else if !payload_good {
                    Err(InitError::UnexpectedPayload(step))
                } else {
                    Ok(None)
                }
            }
        },
    }
}

fn verdict(step: InitStep, input: &InitInput) -> (r: Result<Option<u16>, InitError>)
    ensures
        r == spec_verdict(step, *input),
{
    match input {
        InitInput::StackStarted => if step == InitStep::StackInit {
            Ok(None)
        } else {
            Err(InitError::OutOfOrder(step))
        },
        InitInput::Response(response) => if step == InitStep::StackInit {
            Err(InitError::OutOfOrder(step))
        } else {
            reply_verdict(step, response)
        },
    }
}

fn next_step(step: InitStep) -> (r: InitStep)
    ensures
        r == spec_next_step(step),
{
    match step {
        InitStep::StackInit => InitStep::Reset,
        InitStep::Reset => InitStep::PublicAddress,
        InitStep::PublicAddress => InitStep::RandomAddress,
        InitStep::RandomAddress => InitStep::IdentityRoot,
        InitStep::IdentityRoot => InitStep::EncryptionRoot,
        InitStep::EncryptionRoot => InitStep::TxPower,
        InitStep::TxPower => InitStep::GattInit,
        InitStep::GattInit => InitStep::GapInit,
        InitStep::GapInit => InitStep::IoCapability,
        InitStep::IoCapability => InitStep::AuthRequirement,
        InitStep::AuthRequirement => InitStep::ScanResponseData,
        InitStep::ScanResponseData => InitStep::AddService,
        InitStep::AddService => InitStep::AddReadCharacteristic,
        InitStep::AddReadCharacteristic => InitStep::SetReadValue,
        InitStep::SetReadValue => InitStep::AddWriteCharacteristic,
        InitStep::AddWriteCharacteristic => InitStep::AddNotifyCharacteristic,
        InitStep::AddNotifyCharacteristic => InitStep::Discoverable,
        InitStep::Discoverable => InitStep::Discoverable,
    }
}

impl BleInit {
    /// Starts bring-up for a device: the state before the first stage, and
    /// the command that starts the BLE stack.
    pub fn start(info: &DeviceInformation) -> (r: (BleInit, BleCommand<'static>))
        ensures
            is_initial(r.0, *info),
            r.1 == spec_command(r.0),
            r.1 == BleCommand::StackInit,
    {
        let s = BleInit {
            step: InitStep::StackInit,
            public_addr: get_bd_addr(info),
            random_addr: get_random_addr(info),
            service_handle: 0,
            read_handle: 0,
            write_handle: 0,
            notify_handle: 0,
        };
        (s, BleCommand::StackInit)
    }

    /// The command that this state's stage sends.
    pub fn command(&self) -> (c: BleCommand<'static>)
        ensures
            c == spec_command(*self),
    {
        match self.step {
            InitStep::StackInit => BleCommand::StackInit,
            InitStep::Reset => BleCommand::Reset,
            InitStep::PublicAddress => BleCommand::WritePublicAddress(self.public_addr),
            InitStep::RandomAddress => BleCommand::WriteRandomAddress(self.random_addr),
            InitStep::IdentityRoot => BleCommand::WriteIdentityRoot(get_irk()),
            InitStep::EncryptionRoot => BleCommand::WriteIdentityRoot(get_erk()),
            InitStep::TxPower => BleCommand::SetTxPowerLevel(PowerLevel::ZeroDbm),
            InitStep::GattInit => BleCommand::InitGatt,
            InitStep::GapInit => BleCommand::InitGap(
                GapParameters {
                    peripheral: true,
                    privacy_enabled: false,
                    device_name_len: BLE_GAP_DEVICE_NAME_LENGTH,
                },
            ),
            InitStep::IoCapability => BleCommand::SetIoCapability(IoCapability::DisplayConfirm),
            InitStep::AuthRequirement => BleCommand::SetAuthenticationRequirement(
                AuthenticationRequirements {
                    bonding_required: false,
                    mitm_protection_required: false,
                    secure_connection_support: SecureConnectionSupport::Optional,
                    keypress_notification_support: false,
                    encryption_key_size_range: (8, 16),
                    fixed_pin: PinPolicy::Requested,
                    identity_address_type: IdentityAddressType::Public,
                },
            ),
            InitStep::ScanResponseData => BleCommand::SetScanResponseData(SCAN_RESPONSE_DATA),
            InitStep::AddService => service_command(Uuid::Uuid16(SERVICE_UUID)),
            InitStep::AddReadCharacteristic => BleCommand::AddCharacteristic(
                characteristic(self.service_handle, Uuid::Uuid16(READ_CHAR_UUID), PROPERTY_READ),
            ),
            InitStep::SetReadValue => update_value_command(
                self.service_handle,
                self.read_handle,
                read_char_default_value(),
            ),
            InitStep::AddWriteCharacteristic => BleCommand::AddCharacteristic(
                characteristic(
                    self.service_handle,
                    Uuid::Uuid16(WRITE_CHAR_UUID),
                    PROPERTY_WRITE_WITHOUT_RESPONSE | PROPERTY_WRITE | PROPERTY_READ,
                ),
            ),
            InitStep::AddNotifyCharacteristic => BleCommand::AddCharacteristic(
                characteristic(
                    self.service_handle,
                    Uuid::Uuid16(NOTIFY_CHAR_UUID),
                    PROPERTY_NOTIFY | PROPERTY_READ,
                ),
            ),
            InitStep::Discoverable => BleCommand::SetDiscoverable(
                DiscoverableParameters {
                    advertising_type: AdvertisingType::ConnectableUndirected,
                    address_type: OwnAddressType::Public,
                    filter_policy: AdvertisingFilterPolicy::AllowConnectionAndScan,
                    conn_interval_ms: (None, None),
                    advertising_interval_ms: (ADVERTISING_INTERVAL_MS, ADVERTISING_INTERVAL_MS),
                    local_name: LOCAL_NAME,
                    advertising_data: ADVERTISING_DATA,
                },
            ),
        }
    }

    /// Feeds the outcome of the outstanding command to bring-up.
    pub fn advance(&self, input: &InitInput) -> (out: InitOutcome)
        ensures
            out == spec_advance(*self, *input),
    {
        match verdict(self.step, input) {
            Err(e) => InitOutcome::Failed(e),
            Ok(h) => if self.step == InitStep::Discoverable {
                InitOutcome::Finished(
                    BleContext {
                        service_handle: self.service_handle,
                        chars: CharHandles {
                            read: self.read_handle,
                            write: self.write_handle,
                            notify: self.notify_handle,
                        },
                        is_subscribed: false,
                    },
                )
            } else {
                let step = self.step;
                let next = BleInit {
                    step: next_step(step),
                    public_addr: self.public_addr,
                    random_addr: self.random_addr,
                    service_handle: if step == InitStep::AddService {
                        match h { Some(v) => v, None => self.service_handle }
                    } else {
                        self.service_handle
                    },
                    read_handle: if step == InitStep::AddReadCharacteristic {
                        match h { Some(v) => v, None => self.read_handle }
                    } else {
                        self.read_handle
                    },
                    write_handle: if step == InitStep::AddWriteCharacteristic {
                        match h { Some(v) => v, None => self.write_handle }
                    } else {
                        self.write_handle
                    },
                    notify_handle: if step == InitStep::AddNotifyCharacteristic {
                        match h { Some(v) => v, None => self.notify_handle }
                    } else {
                        self.notify_handle
                    },
                };
                InitOutcome::Send(next, next.command())
            },
        }
    }
}


/// What bring-up does with a sequence of inputs from state `s`: the outcome
/// of the input that ends it, or, if none does, the command it then awaits.
pub open spec fn spec_run(s: BleInit, inputs: Seq<InitInput>) -> InitOutcome
    decreases inputs.len(),
{
    if inputs.len() == 0 {
        InitOutcome::Send(s, spec_command(s))
    } else {
        match spec_advance(s, inputs[0]) {
            InitOutcome::Send(next, _) => spec_run(next, inputs.drop_first()),
            done => done,
        }
    }
}

/// Each of the stages from position `k` on accepts the input given to it:
/// `inputs[i]` to the stage at position `k + i`.
pub open spec fn all_accepted(k: int, inputs: Seq<InitInput>) -> bool {
    &&& inputs.len() >= init_step_count() - k
    &&& forall|i: int|
        #![trigger inputs[i]]
        0 <= i < init_step_count() - k ==> spec_verdict(step_at(k + i), inputs[i]) is Ok
}

/// The handle that an input announces to a stage (0 if none).
pub open spec fn announced(step: InitStep, input: InitInput) -> u16 {
    match spec_verdict(step, input) {
        Ok(Some(h)) => h,
        _ => 0,
    }
}

/// Why a stage refuses an input.
pub open spec fn refusal(step: InitStep, input: InitInput) -> InitError {
    match spec_verdict(step, input) {
        Err(e) => e,
        Ok(_) => InitError::OutOfOrder(step),
    }
}

proof fn lemma_step_index_bounds(step: InitStep)
    ensures
        0 <= step_index(step) < init_step_count(),
        step_at(step_index(step)) == step,
{
}

proof fn lemma_step_at_index(i: int)
    requires
        0 <= i < init_step_count(),
    ensures
        step_index(step_at(i)) == i,
{
}

/// Each input that a stage accepts, before the last stage, moves bring-up to
/// the next stage, which sends its own command; the last stage finishes with
/// the handles learned. A refused input stops bring-up with the stage's
/// reason.
pub proof fn lemma_advance_moves_one_stage(s: BleInit, input: InitInput)
    ensures
        spec_verdict(s.step, input) is Err ==> spec_advance(s, input) == InitOutcome::Failed(
            refusal(s.step, input),
        ),
        spec_verdict(s.step, input) is Ok && s.step != InitStep::Discoverable ==> {
            &&& spec_advance(s, input) is Send
            &&& step_index(spec_advance(s, input)->Send_0.step) == step_index(s.step) + 1
            &&& spec_advance(s, input)->Send_1 == spec_command(spec_advance(s, input)->Send_0)
        },
        spec_verdict(s.step, input) is Ok && s.step == InitStep::Discoverable ==> spec_advance(
            s,
            input,
        ) == InitOutcome::Finished(spec_context(s)),
{
    lemma_step_index_bounds(s.step);
    if s.step != InitStep::Discoverable {
        lemma_step_at_index(step_index(s.step) + 1);
    }
}

proof fn lemma_run_from(s: BleInit, inputs: Seq<InitInput>)
    ensures
        (spec_run(s, inputs) is Finished) <==> all_accepted(step_index(s.step), inputs),
        all_accepted(step_index(s.step), inputs) ==> spec_run(s, inputs) == InitOutcome::Finished(
            BleContext {
                service_handle: if step_index(s.step) <= 12 {
                    announced(InitStep::AddService, inputs[12 - step_index(s.step)])
                } else {
                    s.service_handle
                },
                chars: CharHandles {
                    read: if step_index(s.step) <= 13 {
                        announced(InitStep::AddReadCharacteristic, inputs[13 - step_index(s.step)])
                    } else {
                        s.read_handle
                    },
                    write: if step_index(s.step) <= 15 {
                        announced(InitStep::AddWriteCharacteristic, inputs[15 - step_index(s.step)])
                    } else {
                        s.write_handle
                    },
                    notify: if step_index(s.step) <= 16 {
                        announced(
                            InitStep::AddNotifyCharacteristic,
                            inputs[16 - step_index(s.step)],
                        )
                    } else {
                        s.notify_handle
                    },
                },
                is_subscribed: false,
            },
        ),
    decreases inputs.len(),
{
    let k: int = step_index(s.step);
    lemma_step_index_bounds(s.step);
    if inputs.len() == 0 {
        assert(!all_accepted(k, inputs));
    } else {
        let v = spec_verdict(s.step, inputs[0]);
        if v is Err {
            assert(!all_accepted(k, inputs)) by {
                assert(spec_verdict(step_at(k + 0), inputs[0]) is Err);
            }
        } else if s.step == InitStep::Discoverable {
            assert(all_accepted(k, inputs)) by {
                assert forall|i: int| 0 <= i < init_step_count() - k implies spec_verdict(
                    step_at(k + i),
                    #[trigger] inputs[i],
                ) is Ok by {
                    assert(i == 0);
                }
            }
        } else {
            let h = v->Ok_0;
            let next = spec_record(s, h);
            let rest = inputs.drop_first();
            lemma_step_at_index(k + 1);
            assert(step_index(next.step) == k + 1);
            lemma_run_from(next, rest);
            assert(spec_run(s, inputs) == spec_run(next, rest));
            assert(all_accepted(k, inputs) <==> all_accepted(k + 1, rest)) by {
                if all_accepted(k, inputs) {
                    assert forall|i: int| 0 <= i < init_step_count() - (k + 1) implies spec_verdict(
                        step_at(k + 1 + i),
                        #[trigger] rest[i],
                    ) is Ok by {
                        assert(rest[i] == inputs[i + 1]);
                        assert(spec_verdict(step_at(k + (i + 1)), inputs[i + 1]) is Ok);
                    }
                }
                if all_accepted(k + 1, rest) {
                    assert forall|i: int| 0 <= i < init_step_count() - k implies spec_verdict(
                        step_at(k + i),
                        #[trigger] inputs[i],
                    ) is Ok by {
                        if i > 0 {
                            assert(inputs[i] == rest[i - 1]);
                            assert(spec_verdict(step_at(k + 1 + (i - 1)), rest[i - 1]) is Ok);
                        }
                    }
                }
            }
            if all_accepted(k, inputs) {
                if k <= 12 {
                    if k < 12 {
                        assert(rest[12 - (k + 1)] == inputs[12 - k]);
                    }
                }
                if k < 13 {
                    assert(rest[13 - (k + 1)] == inputs[13 - k]);
                }
                if k < 15 {
                    assert(rest[15 - (k + 1)] == inputs[15 - k]);
                }
                if k < 16 {
                    assert(rest[16 - (k + 1)] == inputs[16 - k]);
                }
            }
        }
    }
}

/// Bring-up completes exactly when every stage, in order, accepts the input
/// it is given: the stack start first, then a reply confirming each of the
/// seventeen commands. The GATT service it then reports has the handles
/// announced by the replies to "add service" and to the three "add
/// characteristic" commands, and no client subscribed.
pub proof fn lemma_init_completes_iff_all_confirmed(
    info: DeviceInformation,
    s: BleInit,
    inputs: Seq<InitInput>,
)
    requires
        is_initial(s, info),
    ensures
        (spec_run(s, inputs) is Finished) <==> all_accepted(0, inputs),
        all_accepted(0, inputs) ==> spec_run(s, inputs) == InitOutcome::Finished(
            BleContext {
                service_handle: announced(InitStep::AddService, inputs[12]),
                chars: CharHandles {
                    read: announced(InitStep::AddReadCharacteristic, inputs[13]),
                    write: announced(InitStep::AddWriteCharacteristic, inputs[15]),
                    notify: announced(InitStep::AddNotifyCharacteristic, inputs[16]),
                },
                is_subscribed: false,
            },
        ),
{
    lemma_run_from(s, inputs);
}

proof fn lemma_run_stops_at_first_refusal(s: BleInit, inputs: Seq<InitInput>, j: int)
    requires
        0 <= j < inputs.len(),
        j < init_step_count() - step_index(s.step),
        forall|i: int|
            #![trigger inputs[i]]
            0 <= i < j ==> spec_verdict(step_at(step_index(s.step) + i), inputs[i]) is Ok,
        spec_verdict(step_at(step_index(s.step) + j), inputs[j]) is Err,
    ensures
        spec_run(s, inputs) == InitOutcome::Failed(
            refusal(step_at(step_index(s.step) + j), inputs[j]),
        ),
    decreases j,
{
    let k: int = step_index(s.step);
    lemma_step_index_bounds(s.step);
    if j == 0 {
        assert(step_at(k + 0) == s.step);
    } else {
        assert(spec_verdict(step_at(k + 0), inputs[0]) is Ok);
        let h = spec_verdict(s.step, inputs[0])->Ok_0;
        let next = spec_record(s, h);
        let rest = inputs.drop_first();
        assert(s.step != InitStep::Discoverable);
        lemma_step_at_index(k + 1);
        assert forall|i: int| 0 <= i < j - 1 implies spec_verdict(
            step_at(step_index(next.step) + i),
            #[trigger] rest[i],
        ) is Ok by {
            assert(rest[i] == inputs[i + 1]);
            assert(spec_verdict(step_at(k + (i + 1)), inputs[i + 1]) is Ok);
        }
        assert(rest[j - 1] == inputs[j]);
        assert(step_at(step_index(next.step) + (j - 1)) == step_at(k + j));
        lemma_run_stops_at_first_refusal(next, rest, j - 1);
    }
}

/// When bring-up stops, it reports the reason of the first stage that
/// refused its input; no later input is looked at.
pub proof fn lemma_init_fails_at_first_refusal(
    info: DeviceInformation,
    s: BleInit,
    inputs: Seq<InitInput>,
    j: int,
)
    requires
        is_initial(s, info),
        0 <= j < inputs.len(),
        j < init_step_count(),
        forall|i: int| #![trigger inputs[i]] 0 <= i < j ==> spec_verdict(step_at(i), inputs[i]) is Ok,
        spec_verdict(step_at(j), inputs[j]) is Err,
    ensures
        spec_run(s, inputs) == InitOutcome::Failed(refusal(step_at(j), inputs[j])),
{
    assert forall|i: int| 0 <= i < j implies spec_verdict(
        step_at(step_index(s.step) + i),
        #[trigger] inputs[i],
    ) is Ok by {
        assert(step_index(s.step) + i == i);
    }
    lemma_run_stops_at_first_refusal(s, inputs, j);
}

/// The service's characteristics are added to the service the stack just
/// announced, and the read characteristic's default value is written to the
/// characteristic the stack just announced; no later stage changes the
/// service handle.
pub proof fn lemma_characteristics_target_announced_handles(s: BleInit, input: InitInput)
    ensures
        s.step == InitStep::AddService && spec_verdict(s.step, input) is Ok ==> spec_advance(
            s,
            input,
        ) == InitOutcome::Send(
            spec_record(s, spec_verdict(s.step, input)->Ok_0),
            BleCommand::AddCharacteristic(
                spec_characteristic(announced(s.step, input), Uuid::Uuid16(READ_CHAR_UUID), PROPERTY_READ),
            ),
        ),
        s.step == InitStep::AddReadCharacteristic && spec_verdict(s.step, input) is Ok
            ==> spec_advance(s, input) == InitOutcome::Send(
            spec_record(s, spec_verdict(s.step, input)->Ok_0),
            spec_update_value(
                s.service_handle,
                announced(s.step, input),
                vstd::array::spec_array_as_slice(&READ_CHAR_DEFAULT_VALUE),
            ),
        ),
        s.step != InitStep::AddService && spec_advance(s, input) is Send ==> spec_advance(
            s,
            input,
        )->Send_0.service_handle == s.service_handle,
{
}

/// The characteristic stages do what [`crate::gatt::characteristic_added`]
/// says of a characteristic with or without a default value: once the stack
/// announced the read characteristic, the next command writes its default
/// value to it; once it announced the write or the notify characteristic,
/// which have none, no value is written and the next command is not a value
/// write.
pub proof fn lemma_characteristic_stages_follow_default_values(s: BleInit, r: HciResponse)
    ensures
        s.step == InitStep::AddReadCharacteristic && spec_verdict(s.step, InitInput::Response(r))
            is Ok ==> spec_characteristic_added(
            s.service_handle,
            r.event,
            Some(vstd::array::spec_array_as_slice(&READ_CHAR_DEFAULT_VALUE)),
        ) == Ok::<(u16, Option<BleCommand>), ()>(
            (
                announced(s.step, InitInput::Response(r)),
                Some(spec_advance(s, InitInput::Response(r))->Send_1),
            ),
        ),
        (s.step == InitStep::AddWriteCharacteristic || s.step
            == InitStep::AddNotifyCharacteristic) && spec_verdict(s.step, InitInput::Response(r))
            is Ok ==> {
            &&& spec_characteristic_added(s.service_handle, r.event, None) == Ok::<
                (u16, Option<BleCommand>),
                (),
            >((announced(s.step, InitInput::Response(r)), None))
            &&& !(spec_advance(s, InitInput::Response(r))->Send_1 is UpdateCharacteristicValue)
        },
{
}

/// The replies whose parameters bring-up insists on: a key write must be
/// confirmed by `01 0C FC 00`, the transmit power by `01 0F FC 00`, the IO
/// capability by `01 85 FC 00`, the authentication requirements by
/// `01 86 FC 00`, the scan response data by `01 09 20 00`, the default value
/// write by `01 06 FD 00` and advertising by `01 83 FC 00`.
pub open spec fn required_reply(step: InitStep) -> Option<Seq<u8>> {
    if step == InitStep::IdentityRoot || step == InitStep::EncryptionRoot {
        Some(seq![0x01u8, 0x0Cu8, 0xFCu8, 0x00u8])
    } else if step == InitStep::TxPower {
        Some(seq![0x01u8, 0x0Fu8, 0xFCu8, 0x00u8])
    } else if step == InitStep::IoCapability {
        Some(seq![0x01u8, 0x85u8, 0xFCu8, 0x00u8])
    } else if step == InitStep::AuthRequirement {
        Some(seq![0x01u8, 0x86u8, 0xFCu8, 0x00u8])
    } else if step == InitStep::ScanResponseData {
        Some(seq![0x01u8, 0x09u8, 0x20u8, 0x00u8])
    } else if step == InitStep::SetReadValue {
        Some(seq![0x01u8, 0x06u8, 0xFDu8, 0x00u8])
    } else if step == InitStep::Discoverable {
        Some(seq![0x01u8, 0x83u8, 0xFCu8, 0x00u8])
    } else {
        None
    }
}

proof fn lemma_reply_constants()
    ensures
        WRITE_CONFIG_REPLY@ == seq![0x01u8, 0x0Cu8, 0xFCu8, 0x00u8],
        TX_POWER_REPLY@ == seq![0x01u8, 0x0Fu8, 0xFCu8, 0x00u8],
        IO_CAPABILITY_REPLY@ == seq![0x01u8, 0x85u8, 0xFCu8, 0x00u8],
        AUTHENTICATION_REPLY@ == seq![0x01u8, 0x86u8, 0xFCu8, 0x00u8],
        SCAN_RESPONSE_REPLY@ == seq![0x01u8, 0x09u8, 0x20u8, 0x00u8],
        UPDATE_VALUE_REPLY@ == seq![0x01u8, 0x06u8, 0xFDu8, 0x00u8],
        DISCOVERABLE_REPLY@ == seq![0x01u8, 0x83u8, 0xFCu8, 0x00u8],
{
    assert(WRITE_CONFIG_REPLY@ =~= seq![0x01u8, 0x0Cu8, 0xFCu8, 0x00u8]);
    assert(TX_POWER_REPLY@ =~= seq![0x01u8, 0x0Fu8, 0xFCu8, 0x00u8]);
    assert(IO_CAPABILITY_REPLY@ =~= seq![0x01u8, 0x85u8, 0xFCu8, 0x00u8]);
    assert(AUTHENTICATION_REPLY@ =~= seq![0x01u8, 0x86u8, 0xFCu8, 0x00u8]);
    assert(SCAN_RESPONSE_REPLY@ =~= seq![0x01u8, 0x09u8, 0x20u8, 0x00u8]);
    assert(UPDATE_VALUE_REPLY@ =~= seq![0x01u8, 0x06u8, 0xFDu8, 0x00u8]);
    assert(DISCOVERABLE_REPLY@ =~= seq![0x01u8, 0x83u8, 0xFCu8, 0x00u8]);
}

/// A stage that insists on its reply's parameters stops bring-up on any
/// reply whose parameters differ: the key writes, the transmit power, the IO
/// capability and the default value write report the parameters whatever
/// the reply's kind; the authentication requirements, the scan response data
/// and advertising report them for a Command Complete reply and the kind
/// otherwise. With the required parameters and a Command Complete reply,
/// such a stage lets bring-up go on.
pub proof fn lemma_required_replies(s: BleInit, r: HciResponse)
    ensures
        required_reply(s.step) matches Some(p) && r.payload@ != p && (s.step
            == InitStep::IdentityRoot || s.step == InitStep::EncryptionRoot || s.step
            == InitStep::TxPower || s.step == InitStep::IoCapability || s.step
            == InitStep::SetReadValue || r.event is CommandComplete) ==> spec_advance(
            s,
            InitInput::Response(r),
        ) == InitOutcome::Failed(InitError::UnexpectedPayload(s.step)),
        required_reply(s.step) matches Some(p) && r.payload@ != p ==> spec_advance(
            s,
            InitInput::Response(r),
        ) is Failed,
        required_reply(s.step) matches Some(p) && r.payload@ == p && r.event is CommandComplete
            ==> !(spec_advance(s, InitInput::Response(r)) is Failed),
{
    lemma_reply_constants();
}

} // verus!
