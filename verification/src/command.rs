//! The commands the host sends to the BLE stack while it brings it up.

use vstd::prelude::*;

verus! {

/// The radio's transmit power.
#[derive(Clone, Copy, Debug, PartialEq, Eq)]
pub enum PowerLevel {
    /// 0 dBm.
    ZeroDbm,
}

/// The input and output capabilities the device announces for pairing.
#[derive(Clone, Copy, Debug, PartialEq, Eq)]
pub enum IoCapability {
    /// A display and a yes/no confirmation.
    DisplayConfirm,
}

/// Whether LE secure connections are supported.
#[derive(Clone, Copy, Debug, PartialEq, Eq)]
pub enum SecureConnectionSupport {
    NotSupported,
    Optional,
    Mandatory,
}

/// Whether pairing uses a fixed pin or asks for one.
#[derive(Clone, Copy, Debug, PartialEq, Eq)]
pub enum PinPolicy {
    /// The pin is requested from the user.
    Requested,
    /// This fixed pin is used.
    Fixed(u32),
}

/// The kind of identity address the device uses.
#[derive(Clone, Copy, Debug, PartialEq, Eq)]
pub enum IdentityAddressType {
    Public,
    Random,
}

/// The authentication requirements of the device.
#[derive(Clone, Copy, Debug, PartialEq, Eq)]
pub struct AuthenticationRequirements {
    pub bonding_required: bool,
    pub mitm_protection_required: bool,
    pub secure_connection_support: SecureConnectionSupport,
    pub keypress_notification_support: bool,
    /// The smallest and the largest encryption key size accepted, in bytes.
    pub encryption_key_size_range: (u8, u8),
    pub fixed_pin: PinPolicy,
    pub identity_address_type: IdentityAddressType,
}

/// The parameters of the GAP layer's initialisation.
#[derive(Clone, Copy, Debug, PartialEq, Eq)]
pub struct GapParameters {
    /// The device takes the peripheral role.
    pub peripheral: bool,
    pub privacy_enabled: bool,
    /// The length of the device name characteristic, in bytes.
    pub device_name_len: u8,
}

/// The UUID of a service or characteristic.
#[derive(Clone, Copy, Debug, PartialEq, Eq)]
pub enum Uuid {
    /// A 16-bit UUID.
    Uuid16(u16),
    /// A 128-bit UUID, least significant byte first.
    Uuid128([u8; 16]),
}

/// Whether a service is primary or secondary.
#[derive(Clone, Copy, Debug, PartialEq, Eq)]
pub enum ServiceType {
    Primary,
    Secondary,
}

/// The kind of advertising.
#[derive(Clone, Copy, Debug, PartialEq, Eq)]
pub enum AdvertisingType {
    ConnectableUndirected,
    ConnectableDirectedHighDutyCycle,
    ScannableUndirected,
    NonConnectableUndirected,
    ConnectableDirectedLowDutyCycle,
}

/// The address the device advertises from.
#[derive(Clone, Copy, Debug, PartialEq, Eq)]
pub enum OwnAddressType {
    Public,
    Random,
    PrivateFallbackPublic,
    PrivateFallbackRandom,
}

/// Which devices may connect and scan.
#[derive(Clone, Copy, Debug, PartialEq, Eq)]
pub enum AdvertisingFilterPolicy {
    AllowConnectionAndScan,
    AllowConnectionWhiteListScan,
    WhiteListConnectionAllowScan,
    WhiteListConnectionAndScan,
}

/// The parameters of a characteristic added to a service.
#[derive(Clone, Copy, Debug, PartialEq, Eq)]
pub struct CharacteristicParameters {
    pub service_handle: u16,
    /// The characteristic's UUID.
    pub uuid: Uuid,
    /// The maximum length of its value, in bytes.
    pub value_len: u16,
    /// Its property bits.
    pub properties: u8,
    /// Its security permission bits.
    pub security_permissions: u8,
    /// The bits of the GATT events it reports.
    pub gatt_event_mask: u8,
    /// The encryption key size that access requires, in bytes.
    pub encryption_key_size: usize,
    /// Its value may be shorter than `value_len`.
    pub is_variable: bool,
}

/// How the device advertises itself.
#[derive(Clone, Copy, Debug, PartialEq, Eq)]
pub struct DiscoverableParameters {
    pub advertising_type: AdvertisingType,
    /// The address advertised from.
    pub address_type: OwnAddressType,
    pub filter_policy: AdvertisingFilterPolicy,
    /// The preferred shortest and longest connection interval, in
    /// milliseconds, where there is one.
    pub conn_interval_ms: (Option<u64>, Option<u64>),
    /// The shortest and the longest advertising interval, in milliseconds.
    pub advertising_interval_ms: (u64, u64),
    /// The complete local name.
    pub local_name: [u8; 8],
    /// The advertising data.
    pub advertising_data: [u8; 9],
}

/// A command of the host to the BLE stack.
#[derive(Clone, Copy, Debug, PartialEq, Eq)]
pub enum BleCommand<'a> {
    /// Start the BLE stack on the wireless co-processor, with the default
    /// parameters.
    StackInit,
    /// Reset the controller.
    Reset,
    /// Configure the public device address.
    WritePublicAddress([u8; 6]),
    /// Configure the static random address.
    WriteRandomAddress([u8; 6]),
    /// Configure the identity root key.
    WriteIdentityRoot([u8; 16]),
    SetTxPowerLevel(PowerLevel),
    /// Initialise the GATT server.
    InitGatt,
    /// Initialise the GAP layer.
    InitGap(GapParameters),
    SetIoCapability(IoCapability),
    SetAuthenticationRequirement(AuthenticationRequirements),
    SetScanResponseData([u8; 9]),
    /// Add a service.
    AddService { uuid: Uuid, service_type: ServiceType, max_attribute_records: u8 },
    AddCharacteristic(CharacteristicParameters),
    /// Write a characteristic's value, from `offset` on.
    UpdateCharacteristicValue {
        service_handle: u16,
        characteristic_handle: u16,
        offset: usize,
        value: &'a [u8],
    },
    /// Start advertising.
    SetDiscoverable(DiscoverableParameters),
}

} // verus!
