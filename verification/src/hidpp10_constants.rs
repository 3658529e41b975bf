//! HID++ 1.0 protocol constants: notification and feature flag sets,
//! device kinds, power switch locations, error codes and registers.

use vstd::prelude::*;

verus! {

/// Notification flag bits of the NOTIFICATIONS register (0x00).
#[derive(Debug, Clone, Copy, PartialEq, Eq, Structural)]
pub struct NotificationFlag {
    pub bits: u32,
}

/// All notification bits that have a name.
pub const NOTIFICATION_FLAG_ALL: u32 = 0xFF1F07;

impl NotificationFlag {
    pub fn numpad_numerical_keys() -> (r: NotificationFlag)
        ensures
            r.bits == 0x800000,
    {
        NotificationFlag { bits: 0x800000 }
    }

    pub fn f_lock_status() -> (r: NotificationFlag)
        ensures
            r.bits == 0x400000,
    {
        NotificationFlag { bits: 0x400000 }
    }

    pub fn roller_h() -> (r: NotificationFlag)
        ensures
            r.bits == 0x200000,
    {
        NotificationFlag { bits: 0x200000 }
    }

    /// Send battery-charge notifications (sub-ID 0x07 or 0x0D).
    pub fn battery_status() -> (r: NotificationFlag)
        ensures
            r.bits == 0x100000,
    {
        NotificationFlag { bits: 0x100000 }
    }

    pub fn mouse_extra_buttons() -> (r: NotificationFlag)
        ensures
            r.bits == 0x080000,
    {
        NotificationFlag { bits: 0x080000 }
    }

    pub fn roller_v() -> (r: NotificationFlag)
        ensures
            r.bits == 0x040000,
    {
        NotificationFlag { bits: 0x040000 }
    }

    /// System control keys such as Sleep.
    pub fn power_keys() -> (r: NotificationFlag)
        ensures
            r.bits == 0x020000,
    {
        NotificationFlag { bits: 0x020000 }
    }

    /// Consumer controls such as Mute and Calculator.
    pub fn keyboard_multimedia_raw() -> (r: NotificationFlag)
        ensures
            r.bits == 0x010000,
    {
        NotificationFlag { bits: 0x010000 }
    }

    /// Notify on multi-touch changes.
    pub fn multi_touch() -> (r: NotificationFlag)
        ensures
            r.bits == 0x001000,
    {
        NotificationFlag { bits: 0x001000 }
    }

    /// Software is controlling part of the device behaviour.
    pub fn software_present() -> (r: NotificationFlag)
        ensures
            r.bits == 0x000800,
    {
        NotificationFlag { bits: 0x000800 }
    }

    /// Notify on link quality changes.
    pub fn link_quality() -> (r: NotificationFlag)
        ensures
            r.bits == 0x000400,
    {
        NotificationFlag { bits: 0x000400 }
    }

    /// Notify on UI changes.
    pub fn ui() -> (r: NotificationFlag)
        ensures
            r.bits == 0x000200,
    {
        NotificationFlag { bits: 0x000200 }
    }

    /// Notify when the device wireless link goes on or off line.
    pub fn wireless() -> (r: NotificationFlag)
        ensures
            r.bits == 0x000100,
    {
        NotificationFlag { bits: 0x000100 }
    }

    pub fn configuration_complete() -> (r: NotificationFlag)
        ensures
            r.bits == 0x000004,
    {
        NotificationFlag { bits: 0x000004 }
    }

    pub fn voip_telephony() -> (r: NotificationFlag)
        ensures
            r.bits == 0x000002,
    {
        NotificationFlag { bits: 0x000002 }
    }

    pub fn threed_gesture() -> (r: NotificationFlag)
        ensures
            r.bits == 0x000001,
    {
        NotificationFlag { bits: 0x000001 }
    }

    /// The flag set with no flag.
    pub fn empty() -> (r: NotificationFlag)
        ensures
            r.bits == 0,
    {
        NotificationFlag { bits: 0 }
    }

    /// The raw bits of this flag set.
    pub fn bits(&self) -> (r: u32)
        ensures
            r == self.bits,
    {
        self.bits
    }

    /// The flag set of the named bits among `bits`; other bits are dropped.
    pub fn from_bits_truncate(bits: u32) -> (r: NotificationFlag)
        ensures
            r.bits == bits & NOTIFICATION_FLAG_ALL,
    {
        NotificationFlag { bits: bits & NOTIFICATION_FLAG_ALL }
    }

    /// Whether every flag of `other` is set in `self`.
    pub fn contains(&self, other: NotificationFlag) -> (r: bool)
        ensures
            r == (self.bits & other.bits == other.bits),
    {
        self.bits & other.bits == other.bits
    }

    /// Whether no flag is set.
    pub fn is_empty(&self) -> (r: bool)
        ensures
            r == (self.bits == 0),
    {
        self.bits == 0
    }

    /// The flags set in either operand.
    pub fn union(self, other: NotificationFlag) -> (r: NotificationFlag)
        ensures
            r.bits == self.bits | other.bits,
    {
        NotificationFlag { bits: self.bits | other.bits }
    }
}

impl core::ops::BitOr for NotificationFlag {
    type Output = NotificationFlag;

    fn bitor(self, rhs: NotificationFlag) -> (r: NotificationFlag) {
        NotificationFlag { bits: self.bits | rhs.bits }
    }
}

impl vstd::std_specs::ops::BitOrSpecImpl for NotificationFlag {
    open spec fn obeys_bitor_spec() -> bool {
        true
    }

    open spec fn bitor_req(self, rhs: NotificationFlag) -> bool {
        true
    }

    open spec fn bitor_spec(self, rhs: NotificationFlag) -> NotificationFlag {
        NotificationFlag { bits: self.bits | rhs.bits }
    }
}

/// Device capability flags for HID++ 1.0 devices.
#[derive(Debug, Clone, Copy, PartialEq, Eq, Structural)]
pub struct DeviceFeature {
    pub bits: u32,
}

/// All device feature bits that have a name.
pub const DEVICE_FEATURE_ALL: u32 = 0xFF00FF;

impl DeviceFeature {
    pub fn reserved1() -> (r: DeviceFeature)
        ensures
            r.bits == 0x010000,
    {
        DeviceFeature { bits: 0x010000 }
    }

    pub fn special_buttons() -> (r: DeviceFeature)
        ensures
            r.bits == 0x020000,
    {
        DeviceFeature { bits: 0x020000 }
    }

    pub fn enhanced_key_usage() -> (r: DeviceFeature)
        ensures
            r.bits == 0x040000,
    {
        DeviceFeature { bits: 0x040000 }
    }

    pub fn fast_fw_rev() -> (r: DeviceFeature)
        ensures
            r.bits == 0x080000,
    {
        DeviceFeature { bits: 0x080000 }
    }

    pub fn reserved2() -> (r: DeviceFeature)
        ensures
            r.bits == 0x100000,
    {
        DeviceFeature { bits: 0x100000 }
    }

    pub fn reserved3() -> (r: DeviceFeature)
        ensures
            r.bits == 0x200000,
    {
        DeviceFeature { bits: 0x200000 }
    }

    pub fn scroll_accel() -> (r: DeviceFeature)
        ensures
            r.bits == 0x400000,
    {
        DeviceFeature { bits: 0x400000 }
    }

    pub fn buttons_control_resolution() -> (r: DeviceFeature)
        ensures
            r.bits == 0x800000,
    {
        DeviceFeature { bits: 0x800000 }
    }

    pub fn inhibit_lock_key_sound() -> (r: DeviceFeature)
        ensures
            r.bits == 0x000001,
    {
        DeviceFeature { bits: 0x000001 }
    }

    pub fn reserved4() -> (r: DeviceFeature)
        ensures
            r.bits == 0x000002,
    {
        DeviceFeature { bits: 0x000002 }
    }

    pub fn mx_air_3d_engine() -> (r: DeviceFeature)
        ensures
            r.bits == 0x000004,
    {
        DeviceFeature { bits: 0x000004 }
    }

    pub fn host_control_leds() -> (r: DeviceFeature)
        ensures
            r.bits == 0x000008,
    {
        DeviceFeature { bits: 0x000008 }
    }

    pub fn reserved5() -> (r: DeviceFeature)
        ensures
            r.bits == 0x000010,
    {
        DeviceFeature { bits: 0x000010 }
    }

    pub fn reserved6() -> (r: DeviceFeature)
        ensures
            r.bits == 0x000020,
    {
        DeviceFeature { bits: 0x000020 }
    }

    pub fn reserved7() -> (r: DeviceFeature)
        ensures
            r.bits == 0x000040,
    {
        DeviceFeature { bits: 0x000040 }
    }

    pub fn reserved8() -> (r: DeviceFeature)
        ensures
            r.bits == 0x000080,
    {
        DeviceFeature { bits: 0x000080 }
    }

    /// The flag set of the named bits among `bits`; other bits are dropped.
    pub fn from_bits_truncate(bits: u32) -> (r: DeviceFeature)
        ensures
            r.bits == bits & DEVICE_FEATURE_ALL,
    {
        DeviceFeature { bits: bits & DEVICE_FEATURE_ALL }
    }

    /// Whether every flag of `other` is set in `self`.
    pub fn contains(&self, other: DeviceFeature) -> (r: bool)
        ensures
            r == (self.bits & other.bits == other.bits),
    {
        self.bits & other.bits == other.bits
    }
}

/// Device kind codes as used by HID++ 1.0.
#[derive(Debug, Clone, Copy, PartialEq, Eq, Structural)]
pub enum DeviceKind {
    Unknown,
    Keyboard,
    Mouse,
    Numpad,
    Presenter,
    Remote,
    Trackball,
    Touchpad,
    Tablet,
    Gamepad,
    Joystick,
    Headset,
    RemoteControl,
    Receiver,
}

/// The HID++ 1.0 device kind a kind byte denotes.
pub open spec fn spec_device_kind(v: u8) -> DeviceKind {
    if v == 0x01 {
        DeviceKind::Keyboard
    } else if v == 0x02 {
        DeviceKind::Mouse
    } else if v == 0x03 {
        DeviceKind::Numpad
    } else if v == 0x04 {
        DeviceKind::Presenter
    } else if v == 0x07 {
        DeviceKind::Remote
    } else if v == 0x08 {
        DeviceKind::Trackball
    } else if v == 0x09 {
        DeviceKind::Touchpad
    } else if v == 0x0A {
        DeviceKind::Tablet
    } else if v == 0x0B {
        DeviceKind::Gamepad
    } else if v == 0x0C {
        DeviceKind::Joystick
    } else if v == 0x0D {
        DeviceKind::Headset
    } else if v == 0x0E {
        DeviceKind::RemoteControl
    } else if v == 0x0F {
        DeviceKind::Receiver
    } else {
        DeviceKind::Unknown
    }
}

impl From<u8> for DeviceKind {
    fn from(v: u8) -> (r: Self) {
        match v {
            0x01 => DeviceKind::Keyboard,
            0x02 => DeviceKind::Mouse,
            0x03 => DeviceKind::Numpad,
            0x04 => DeviceKind::Presenter,
            0x07 => DeviceKind::Remote,
            0x08 => DeviceKind::Trackball,
            0x09 => DeviceKind::Touchpad,
            0x0A => DeviceKind::Tablet,
            0x0B => DeviceKind::Gamepad,
            0x0C => DeviceKind::Joystick,
            0x0D => DeviceKind::Headset,
            0x0E => DeviceKind::RemoteControl,
            0x0F => DeviceKind::Receiver,
            _ => DeviceKind::Unknown,
        }
    }
}

impl vstd::std_specs::convert::FromSpecImpl<u8> for DeviceKind {
    open spec fn obeys_from_spec() -> bool {
        true
    }

    open spec fn from_spec(v: u8) -> DeviceKind {
        spec_device_kind(v)
    }
}

/// Physical location of the power switch on a device.
#[derive(Debug, Clone, Copy, PartialEq, Eq, Structural)]
pub enum PowerSwitchLocation {
    Unknown,
    Base,
    TopCase,
    EdgeOfTopRightCorner,
    TopLeftCorner,
    BottomLeftCorner,
    TopRightCorner,
    BottomRightCorner,
    TopEdge,
    RightEdge,
    LeftEdge,
    BottomEdge,
}

/// The power switch location a location byte denotes.
pub open spec fn spec_power_switch_location(v: u8) -> PowerSwitchLocation {
    if v == 0x01 {
        PowerSwitchLocation::Base
    } else if v == 0x02 {
        PowerSwitchLocation::TopCase
    } else if v == 0x03 {
        PowerSwitchLocation::EdgeOfTopRightCorner
    } else if v == 0x05 {
        PowerSwitchLocation::TopLeftCorner
    } else if v == 0x06 {
        PowerSwitchLocation::BottomLeftCorner
    } else if v == 0x07 {
        PowerSwitchLocation::TopRightCorner
    } else if v == 0x08 {
        PowerSwitchLocation::BottomRightCorner
    } else if v == 0x09 {
        PowerSwitchLocation::TopEdge
    } else if v == 0x0A {
        PowerSwitchLocation::RightEdge
    } else if v == 0x0B {
        PowerSwitchLocation::LeftEdge
    } else if v == 0x0C {
        PowerSwitchLocation::BottomEdge
    } else {
        PowerSwitchLocation::Unknown
    }
}

impl From<u8> for PowerSwitchLocation {
    fn from(v: u8) -> (r: Self) {
        match v {
            0x01 => PowerSwitchLocation::Base,
            0x02 => PowerSwitchLocation::TopCase,
            0x03 => PowerSwitchLocation::EdgeOfTopRightCorner,
            0x05 => PowerSwitchLocation::TopLeftCorner,
            0x06 => PowerSwitchLocation::BottomLeftCorner,
            0x07 => PowerSwitchLocation::TopRightCorner,
            0x08 => PowerSwitchLocation::BottomRightCorner,
            0x09 => PowerSwitchLocation::TopEdge,
            0x0A => PowerSwitchLocation::RightEdge,
            0x0B => PowerSwitchLocation::LeftEdge,
            0x0C => PowerSwitchLocation::BottomEdge,
            _ => PowerSwitchLocation::Unknown,
        }
    }
}

impl vstd::std_specs::convert::FromSpecImpl<u8> for PowerSwitchLocation {
    open spec fn obeys_from_spec() -> bool {
        true
    }

    open spec fn from_spec(v: u8) -> PowerSwitchLocation {
        spec_power_switch_location(v)
    }
}

/// HID++ 1.0 error codes returned in a sub-ID 0x8F reply.
#[derive(Debug, Clone, Copy, PartialEq, Eq, Structural)]
pub enum ErrorCode {
    InvalidSubIdCommand,
    InvalidAddress,
    InvalidValue,
    ConnectionRequestFailed,
    TooManyDevices,
    AlreadyExists,
    Busy,
    UnknownDevice,
    ResourceError,
    RequestUnavailable,
    UnsupportedParameterValue,
    WrongPinCode,
    Unknown(u8),
}

/// The HID++ 1.0 error code an error byte denotes.
pub open spec fn spec_error_code(v: u8) -> ErrorCode {
    if v == 0x01 {
        ErrorCode::InvalidSubIdCommand
    } else if v == 0x02 {
        ErrorCode::InvalidAddress
    } else if v == 0x03 {
        ErrorCode::InvalidValue
    } else if v == 0x04 {
        ErrorCode::ConnectionRequestFailed
    } else if v == 0x05 {
        ErrorCode::TooManyDevices
    } else if v == 0x06 {
        ErrorCode::AlreadyExists
    } else if v == 0x07 {
        ErrorCode::Busy
    } else if v == 0x08 {
        ErrorCode::UnknownDevice
    } else if v == 0x09 {
        ErrorCode::ResourceError
    } else if v == 0x0A {
        ErrorCode::RequestUnavailable
    } else if v == 0x0B {
        ErrorCode::UnsupportedParameterValue
    } else if v == 0x0C {
        ErrorCode::WrongPinCode
    } else {
        ErrorCode::Unknown(v)
    }
}

impl From<u8> for ErrorCode {
    fn from(v: u8) -> (r: Self) {
        match v {
            0x01 => ErrorCode::InvalidSubIdCommand,
            0x02 => ErrorCode::InvalidAddress,
            0x03 => ErrorCode::InvalidValue,
            0x04 => ErrorCode::ConnectionRequestFailed,
            0x05 => ErrorCode::TooManyDevices,
            0x06 => ErrorCode::AlreadyExists,
            0x07 => ErrorCode::Busy,
            0x08 => ErrorCode::UnknownDevice,
            0x09 => ErrorCode::ResourceError,
            0x0A => ErrorCode::RequestUnavailable,
            0x0B => ErrorCode::UnsupportedParameterValue,
            0x0C => ErrorCode::WrongPinCode,
            other => ErrorCode::Unknown(other),
        }
    }
}

impl vstd::std_specs::convert::FromSpecImpl<u8> for ErrorCode {
    open spec fn obeys_from_spec() -> bool {
        true
    }

    open spec fn from_spec(v: u8) -> ErrorCode {
        spec_error_code(v)
    }
}

/// HID++ 1.0 pairing error codes.
#[derive(Debug, Clone, Copy, PartialEq, Eq, Structural)]
pub enum PairingError {
    DeviceTimeout,
    DeviceNotSupported,
    TooManyDevices,
    SequenceTimeout,
    Unknown(u8),
}

/// The pairing error a pairing error byte denotes.
pub open spec fn spec_pairing_error(v: u8) -> PairingError {
    if v == 0x01 {
        PairingError::DeviceTimeout
    } else if v == 0x02 {
        PairingError::DeviceNotSupported
    } else if v == 0x03 {
        PairingError::TooManyDevices
    } else if v == 0x06 {
        PairingError::SequenceTimeout
    } else {
        PairingError::Unknown(v)
    }
}

impl From<u8> for PairingError {
    fn from(v: u8) -> (r: Self) {
        match v {
            0x01 => PairingError::DeviceTimeout,
            0x02 => PairingError::DeviceNotSupported,
            0x03 => PairingError::TooManyDevices,
            0x06 => PairingError::SequenceTimeout,
            other => PairingError::Unknown(other),
        }
    }
}

impl vstd::std_specs::convert::FromSpecImpl<u8> for PairingError {
    open spec fn obeys_from_spec() -> bool {
        true
    }

    open spec fn from_spec(v: u8) -> PairingError {
        spec_pairing_error(v)
    }
}

/// The text shown for a pairing error.
pub open spec fn spec_pairing_error_label(e: PairingError) -> Seq<char> {
    match e {
        PairingError::DeviceTimeout => "device timeout"@,
        PairingError::DeviceNotSupported => "device not supported"@,
        PairingError::TooManyDevices => "too many devices"@,
        PairingError::SequenceTimeout => "sequence timeout"@,
        PairingError::Unknown(_) => "unknown error"@,
    }
}

impl PairingError {
    pub fn label(self) -> (r: &'static str)
        ensures
            r@ == spec_pairing_error_label(self),
    {
        match self {
            PairingError::DeviceTimeout => "device timeout",
            PairingError::DeviceNotSupported => "device not supported",
            PairingError::TooManyDevices => "too many devices",
            PairingError::SequenceTimeout => "sequence timeout",
            PairingError::Unknown(_) => "unknown error",
        }
    }
}

/// Bolt receiver pairing error codes.
#[derive(Debug, Clone, Copy, PartialEq, Eq, Structural)]
pub enum BoltPairingError {
    DeviceTimeout,
    Failed,
    Unknown(u8),
}

/// The Bolt pairing error a pairing error byte denotes.
pub open spec fn spec_bolt_pairing_error(v: u8) -> BoltPairingError {
    if v == 0x01 {
        BoltPairingError::DeviceTimeout
    } else if v == 0x02 {
        BoltPairingError::Failed
    } else {
        BoltPairingError::Unknown(v)
    }
}

impl From<u8> for BoltPairingError {
    fn from(v: u8) -> (r: Self) {
        match v {
            0x01 => BoltPairingError::DeviceTimeout,
            0x02 => BoltPairingError::Failed,
            other => BoltPairingError::Unknown(other),
        }
    }
}

impl vstd::std_specs::convert::FromSpecImpl<u8> for BoltPairingError {
    open spec fn obeys_from_spec() -> bool {
        true
    }

    open spec fn from_spec(v: u8) -> BoltPairingError {
        spec_bolt_pairing_error(v)
    }
}

/// The text shown for a Bolt pairing error.
pub open spec fn spec_bolt_pairing_error_label(e: BoltPairingError) -> Seq<char> {
    match e {
        BoltPairingError::DeviceTimeout => "device timeout"@,
        BoltPairingError::Failed => "failed"@,
        BoltPairingError::Unknown(_) => "unknown error"@,
    }
}

impl BoltPairingError {
    pub fn label(self) -> (r: &'static str)
        ensures
            r@ == spec_bolt_pairing_error_label(self),
    {
        match self {
            BoltPairingError::DeviceTimeout => "device timeout",
            BoltPairingError::Failed => "failed",
            BoltPairingError::Unknown(_) => "unknown error",
        }
    }
}

/// Known HID++ 1.0 registers. Devices support only a subset of them.
#[derive(Debug, Clone, Copy, PartialEq, Eq, Structural, Hash)]
pub enum Register {
    // Generally applicable
    Notifications,
    Firmware,
    // Receiver only
    ReceiverConnection,
    ReceiverPairing,
    DevicesActivity,
    ReceiverInfo,
    BoltDeviceDiscovery,
    BoltPairing,
    BoltUniqueId,
    // Device only
    MouseButtonFlags,
    DevicesConfiguration,
    BatteryStatus,
    KeyboardFnSwap,
    BatteryCharge,
    KeyboardIllumination,
    ThreeLeds,
    MouseDpi,
    // Notification registers
    PasskeyRequestNotification,
    PasskeyPressedNotification,
    DeviceDiscoveryNotification,
    DiscoveryStatusNotification,
    PairingStatusNotification,
}

/// The register number of a register.
pub open spec fn spec_register_number(r: Register) -> u16 {
    match r {
        Register::Notifications => 0x00,
        Register::Firmware => 0xF1,
        Register::ReceiverConnection => 0x02,
        Register::ReceiverPairing => 0xB2,
        Register::DevicesActivity => 0x2B3,
        Register::ReceiverInfo => 0x2B5,
        Register::BoltDeviceDiscovery => 0xC0,
        Register::BoltPairing => 0x2C1,
        Register::BoltUniqueId => 0x02FB,
        Register::MouseButtonFlags => 0x01,
        Register::DevicesConfiguration => 0x03,
        Register::BatteryStatus => 0x07,
        Register::KeyboardFnSwap => 0x09,
        Register::BatteryCharge => 0x0D,
        Register::KeyboardIllumination => 0x17,
        Register::ThreeLeds => 0x51,
        Register::MouseDpi => 0x63,
        Register::PasskeyRequestNotification => 0x4D,
        Register::PasskeyPressedNotification => 0x4E,
        Register::DeviceDiscoveryNotification => 0x4F,
        Register::DiscoveryStatusNotification => 0x53,
        Register::PairingStatusNotification => 0x54,
    }
}

impl Register {
    /// The raw 16-bit register number.
    pub fn as_u16(self) -> (r: u16)
        ensures
            r == spec_register_number(self),
    {
        match self {
            Register::Notifications => 0x00,
            Register::Firmware => 0xF1,
            Register::ReceiverConnection => 0x02,
            Register::ReceiverPairing => 0xB2,
            Register::DevicesActivity => 0x2B3,
            Register::ReceiverInfo => 0x2B5,
            Register::BoltDeviceDiscovery => 0xC0,
            Register::BoltPairing => 0x2C1,
            Register::BoltUniqueId => 0x02FB,
            Register::MouseButtonFlags => 0x01,
            Register::DevicesConfiguration => 0x03,
            Register::BatteryStatus => 0x07,
            Register::KeyboardFnSwap => 0x09,
            Register::BatteryCharge => 0x0D,
            Register::KeyboardIllumination => 0x17,
            Register::ThreeLeds => 0x51,
            Register::MouseDpi => 0x63,
            Register::PasskeyRequestNotification => 0x4D,
            Register::PasskeyPressedNotification => 0x4E,
            Register::DeviceDiscoveryNotification => 0x4F,
            Register::DiscoveryStatusNotification => 0x53,
            Register::PairingStatusNotification => 0x54,
        }
    }
}

/// Distinct registers have distinct register numbers.
pub proof fn lemma_register_numbers_distinct(a: Register, b: Register)
    requires
        a != b,
    ensures
        spec_register_number(a) != spec_register_number(b),
{
}

/// Sub-ID of the lock-information notification a receiver emits when its
/// pairing window opens or closes. The first data byte is the new state:
/// 0x01 opened, 0x02 / 0x03 pairing in progress, 0x00 closed.
pub const SUB_ID_LOCK_INFORMATION: u8 = 0x4A;

/// Sub-register offsets of the RECEIVER_INFO register (0x2B5).
#[derive(Debug, Clone, Copy, PartialEq, Eq, Structural)]
pub enum InfoSubRegister {
    SerialNumber,
    FwVersion,
    ReceiverInformation,
    /// 0x2N, per connected device.
    PairingInformation,
    /// 0x3N, per connected device.
    ExtendedPairingInformation,
    /// 0x4N, per connected device.
    DeviceName,
    /// 0x5N, per connected device (Bolt only).
    BoltPairingInformation,
    /// 0x6N01, per connected device (Bolt only).
    BoltDeviceName,
}

/// The sub-register byte of a sub-register.
pub open spec fn spec_info_sub_register(s: InfoSubRegister) -> u8 {
    match s {
        InfoSubRegister::SerialNumber => 0x01,
        InfoSubRegister::FwVersion => 0x02,
        InfoSubRegister::ReceiverInformation => 0x03,
        InfoSubRegister::PairingInformation => 0x20,
        InfoSubRegister::ExtendedPairingInformation => 0x30,
        InfoSubRegister::DeviceName => 0x40,
        InfoSubRegister::BoltPairingInformation => 0x50,
        InfoSubRegister::BoltDeviceName => 0x60,
    }
}

impl InfoSubRegister {
    /// The sub-register byte.
    pub fn as_u8(self) -> (r: u8)
        ensures
            r == spec_info_sub_register(self),
    {
        match self {
            InfoSubRegister::SerialNumber => 0x01,
            InfoSubRegister::FwVersion => 0x02,
            InfoSubRegister::ReceiverInformation => 0x03,
            InfoSubRegister::PairingInformation => 0x20,
            InfoSubRegister::ExtendedPairingInformation => 0x30,
            InfoSubRegister::DeviceName => 0x40,
            InfoSubRegister::BoltPairingInformation => 0x50,
            InfoSubRegister::BoltDeviceName => 0x60,
        }
    }
}

} // verus!
