//! Types shared by the HID++ 1.0 and 2.0 protocol layers: bus and firmware
//! kinds, battery state and the well-known notification codes.

use vstd::prelude::*;

verus! {

/// Logitech USB vendor ID.
pub const LOGITECH_VENDOR_ID: u16 = 0x046D;

/// USB bus types as reported by the kernel.
#[derive(Debug, Clone, Copy, PartialEq, Eq, Structural)]
pub enum BusId {
    Usb,
    Bluetooth,
    Unknown(u8),
}

/// The bus a raw bus byte denotes.
pub open spec fn spec_bus_id(v: u8) -> BusId {
    if v == 0x03 {
        BusId::Usb
    } else if v == 0x05 {
        BusId::Bluetooth
    } else {
        BusId::Unknown(v)
    }
}

impl From<u8> for BusId {
    fn from(v: u8) -> (r: Self) {
        match v {
            0x03 => BusId::Usb,
            0x05 => BusId::Bluetooth,
            other => BusId::Unknown(other),
        }
    }
}

impl vstd::std_specs::convert::FromSpecImpl<u8> for BusId {
    open spec fn obeys_from_spec() -> bool {
        true
    }

    open spec fn from_spec(v: u8) -> BusId {
        spec_bus_id(v)
    }
}

/// Kind of a firmware component.
#[derive(Debug, Clone, Copy, PartialEq, Eq, Structural)]
pub enum FirmwareKind {
    Firmware,
    Bootloader,
    Hardware,
    Other,
}

/// The firmware kind a raw kind byte denotes.
pub open spec fn spec_firmware_kind(v: u8) -> FirmwareKind {
    if v == 0x00 {
        FirmwareKind::Firmware
    } else if v == 0x01 {
        FirmwareKind::Bootloader
    } else if v == 0x02 {
        FirmwareKind::Hardware
    } else {
        FirmwareKind::Other
    }
}

impl From<u8> for FirmwareKind {
    fn from(v: u8) -> (r: Self) {
        match v {
            0x00 => FirmwareKind::Firmware,
            0x01 => FirmwareKind::Bootloader,
            0x02 => FirmwareKind::Hardware,
            _ => FirmwareKind::Other,
        }
    }
}

impl vstd::std_specs::convert::FromSpecImpl<u8> for FirmwareKind {
    open spec fn obeys_from_spec() -> bool {
        true
    }

    open spec fn from_spec(v: u8) -> FirmwareKind {
        spec_firmware_kind(v)
    }
}

/// Firmware information returned by a device.
#[derive(Debug, Clone)]
pub struct FirmwareInfo {
    pub kind: FirmwareKind,
    pub name: String,
    pub version: String,
    pub extras: Option<Vec<u8>>,
}

/// Approximate battery levels used when only a qualitative level is known
/// (HID++ 1.0 devices).
#[derive(Debug, Clone, Copy, PartialEq, Eq, Structural)]
pub enum BatteryLevelApproximation {
    Empty,
    Critical,
    Low,
    Good,
    Full,
}

/// The percentage that stands for a qualitative level.
pub open spec fn spec_approx_level(a: BatteryLevelApproximation) -> u8 {
    match a {
        BatteryLevelApproximation::Empty => 0,
        BatteryLevelApproximation::Critical => 5,
        BatteryLevelApproximation::Low => 20,
        BatteryLevelApproximation::Good => 50,
        BatteryLevelApproximation::Full => 90,
    }
}

impl BatteryLevelApproximation {
    /// The percentage that stands for this qualitative level.
    pub fn value(self) -> (r: u8)
        ensures
            r == spec_approx_level(self),
    {
        match self {
            BatteryLevelApproximation::Empty => 0,
            BatteryLevelApproximation::Critical => 5,
            BatteryLevelApproximation::Low => 20,
            BatteryLevelApproximation::Good => 50,
            BatteryLevelApproximation::Full => 90,
        }
    }
}

/// Battery charging / discharging status.
#[derive(Debug, Clone, Copy, PartialEq, Eq, Structural)]
pub enum BatteryStatus {
    Discharging,
    Recharging,
    AlmostFull,
    Full,
    SlowRecharge,
    InvalidBattery,
    ThermalError,
}

/// Whether a status is one of the charging states.
pub open spec fn spec_is_charging(s: BatteryStatus) -> bool {
    s is Recharging || s is AlmostFull || s is Full || s is SlowRecharge
}

impl BatteryStatus {
    pub fn is_charging(self) -> (r: bool)
        ensures
            r == spec_is_charging(self),
    {
        match self {
            BatteryStatus::Recharging
            | BatteryStatus::AlmostFull
            | BatteryStatus::Full
            | BatteryStatus::SlowRecharge => true,
            _ => false,
        }
    }
}

/// Battery state reported by a device.
#[derive(Debug, Clone, Copy, PartialEq, Eq, Structural)]
pub struct Battery {
    /// Battery level: a percentage, or the value of a
    /// [`BatteryLevelApproximation`] for HID++ 1.0 devices.
    pub level: Option<u8>,
    /// Predicted next charge level, if reported.
    pub next_level: Option<u8>,
    pub status: Option<BatteryStatus>,
    /// Battery voltage in mV, if reported.
    pub voltage: Option<u16>,
    /// Ambient light level for solar-charged devices.
    pub light_level: Option<u16>,
}

/// The level a status implies when no level is reported.
pub open spec fn spec_inferred_level(status: Option<BatteryStatus>) -> Option<u8> {
    match status {
        Some(BatteryStatus::Full) => Some(90u8),
        Some(BatteryStatus::AlmostFull) => Some(50u8),
        Some(BatteryStatus::Recharging) => Some(50u8),
        Some(BatteryStatus::SlowRecharge) => Some(20u8),
        _ => None,
    }
}

/// The battery that `Battery::new` builds from its arguments.
pub open spec fn spec_battery(
    level: Option<u8>,
    next_level: Option<u8>,
    status: Option<BatteryStatus>,
    voltage: Option<u16>,
) -> Battery {
    Battery {
        level: if level is Some {
            level
        } else {
            spec_inferred_level(status)
        },
        next_level,
        status,
        voltage,
        light_level: None,
    }
}

/// Level at or below which the battery needs attention.
pub const ATTENTION_LEVEL: u8 = 5;

/// Whether a battery is in a good state: no battery error and a level above
/// the attention threshold (or no level at all).
pub open spec fn spec_battery_ok(b: Battery) -> bool {
    !(b.status == Some(BatteryStatus::InvalidBattery) || b.status == Some(
        BatteryStatus::ThermalError,
    )) && match b.level {
        Some(l) => l > ATTENTION_LEVEL,
        None => true,
    }
}

/// Whether a battery reports a charging status.
pub open spec fn spec_battery_charging(b: Battery) -> bool {
    match b.status {
        Some(s) => spec_is_charging(s),
        None => false,
    }
}

impl Battery {
    /// Build a battery state; when no level is given it is inferred from the
    /// status.
    pub fn new(
        level: Option<u8>,
        next_level: Option<u8>,
        status: Option<BatteryStatus>,
        voltage: Option<u16>,
    ) -> (r: Self)
        ensures
            r == spec_battery(level, next_level, status, voltage),
    {
        let inferred: Option<u8> = match level {
            Some(l) => Some(l),
            None => match status {
                Some(BatteryStatus::Full) => Some(BatteryLevelApproximation::Full.value()),
                Some(BatteryStatus::AlmostFull) | Some(BatteryStatus::Recharging) => Some(
                    BatteryLevelApproximation::Good.value(),
                ),
                Some(BatteryStatus::SlowRecharge) => Some(BatteryLevelApproximation::Low.value()),
                _ => None,
            },
        };
        Battery { level: inferred, next_level, status, voltage, light_level: None }
    }

    pub fn ok(&self) -> (r: bool)
        ensures
            r == spec_battery_ok(*self),
    {
        let bad_status: bool = match self.status {
            Some(BatteryStatus::InvalidBattery) | Some(BatteryStatus::ThermalError) => true,
            _ => false,
        };
        let level_ok: bool = match self.level {
            Some(l) => l > ATTENTION_LEVEL,
            None => true,
        };
        !bad_status && level_ok
    }

    pub fn charging(&self) -> (r: bool)
        ensures
            r == spec_battery_charging(*self),
    {
        match self.status {
            Some(s) => s.is_charging(),
            None => false,
        }
    }
}

impl Default for Battery {
    fn default() -> (r: Self)
        ensures
            r == spec_battery(None, None, None, None),
    {
        Battery::new(None, None, None, None)
    }
}

/// Well-known notification sub-ID values.
#[derive(Debug, Clone, Copy, PartialEq, Eq, Structural)]
pub enum Notification {
    NoOperation,
    ConnectDisconnect,
    DjPairing,
    Connected,
    RawInput,
    PairingLock,
    Power,
}

/// The sub-ID byte of a well-known notification.
pub open spec fn spec_notification_sub_id(n: Notification) -> u8 {
    match n {
        Notification::NoOperation => 0x00,
        Notification::ConnectDisconnect => 0x40,
        Notification::DjPairing => 0x41,
        Notification::Connected => 0x42,
        Notification::RawInput => 0x49,
        Notification::PairingLock => 0x4A,
        Notification::Power => 0x4B,
    }
}

impl Notification {
    /// The sub-ID byte of this notification.
    pub fn sub_id(self) -> (r: u8)
        ensures
            r == spec_notification_sub_id(self),
    {
        match self {
            Notification::NoOperation => 0x00,
            Notification::ConnectDisconnect => 0x40,
            Notification::DjPairing => 0x41,
            Notification::Connected => 0x42,
            Notification::RawInput => 0x49,
            Notification::PairingLock => 0x4A,
            Notification::Power => 0x4B,
        }
    }
}

/// A status that `Battery::new` is given always determines the level when
/// none is given, and a given level is never replaced.
pub proof fn lemma_battery_level_kept(
    level: u8,
    next_level: Option<u8>,
    status: Option<BatteryStatus>,
    voltage: Option<u16>,
)
    ensures
        spec_battery(Some(level), next_level, status, voltage).level == Some(level),
{
}

/// A charging battery is never in an error state: `charging` implies the
/// status part of `ok`.
pub proof fn lemma_charging_has_no_error_status(b: Battery)
    requires
        spec_battery_charging(b),
    ensures
        !(b.status == Some(BatteryStatus::InvalidBattery) || b.status == Some(
            BatteryStatus::ThermalError,
        )),
{
}

} // verus!
