use logitech_hidpp::common::{Battery, BatteryLevelApproximation, BatteryStatus, BusId, FirmwareKind};

#[test]
fn battery_status_charging_variants() {
    assert!(BatteryStatus::Recharging.is_charging());
    assert!(BatteryStatus::AlmostFull.is_charging());
    assert!(BatteryStatus::Full.is_charging());
    assert!(BatteryStatus::SlowRecharge.is_charging());
}

#[test]
fn battery_status_not_charging_variants() {
    assert!(!BatteryStatus::Discharging.is_charging());
    assert!(!BatteryStatus::InvalidBattery.is_charging());
    assert!(!BatteryStatus::ThermalError.is_charging());
}

#[test]
fn battery_new_infers_level_from_full_status() {
    let b = Battery::new(None, None, Some(BatteryStatus::Full), None);
    assert_eq!(b.level, Some(BatteryLevelApproximation::Full.value()));
}

#[test]
fn battery_new_infers_level_from_almost_full() {
    let b = Battery::new(None, None, Some(BatteryStatus::AlmostFull), None);
    assert_eq!(b.level, Some(BatteryLevelApproximation::Good.value()));
}

#[test]
fn battery_new_infers_level_from_recharging() {
    let b = Battery::new(None, None, Some(BatteryStatus::Recharging), None);
    assert_eq!(b.level, Some(BatteryLevelApproximation::Good.value()));
}

#[test]
fn battery_new_infers_level_from_slow_recharge() {
    let b = Battery::new(None, None, Some(BatteryStatus::SlowRecharge), None);
    assert_eq!(b.level, Some(BatteryLevelApproximation::Low.value()));
}

#[test]
fn battery_new_keeps_explicit_level() {
    let b = Battery::new(Some(75), None, Some(BatteryStatus::Discharging), None);
    assert_eq!(b.level, Some(75));
}

#[test]
fn battery_new_no_level_no_status() {
    let b = Battery::new(None, None, None, None);
    assert_eq!(b.level, None);
}

#[test]
fn battery_ok_normal() {
    let b = Battery::new(Some(80), None, Some(BatteryStatus::Discharging), None);
    assert!(b.ok());
}

#[test]
fn battery_ok_returns_false_for_invalid_battery() {
    let b = Battery::new(Some(80), None, Some(BatteryStatus::InvalidBattery), None);
    assert!(!b.ok());
}

#[test]
fn battery_ok_returns_false_for_thermal_error() {
    let b = Battery::new(Some(80), None, Some(BatteryStatus::ThermalError), None);
    assert!(!b.ok());
}

#[test]
fn battery_ok_returns_false_when_level_at_attention_threshold() {
    let b = Battery::new(Some(5), None, Some(BatteryStatus::Discharging), None);
    assert!(!b.ok());
}

#[test]
fn battery_ok_returns_true_just_above_threshold() {
    let b = Battery::new(Some(6), None, Some(BatteryStatus::Discharging), None);
    assert!(b.ok());
}

#[test]
fn battery_charging() {
    let b = Battery::new(Some(60), None, Some(BatteryStatus::Recharging), None);
    assert!(b.charging());
}

#[test]
fn battery_not_charging_when_discharging() {
    let b = Battery::new(Some(60), None, Some(BatteryStatus::Discharging), None);
    assert!(!b.charging());
}

#[test]
fn bus_id_from_u8() {
    assert_eq!(BusId::from(0x03), BusId::Usb);
    assert_eq!(BusId::from(0x05), BusId::Bluetooth);
    assert_eq!(BusId::from(0x42), BusId::Unknown(0x42));
}

#[test]
fn firmware_kind_from_u8() {
    assert_eq!(FirmwareKind::from(0x00), FirmwareKind::Firmware);
    assert_eq!(FirmwareKind::from(0x01), FirmwareKind::Bootloader);
    assert_eq!(FirmwareKind::from(0x02), FirmwareKind::Hardware);
    assert_eq!(FirmwareKind::from(0xFF), FirmwareKind::Other);
}
