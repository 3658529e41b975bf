use logitech_hidpp::common::{BatteryLevelApproximation, BatteryStatus};
use logitech_hidpp::hidpp10::{
    extract_codename, extract_connection_count, extract_max_devices, extract_polling_rate,
    extract_power_switch_location, extract_remaining_pairings, extract_serial,
    parse_battery_status,
};
use logitech_hidpp::hidpp10_constants::Register;

#[test]
fn parse_battery_charge_discharging() {
    let b = parse_battery_status(Register::BatteryCharge, &[0x55, 0x00, 0x30]);
    let b = b.expect("should parse");
    assert_eq!(b.level, Some(0x55));
    assert_eq!(b.status, Some(BatteryStatus::Discharging));
}

#[test]
fn parse_battery_charge_recharging() {
    let b = parse_battery_status(Register::BatteryCharge, &[0x44, 0x00, 0x50]);
    let b = b.expect("should parse");
    assert_eq!(b.level, Some(0x44));
    assert_eq!(b.status, Some(BatteryStatus::Recharging));
}

#[test]
fn parse_battery_charge_full() {
    let b = parse_battery_status(Register::BatteryCharge, &[0x60, 0x00, 0x90]);
    let b = b.expect("should parse");
    assert_eq!(b.level, Some(0x60));
    assert_eq!(b.status, Some(BatteryStatus::Full));
}

#[test]
fn parse_battery_charge_unknown_status() {
    let b = parse_battery_status(Register::BatteryCharge, &[0x22, 0x00, 0x00]);
    let b = b.expect("should parse");
    assert_eq!(b.level, Some(0x22));
    assert_eq!(b.status, None);
}

#[test]
fn parse_battery_charge_empty_reply() {
    assert!(parse_battery_status(Register::BatteryCharge, &[]).is_none());
}

#[test]
fn parse_battery_status_full() {
    let b = parse_battery_status(Register::BatteryStatus, &[0x07, 0x22, 0x00]);
    let b = b.expect("should parse");
    assert_eq!(b.level, Some(BatteryLevelApproximation::Full.value()));
    assert_eq!(b.status, Some(BatteryStatus::Full));
}

#[test]
fn parse_battery_status_good_recharging() {
    let b = parse_battery_status(Register::BatteryStatus, &[0x05, 0x21, 0x00]);
    let b = b.expect("should parse");
    assert_eq!(b.level, Some(BatteryLevelApproximation::Good.value()));
    assert_eq!(b.status, Some(BatteryStatus::Recharging));
}

#[test]
fn parse_battery_status_low_full() {
    let b = parse_battery_status(Register::BatteryStatus, &[0x03, 0x22, 0x00]);
    let b = b.expect("should parse");
    assert_eq!(b.level, Some(BatteryLevelApproximation::Low.value()));
    assert_eq!(b.status, Some(BatteryStatus::Full));
}

#[test]
fn parse_battery_status_critical_no_status() {
    let b = parse_battery_status(Register::BatteryStatus, &[0x01, 0x01, 0x00]);
    let b = b.expect("should parse");
    assert_eq!(b.level, Some(BatteryLevelApproximation::Critical.value()));
    assert_eq!(b.status, None);
}

#[test]
fn parse_battery_status_empty_discharging() {
    let b = parse_battery_status(Register::BatteryStatus, &[0x00, 0x00, 0x00]);
    let b = b.expect("should parse");
    assert_eq!(b.level, Some(BatteryLevelApproximation::Empty.value()));
    assert_eq!(b.status, Some(BatteryStatus::Discharging));
}

#[test]
fn parse_battery_status_no_level_full() {
    let b = parse_battery_status(Register::BatteryStatus, &[0x00, 0x22, 0x00]);
    let b = b.expect("should parse");
    assert_eq!(b.level, Some(BatteryLevelApproximation::Full.value()));
    assert_eq!(b.status, Some(BatteryStatus::Full));
}

#[test]
fn parse_battery_status_short_reply() {
    assert!(parse_battery_status(Register::BatteryStatus, &[0x07]).is_none());
}

#[test]
fn parse_battery_status_wrong_register() {
    assert!(parse_battery_status(Register::Firmware, &[0x01, 0x02, 0x03]).is_none());
}

#[test]
fn extract_serial_from_bytes() {
    let response = [0x00u8, 0xAB, 0xCD, 0xEF, 0x01, 0x00, 0x06];
    assert_eq!(extract_serial(&response), "ABCDEF01");
}

#[test]
fn extract_max_devices_normal() {
    let response = [0u8; 7];
    let mut r = response;
    r[6] = 6;
    assert_eq!(extract_max_devices(&r), 6);
}

#[test]
fn extract_max_devices_clamped_to_one() {
    let response = [0u8; 7];
    assert_eq!(extract_max_devices(&response), 1);
}

#[test]
fn extract_max_devices_clamped_to_six() {
    let mut r = [0u8; 7];
    r[6] = 10;
    assert_eq!(extract_max_devices(&r), 6);
}

#[test]
fn extract_remaining_pairings_positive() {
    let mut r = [0u8; 5];
    r[2] = 7;
    assert_eq!(extract_remaining_pairings(&r), 2);
}

#[test]
fn extract_remaining_pairings_negative() {
    let mut r = [0u8; 5];
    r[2] = 3;
    assert_eq!(extract_remaining_pairings(&r), -1);
}

#[test]
fn extract_codename_ascii() {
    let response = [0x00u8, 0x03, b'A', b'B', b'C', 0x00];
    let name = extract_codename(&response).expect("should decode");
    assert_eq!(name, "ABC");
}

#[test]
fn extract_polling_rate_from_response() {
    let mut r = [0u8; 5];
    r[2] = 0x08;
    assert_eq!(extract_polling_rate(&r), 8);
}

#[test]
fn extract_power_switch_location_nibble() {
    let mut r = [0u8; 11];
    r[9] = 0x3F;
    assert_eq!(extract_power_switch_location(&r), 0x0F);
}

#[test]
fn extract_connection_count_from_response() {
    let r = [0x00u8, 0x03, 0x00];
    assert_eq!(extract_connection_count(&r), 3);
}
