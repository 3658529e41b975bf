use logitech_hidpp::hidpp10_constants::{
    BoltPairingError, DeviceKind, ErrorCode, NotificationFlag, PairingError, Register,
};

#[test]
fn device_kind_from_known_bytes() {
    assert_eq!(DeviceKind::from(0x01), DeviceKind::Keyboard);
    assert_eq!(DeviceKind::from(0x02), DeviceKind::Mouse);
    assert_eq!(DeviceKind::from(0x03), DeviceKind::Numpad);
    assert_eq!(DeviceKind::from(0x04), DeviceKind::Presenter);
    assert_eq!(DeviceKind::from(0x08), DeviceKind::Trackball);
    assert_eq!(DeviceKind::from(0x09), DeviceKind::Touchpad);
    assert_eq!(DeviceKind::from(0x0D), DeviceKind::Headset);
    assert_eq!(DeviceKind::from(0x0F), DeviceKind::Receiver);
}

#[test]
fn device_kind_from_unknown_byte() {
    assert_eq!(DeviceKind::from(0x00), DeviceKind::Unknown);
    assert_eq!(DeviceKind::from(0xFF), DeviceKind::Unknown);
}

#[test]
fn register_as_u16() {
    assert_eq!(Register::Notifications.as_u16(), 0x00);
    assert_eq!(Register::Firmware.as_u16(), 0xF1);
    assert_eq!(Register::ReceiverInfo.as_u16(), 0x2B5);
    assert_eq!(Register::MouseButtonFlags.as_u16(), 0x01);
    assert_eq!(Register::BatteryStatus.as_u16(), 0x07);
}

#[test]
fn notification_flag_bitwise_combine() {
    let combined = NotificationFlag::battery_status() | NotificationFlag::wireless();
    assert!(combined.contains(NotificationFlag::battery_status()));
    assert!(combined.contains(NotificationFlag::wireless()));
    assert!(!combined.contains(NotificationFlag::power_keys()));
}

#[test]
fn notification_flag_empty() {
    let empty = NotificationFlag::empty();
    assert!(!empty.contains(NotificationFlag::battery_status()));
}

#[test]
fn error_code_from_u8() {
    assert_eq!(ErrorCode::from(0x01), ErrorCode::InvalidSubIdCommand);
    assert_eq!(ErrorCode::from(0x02), ErrorCode::InvalidAddress);
    assert_eq!(ErrorCode::from(0x05), ErrorCode::TooManyDevices);
    assert_eq!(ErrorCode::from(0xFF), ErrorCode::Unknown(0xFF));
}

#[test]
fn pairing_error_device_not_supported_label() {
    assert_eq!(PairingError::DeviceNotSupported.label(), "device not supported");
}

#[test]
fn pairing_error_device_timeout_label() {
    assert_eq!(PairingError::DeviceTimeout.label(), "device timeout");
}

#[test]
fn pairing_error_too_many_devices_label() {
    assert_eq!(PairingError::TooManyDevices.label(), "too many devices");
}

#[test]
fn pairing_error_sequence_timeout_label() {
    assert_eq!(PairingError::SequenceTimeout.label(), "sequence timeout");
}

#[test]
fn pairing_error_from_u8() {
    assert_eq!(PairingError::from(0x01), PairingError::DeviceTimeout);
    assert_eq!(PairingError::from(0x02), PairingError::DeviceNotSupported);
    assert_eq!(PairingError::from(0x03), PairingError::TooManyDevices);
    assert_eq!(PairingError::from(0x06), PairingError::SequenceTimeout);
    assert_eq!(PairingError::from(0xFF), PairingError::Unknown(0xFF));
}

#[test]
fn bolt_pairing_error_labels() {
    assert_eq!(BoltPairingError::DeviceTimeout.label(), "device timeout");
    assert_eq!(BoltPairingError::Failed.label(), "failed");
    assert_eq!(BoltPairingError::from(0x01), BoltPairingError::DeviceTimeout);
    assert_eq!(BoltPairingError::from(0x02), BoltPairingError::Failed);
    assert_eq!(BoltPairingError::from(0xFF), BoltPairingError::Unknown(0xFF));
}

#[test]
fn notification_flag_known_values() {
    assert_eq!(NotificationFlag::multi_touch().bits(), 0x001000);
    assert_eq!(NotificationFlag::mouse_extra_buttons().bits(), 0x080000);
    assert_eq!(NotificationFlag::battery_status().bits(), 0x100000);
    assert_eq!(NotificationFlag::wireless().bits(), 0x000100);
    assert_eq!(NotificationFlag::link_quality().bits(), 0x000400);
}

#[test]
fn notification_flag_combined_battery_wireless() {
    let combined = NotificationFlag::battery_status() | NotificationFlag::wireless();
    assert_eq!(combined.bits(), 0x100100);
}
