use logitech_hidpp::hidpp20_constants::{DeviceKind, ErrorCode, FeatureFlag, SupportedFeature};

#[test]
fn feature_flag_bit_values() {
    assert_eq!(FeatureFlag::internal().bits(), 0x20);
    assert_eq!(FeatureFlag::hidden().bits(), 0x40);
    assert_eq!(FeatureFlag::obsolete().bits(), 0x80);
}

#[test]
fn feature_flag_from_bits_internal() {
    let f = FeatureFlag::from_bits_truncate(0x20);
    assert!(f.contains(FeatureFlag::internal()));
    assert!(!f.contains(FeatureFlag::hidden()));
    assert!(!f.contains(FeatureFlag::obsolete()));
}

#[test]
fn feature_flag_from_bits_hidden() {
    let f = FeatureFlag::from_bits_truncate(0x40);
    assert!(!f.contains(FeatureFlag::internal()));
    assert!(f.contains(FeatureFlag::hidden()));
}

#[test]
fn feature_flag_from_bits_obsolete() {
    let f = FeatureFlag::from_bits_truncate(0x80);
    assert!(f.contains(FeatureFlag::obsolete()));
}

#[test]
fn feature_flag_from_bits_all_known() {
    let f = FeatureFlag::from_bits_truncate(0xE0);
    assert!(f.contains(FeatureFlag::internal()));
    assert!(f.contains(FeatureFlag::hidden()));
    assert!(f.contains(FeatureFlag::obsolete()));
}

#[test]
fn feature_flag_unknown_bits_truncated() {
    let f = FeatureFlag::from_bits_truncate(0x01);
    assert_eq!(f, FeatureFlag::empty());
}

#[test]
fn feature_flag_empty_no_flags() {
    assert_eq!(FeatureFlag::empty().bits(), 0x00);
}

#[test]
fn device_kind_hidpp20_from_u8() {
    assert_eq!(DeviceKind::from(0x00), DeviceKind::Keyboard);
    assert_eq!(DeviceKind::from(0x03), DeviceKind::Mouse);
    assert_eq!(DeviceKind::from(0x04), DeviceKind::Touchpad);
    assert_eq!(DeviceKind::from(0x07), DeviceKind::Receiver);
}

#[test]
fn supported_feature_known_ids() {
    assert_eq!(SupportedFeature::Root.as_u16(), 0x0000);
    assert_eq!(SupportedFeature::FeatureSet.as_u16(), 0x0001);
    assert_eq!(SupportedFeature::DeviceFwVersion.as_u16(), 0x0003);
    assert_eq!(SupportedFeature::BatteryStatus.as_u16(), 0x1000);
    assert_eq!(SupportedFeature::BatteryVoltage.as_u16(), 0x1001);
    assert_eq!(SupportedFeature::UnifiedBattery.as_u16(), 0x1004);
    assert_eq!(SupportedFeature::OnboardProfiles.as_u16(), 0x8100);
}

#[test]
fn supported_feature_from_u16_roundtrip() {
    assert_eq!(SupportedFeature::from_u16(0x1000), Some(SupportedFeature::BatteryStatus));
    assert_eq!(SupportedFeature::from_u16(0x1001), Some(SupportedFeature::BatteryVoltage));
    assert_eq!(SupportedFeature::from_u16(0x0000), Some(SupportedFeature::Root));
    assert_eq!(SupportedFeature::from_u16(0xFFFF), None);
}

#[test]
fn hidpp20_error_code_from_u8() {
    assert_eq!(ErrorCode::from(0x01), ErrorCode::Unknown);
    assert_eq!(ErrorCode::from(0x02), ErrorCode::InvalidArgument);
    assert_eq!(ErrorCode::from(0x09), ErrorCode::Unsupported);
    assert_eq!(ErrorCode::from(0xFF), ErrorCode::UnknownCode(0xFF));
}
