use logitech_hidpp::common::BatteryStatus;
use logitech_hidpp::hidpp20_constants::{FeatureFlag, SupportedFeature};
use logitech_hidpp::hidpp20::{
    decipher_battery_status, decipher_battery_unified, decipher_battery_voltage, FeatureEntry, FeaturesArray,
};

#[test]
fn decipher_battery_status_discharging() {
    let report = [0x50u8, 0x20, 0x00, 0xFF, 0xFF];
    let b = decipher_battery_status(&report).expect("should parse");
    assert_eq!(b.level, Some(80));
    assert_eq!(b.next_level, Some(32));
    assert_eq!(b.status, Some(BatteryStatus::Discharging));
}

#[test]
fn decipher_battery_status_recharging() {
    let report = [0x60u8, 0x00, 0x01, 0xFF, 0xFF];
    let b = decipher_battery_status(&report).expect("should parse");
    assert_eq!(b.level, Some(96));
    assert_eq!(b.status, Some(BatteryStatus::Recharging));
}

#[test]
fn decipher_battery_status_full() {
    let report = [0x64u8, 0x00, 0x03, 0xFF, 0xFF];
    let b = decipher_battery_status(&report).expect("should parse");
    assert_eq!(b.level, Some(100));
    assert_eq!(b.status, Some(BatteryStatus::Full));
}

#[test]
fn decipher_battery_status_almost_full() {
    let report = [0x5Au8, 0x00, 0x02, 0xFF, 0xFF];
    let b = decipher_battery_status(&report).expect("should parse");
    assert_eq!(b.status, Some(BatteryStatus::AlmostFull));
}

#[test]
fn decipher_battery_status_too_short() {
    assert!(decipher_battery_status(&[0x50, 0x20]).is_none());
}

#[test]
fn decipher_battery_unified_discharging() {
    let report = [0x50u8, 0x01, 0x00, 0xFF, 0xFF];
    let b = decipher_battery_unified(&report).expect("should parse");
    assert_eq!(b.level, Some(80));
    assert_eq!(b.status, Some(BatteryStatus::Discharging));
}

#[test]
fn decipher_battery_unified_recharging() {
    let report = [0x64u8, 0x00, 0x01, 0x00, 0xFF];
    let b = decipher_battery_unified(&report).expect("should parse");
    assert_eq!(b.level, Some(100));
    assert_eq!(b.status, Some(BatteryStatus::Recharging));
}

#[test]
fn decipher_battery_unified_too_short() {
    assert!(decipher_battery_unified(&[0x50, 0x01, 0x00]).is_none());
}

#[test]
fn decipher_battery_voltage_recharging() {
    let report = [0x10u8, 0x00, 0xFF, 0xFF, 0xFF];
    let b = decipher_battery_voltage(&report).expect("should parse");
    assert_eq!(b.voltage, Some(0x1000));
    assert_eq!(b.status, Some(BatteryStatus::Recharging));
    assert_eq!(b.level, Some(85));
}

#[test]
fn decipher_battery_voltage_discharging() {
    let report = [0x0Eu8, 0x74, 0x00, 0xFF, 0xFF];
    let b = decipher_battery_voltage(&report).expect("should parse");
    assert_eq!(b.voltage, Some(3700));
    assert_eq!(b.status, Some(BatteryStatus::Discharging));
    assert_eq!(b.level, Some(28));
}

#[test]
fn decipher_battery_voltage_max() {
    let report = [0x10u8, 0x68, 0x00, 0xFF, 0xFF];
    let b = decipher_battery_voltage(&report).expect("should parse");
    assert_eq!(b.level, Some(100));
}

#[test]
fn decipher_battery_voltage_min() {
    let report = [0x0Du8, 0xAC, 0x00, 0xFF, 0xFF];
    let b = decipher_battery_voltage(&report).expect("should parse");
    assert_eq!(b.level, Some(0));
}

#[test]
fn decipher_battery_voltage_too_short() {
    assert!(decipher_battery_voltage(&[0x10, 0x00]).is_none());
}

#[test]
fn features_array_init_no_reply_returns_false() {
    let mut fa = FeaturesArray::new();
    let result = fa.init(|_req, _params| None);
    assert!(!result);
    assert!(!fa.is_initialised());
}

#[test]
fn features_array_init_zero_feature_set_index_returns_false() {
    let mut fa = FeaturesArray::new();
    let result = fa.init(|req, _params| {
        if req == 0x0000 {
            Some(vec![0x00, 0x00, 0x00, 0x00])
        } else {
            None
        }
    });
    assert!(!result);
}

#[test]
fn features_array_init_success() {
    let mut fa = FeaturesArray::new();
    let result = fa.init(|req, _params| match req {
        0x0000 => Some(vec![0x01, 0x00, 0x00, 0x00]),
        0x0100 => Some(vec![0x07, 0x00, 0x00, 0x00]),
        _ => None,
    });
    assert!(result);
    assert!(fa.is_initialised());
    assert_eq!(fa.count, 8);
}

#[test]
fn features_array_init_idempotent() {
    let mut fa = FeaturesArray::new();
    let mut call_count = 0usize;
    fa.init(|req, _params| {
        call_count += 1;
        match req {
            0x0000 => Some(vec![0x01, 0x00, 0x00, 0x00]),
            0x0100 => Some(vec![0x02, 0x00, 0x00, 0x00]),
            _ => None,
        }
    });
    let first_calls = call_count;
    let result2 = fa.init(|_req, _params| {
        call_count += 1;
        None
    });
    assert!(result2);
    assert_eq!(
        call_count, first_calls,
        "init should not make requests when already initialised"
    );
}

#[test]
fn features_array_not_initialised_when_rejected() {
    let mut fa = FeaturesArray::new();
    fa.init(|_req, _params| None);
    let mut called = false;
    let result = fa.init(|_req, _params| {
        called = true;
        Some(vec![0x01, 0x00, 0x00, 0x00])
    });
    assert!(!result);
    assert!(!called, "should not call request_fn when already known unsupported");
}

fn initialised_table() -> FeaturesArray {
    let mut fa = FeaturesArray::new();
    assert!(fa.init(|req, _params| match req {
        0x0000 => Some(vec![0x01, 0x00, 0x00]),
        0x0100 => Some(vec![0x05]),
        _ => None,
    }));
    fa
}

#[test]
fn features_array_index_lookup_is_cached() {
    let mut fa = initialised_table();
    let mut asked: Vec<(u16, Vec<u8>)> = vec![];
    let i = fa.get_index(SupportedFeature::BatteryStatus, |req, params| {
        asked.push((req, params.to_vec()));
        Some(vec![0x04, 0x20, 0x03])
    });
    assert_eq!(i, Some(4));
    assert_eq!(asked, vec![(0x0000, vec![0x10, 0x00])]);
    assert_eq!(
        fa.get_entry(SupportedFeature::BatteryStatus).copied(),
        Some(FeatureEntry { index: 4, version: 3, flags: FeatureFlag::from_bits_truncate(0x20) })
    );
    let again = fa.get_index(SupportedFeature::BatteryStatus, |_req, _params| panic!("asked again"));
    assert_eq!(again, Some(4));
    assert_eq!(fa.get_feature(4, |_req, _params| panic!("asked again")), Some(SupportedFeature::BatteryStatus));
}

#[test]
fn features_array_missing_feature_is_cached() {
    let mut fa = initialised_table();
    assert_eq!(fa.get_index(SupportedFeature::BatteryStatus, |_req, _params| Some(vec![0x00, 0x00, 0x00])), None);
    assert_eq!(fa.get_index(SupportedFeature::BatteryStatus, |_req, _params| panic!("asked again")), None);
    assert!(fa.get_entry(SupportedFeature::BatteryStatus).is_none());
}

#[test]
fn features_array_taken_index_is_recorded_as_given() {
    let mut fa = initialised_table();
    assert_eq!(fa.get_index(SupportedFeature::BatteryStatus, |_req, _params| Some(vec![0x01, 0x00, 0x00])), Some(1));
    assert_eq!(fa.get_feature(1, |_req, _params| panic!("asked again")), Some(SupportedFeature::BatteryStatus));
    assert_eq!(fa.get_index(SupportedFeature::FeatureSet, |_req, _params| panic!("asked again")), Some(1));
}

#[test]
fn features_array_known_feature_at_a_new_index_is_recorded() {
    let mut fa = initialised_table();
    assert_eq!(fa.get_index(SupportedFeature::BatteryStatus, |_req, _params| Some(vec![0x04, 0x00, 0x00])), Some(4));
    let f = fa.get_feature(6, |_req, _params| Some(vec![0x10, 0x00, 0x00, 0x02]));
    assert_eq!(f, Some(SupportedFeature::BatteryStatus));
    assert_eq!(fa.get_index(SupportedFeature::BatteryStatus, |_req, _params| panic!("asked again")), Some(6));
}

#[test]
fn features_array_reverse_lookup_asks_feature_set() {
    let mut fa = initialised_table();
    let mut asked: Vec<(u16, Vec<u8>)> = vec![];
    let f = fa.get_feature(6, |req, params| {
        asked.push((req, params.to_vec()));
        Some(vec![0x10, 0x00, 0x00, 0x02])
    });
    assert_eq!(f, Some(SupportedFeature::BatteryStatus));
    assert_eq!(asked, vec![(0x0110, vec![0x06])]);
    assert_eq!(fa.get_index(SupportedFeature::BatteryStatus, |_req, _params| panic!("asked again")), Some(6));
}

#[test]
fn features_array_unanswered_lookup_is_cached() {
    let mut fa = initialised_table();
    assert_eq!(fa.get_index(SupportedFeature::BatteryStatus, |_req, _params| None), None);
    assert_eq!(fa.get_index(SupportedFeature::BatteryStatus, |_req, _params| panic!("asked again")), None);
    assert_eq!(fa.get_feature(7, |_req, _params| None), None);
    assert_eq!(fa.get_feature(7, |_req, _params| panic!("asked again")), None);
}
