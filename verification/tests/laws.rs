use logitech_hidpp::daemon::ReceiverIndices;
use logitech_hidpp::hidpp10::{extract_serial, extract_wpid};
use logitech_hidpp::onboard_profiles::{decode_utf16le_null, Button, LedEffect, OnboardProfile};
use logitech_hidpp::settings::{all_settings, decode_value, encode_value, SettingValue, Validator};

fn sample_profile() -> OnboardProfile {
    OnboardProfile {
        sector: 0x0101,
        enabled: 1,
        report_rate: 1,
        resolution_default_index: 2,
        resolution_shift_index: 0,
        resolutions: vec![400, 800, 1600, 3200, 6400],
        red: 0x12,
        green: 0x34,
        blue: 0x56,
        power_mode: 0,
        angle_snap: 1,
        write_count: 7,
        ps_timeout: 0x1234,
        po_timeout: 0x5678,
        buttons: vec![
            Button::Send { mapping_type: 1, modifiers: None, value: 0x0001 },
            Button::Send { mapping_type: 2, modifiers: Some(0x02), value: 0x04 },
            Button::Function { function: 3, data: 1 },
            Button::Macro { sector: 0x0002, address: 0x0010 },
            Button::Disabled,
        ],
        gbuttons: vec![Button::Send { mapping_type: 3, modifiers: None, value: 0x00E9 }],
        name: String::from("Gaming"),
        lighting: vec![
            LedEffect::Static { red: 1, green: 2, blue: 3, ramp: 0 },
            LedEffect::Disabled,
            LedEffect::Cycle { period: 5000, intensity: 100 },
            LedEffect::Breathe { red: 9, green: 8, blue: 7, period: 3000, form: 1, intensity: 50 },
        ],
    }
}

#[test]
fn profile_bytes_read_back_as_the_profile() {
    let p = sample_profile();
    let bytes = p.to_bytes(256);
    assert_eq!(bytes.len(), 256);
    let q = OnboardProfile::from_bytes(p.sector, p.enabled, p.buttons.len(), p.gbuttons.len(), &bytes);
    assert_eq!(q.sector, p.sector);
    assert_eq!(q.enabled, p.enabled);
    assert_eq!(q.report_rate, p.report_rate);
    assert_eq!(q.resolution_default_index, p.resolution_default_index);
    assert_eq!(q.resolutions, p.resolutions);
    assert_eq!((q.red, q.green, q.blue), (p.red, p.green, p.blue));
    assert_eq!(q.angle_snap, p.angle_snap);
    assert_eq!(q.write_count, p.write_count);
    assert_eq!(q.ps_timeout, p.ps_timeout);
    assert_eq!(q.po_timeout, p.po_timeout);
    assert_eq!(q.buttons, p.buttons);
    assert_eq!(q.gbuttons, p.gbuttons);
    assert_eq!(q.name, p.name);
    assert_eq!(q.lighting, p.lighting);
}

#[test]
fn profile_bytes_layout_and_checksum() {
    let p = sample_profile();
    let bytes = p.to_bytes(256);
    // Report rate, resolution indices, then little-endian resolutions.
    assert_eq!(&bytes[0..5], &[1, 2, 0, 0x90, 0x01]);
    // Unused button slots are filled with 0xFF.
    assert_eq!(&bytes[32 + 4 * 5..32 + 4 * 6], &[0xFF, 0xFF, 0xFF, 0xFF]);
    // The name is UTF-16LE.
    assert_eq!(&bytes[160..164], &[b'G', 0, b'a', 0]);
    // The sector ends with the big-endian CRC of what precedes it.
    let crc = logitech_hidpp::onboard_profiles::crc16(&bytes[..254]);
    assert_eq!(bytes[254], (crc >> 8) as u8);
    assert_eq!(bytes[255], (crc & 0xFF) as u8);
}

#[test]
fn unknown_led_effect_is_written_back_unchanged() {
    let raw = [0x42u8, 1, 2, 3, 4, 5, 6, 7, 8, 9, 10];
    let e = LedEffect::from_bytes(&raw);
    assert_eq!(e, LedEffect::Unknown { id: 0x42, raw: String::from("0102030405060708090a") });
    assert_eq!(e.to_bytes(), raw.to_vec());
}

#[test]
fn unknown_button_is_written_back_unchanged() {
    let raw = [0x70u8, 0x11, 0x22, 0x33];
    let b = Button::from_bytes(&raw);
    assert_eq!(b, Button::Unknown { raw: String::from("70112233") });
    assert_eq!(b.to_bytes(), raw.to_vec());
}

#[test]
fn button_bytes_round_trip() {
    for b in sample_profile().buttons {
        assert_eq!(Button::from_bytes(&b.to_bytes()), b);
    }
}

#[test]
fn utf16_name_stops_at_null() {
    let data = [b'M', 0, b'X', 0, 0, 0, b'Z', 0];
    assert_eq!(decode_utf16le_null(&data), "MX");
}

#[test]
fn hex_text_of_ids_and_serials() {
    assert_eq!(extract_wpid(&[0x40, 0x8a]), "408A");
    assert_eq!(extract_serial(&[0x00, 0x0a, 0xbc, 0xde, 0xf0, 0x99]), "0ABCDEF0");
}

#[test]
fn unknown_raw_text_is_decoded_either_case() {
    let lower = Button::Unknown { raw: String::from("a1b2c3d4") };
    let upper = Button::Unknown { raw: String::from("A1B2C3D4") };
    assert_eq!(lower.to_bytes(), vec![0xA1, 0xB2, 0xC3, 0xD4]);
    assert_eq!(upper.to_bytes(), vec![0xA1, 0xB2, 0xC3, 0xD4]);
    let short = Button::Unknown { raw: String::from("a1") };
    assert_eq!(short.to_bytes(), vec![0xA1, 0xFF, 0xFF, 0xFF]);
}

#[test]
fn unknown_raw_text_that_is_not_hex_stores_fill() {
    assert_eq!(Button::Unknown { raw: String::from("zz") }.to_bytes(), vec![0xFF; 4]);
    assert_eq!(Button::Unknown { raw: String::from("abc") }.to_bytes(), vec![0xFF; 4]);
    let e = LedEffect::Unknown { id: 0x42, raw: String::from("xyz") };
    let mut want = vec![0x42u8];
    want.extend_from_slice(&[0xFF; 10]);
    assert_eq!(e.to_bytes(), want);
}

#[test]
fn receiver_indices_are_never_reused() {
    let mut idx = ReceiverIndices::new();
    let a = idx.next_receiver_index();
    let b = idx.next_receiver_index();
    let c = idx.next_receiver_index();
    assert_eq!((a, b, c), (0, 1, 2));
}

fn setting(name: &str) -> logitech_hidpp::settings::SettingDef {
    all_settings().into_iter().find(|d| d.name == name).expect("setting in catalogue")
}

#[test]
fn range_setting_round_trips() {
    let def = setting("dpi");
    let (bytes, rmw) = encode_value(&def.validator, "1600").expect("in range");
    assert_eq!(bytes, vec![0x00, 0x06, 0x40]);
    assert!(!rmw);
    match decode_value(&def.validator, &bytes) {
        Ok(SettingValue::Range(v)) => assert_eq!(v, 1600),
        other => panic!("unexpected {other:?}"),
    }
}

#[test]
fn toggle_setting_round_trips() {
    let def = setting("fn-swap");
    for (text, want) in [("on", true), ("off", false), ("TRUE", true), ("0", false)] {
        let (bytes, _) = encode_value(&def.validator, text).expect("boolean");
        match decode_value(&def.validator, &bytes) {
            Ok(SettingValue::Toggle(b)) => assert_eq!(b, want),
            other => panic!("unexpected {other:?}"),
        }
    }
}

#[test]
fn choice_setting_round_trips() {
    let def = setting("report-rate");
    for (text, label) in [("4", "4ms (250 Hz)"), ("2MS (500 HZ)", "2ms (500 Hz)")] {
        let (bytes, _) = encode_value(&def.validator, text).expect("named option");
        match decode_value(&def.validator, &bytes) {
            Ok(SettingValue::Choice(l)) => assert_eq!(l, label),
            other => panic!("unexpected {other:?}"),
        }
    }
}

#[test]
fn toggle_values_shorter_than_the_mask_encode() {
    let v = Validator::Toggle {
        true_value: vec![0x01],
        false_value: vec![0x00],
        mask: vec![0xFF, 0xFF],
        read_skip: 0,
        write_prefix: vec![0x09],
    };
    match encode_value(&v, "on") {
        Ok((bytes, rmw)) => {
            assert_eq!(bytes, vec![0x09, 0x01]);
            assert!(!rmw);
        }
        Err(m) => panic!("refused: {m}"),
    }
}

#[test]
fn long_integer_reply_keeps_its_low_64_bits() {
    let v = Validator::Range { min: 0, max: 10, byte_count: 9, read_skip: 0, write_prefix: vec![] };
    match decode_value(&v, &[0x01, 0x02, 0x03, 0x04, 0x05, 0x06, 0x07, 0x08, 0x09]) {
        Ok(SettingValue::Range(n)) => assert_eq!(n, 0x0203040506070809),
        other => panic!("unexpected {other:?}"),
    }
}

#[test]
fn utf16_name_field_decodes_pairs_and_replaces_lone_surrogates() {
    // "A", U+1F600 as a surrogate pair, a lone high surrogate, "B", end.
    let bytes = [0x41, 0x00, 0x3D, 0xD8, 0x00, 0xDE, 0x3D, 0xD8, 0x42, 0x00, 0x00, 0x00];
    assert_eq!(decode_utf16le_null(&bytes), "A\u{1F600}\u{FFFD}B");
}

#[test]
fn zero_width_integer_round_trips() {
    let v = Validator::Range { min: 0, max: 5, byte_count: 0, read_skip: 1, write_prefix: vec![0x07] };
    let (bytes, _) = encode_value(&v, "0").expect("zero encodes");
    assert_eq!(bytes, vec![0x07]);
    match decode_value(&v, &bytes) {
        Ok(SettingValue::Range(n)) => assert_eq!(n, 0),
        other => panic!("unexpected {other:?}"),
    }
}

#[test]
fn receiver_indices_count_up() {
    let mut idx = ReceiverIndices::new();
    for k in 0..100usize {
        assert_eq!(idx.next_receiver_index(), k);
    }
}

#[test]
fn decimal_text_reads_back_as_its_number() {
    let v = Validator::Range { min: 0, max: 0xFFFF, byte_count: 2, read_skip: 1, write_prefix: vec![0x00] };
    for n in (0i64..=0xFFFF).step_by(257) {
        let (bytes, rmw) = encode_value(&v, &n.to_string()).expect("in range");
        assert!(!rmw);
        match decode_value(&v, &bytes) {
            Ok(SettingValue::Range(m)) => assert_eq!(m, n),
            other => panic!("unexpected {other:?}"),
        }
    }
}
