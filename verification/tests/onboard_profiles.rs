use logitech_hidpp::onboard_profiles::{crc16, Button, LedEffect};

#[test]
fn crc16_known_answer() {
    assert_eq!(crc16(b"123456789"), 0x29B1);
}

#[test]
fn crc16_empty() {
    assert_eq!(crc16(&[]), 0xFFFF);
}

#[test]
fn crc16_single_zero_byte() {
    assert_eq!(crc16(&[0x00]), 0xE1F0);
}

fn led_roundtrip(effect: LedEffect) {
    let bytes = effect.to_bytes();
    assert_eq!(bytes.len(), 11, "LED effect must always be 11 bytes");
    let parsed = LedEffect::from_bytes(&bytes);
    assert_eq!(parsed, effect, "round-trip mismatch for {effect:?}");
}

#[test]
fn led_effect_disabled_roundtrip() {
    led_roundtrip(LedEffect::Disabled);
}

#[test]
fn led_effect_static_roundtrip() {
    led_roundtrip(LedEffect::Static { red: 0xFF, green: 0x80, blue: 0x00, ramp: 0x01 });
}

#[test]
fn led_effect_pulse_roundtrip() {
    led_roundtrip(LedEffect::Pulse { red: 0x10, green: 0x20, blue: 0x30, speed: 0x04 });
}

#[test]
fn led_effect_cycle_roundtrip() {
    led_roundtrip(LedEffect::Cycle { period: 1000, intensity: 0xC0 });
}

#[test]
fn led_effect_boot_roundtrip() {
    led_roundtrip(LedEffect::Boot);
}

#[test]
fn led_effect_demo_roundtrip() {
    led_roundtrip(LedEffect::Demo);
}

#[test]
fn led_effect_breathe_roundtrip() {
    led_roundtrip(LedEffect::Breathe {
        red: 0xAA,
        green: 0xBB,
        blue: 0xCC,
        period: 2000,
        form: 0x01,
        intensity: 0x80,
    });
}

#[test]
fn led_effect_ripple_roundtrip() {
    led_roundtrip(LedEffect::Ripple { red: 0x11, green: 0x22, blue: 0x33, period: 500 });
}

#[test]
fn led_effect_decomposition_roundtrip() {
    led_roundtrip(LedEffect::Decomposition { period: 3000, intensity: 0x7F });
}

#[test]
fn led_effect_signature1_roundtrip() {
    led_roundtrip(LedEffect::Signature1 { period: 1500, intensity: 0xFF });
}

#[test]
fn led_effect_signature2_roundtrip() {
    led_roundtrip(LedEffect::Signature2 { period: 750, intensity: 0x40 });
}

#[test]
fn led_effect_cycles_roundtrip() {
    led_roundtrip(LedEffect::CycleS { saturation: 0x80, period: 4000, intensity: 0x60 });
}

#[test]
fn led_effect_from_bytes_too_short_is_unknown() {
    let bytes = [0x01u8, 0x02];
    let effect = LedEffect::from_bytes(&bytes);
    assert!(matches!(effect, LedEffect::Unknown { .. }));
}

fn button_roundtrip(btn: Button) {
    let bytes = btn.to_bytes();
    assert_eq!(bytes.len(), 4, "Button must always serialize to 4 bytes");
    let parsed = Button::from_bytes(&bytes);
    assert_eq!(parsed, btn, "round-trip mismatch for {btn:?}");
}

#[test]
fn button_none_roundtrip() {
    button_roundtrip(Button::Disabled);
}

#[test]
fn button_macro_roundtrip() {
    button_roundtrip(Button::Macro { sector: 0x01, address: 0x0042 });
}

#[test]
fn button_macro_stop_roundtrip() {
    button_roundtrip(Button::MacroStop { sector: 0x02, address: 0x00FF });
}

#[test]
fn button_send_no_action_roundtrip() {
    button_roundtrip(Button::Send { mapping_type: 0, modifiers: None, value: 0 });
}

#[test]
fn button_send_button_roundtrip() {
    button_roundtrip(Button::Send { mapping_type: 1, modifiers: None, value: 0x0001 });
}

#[test]
fn button_send_modifier_key_roundtrip() {
    button_roundtrip(Button::Send { mapping_type: 2, modifiers: Some(0x04), value: 0x04 });
}

#[test]
fn button_send_consumer_key_roundtrip() {
    button_roundtrip(Button::Send { mapping_type: 3, modifiers: None, value: 0x00E2 });
}

#[test]
fn button_function_roundtrip() {
    button_roundtrip(Button::Function { function: 0x03, data: 0x01 });
}

#[test]
fn button_from_bytes_too_short_is_unknown() {
    let bytes = [0xAAu8, 0xBB];
    let btn = Button::from_bytes(&bytes);
    assert!(matches!(btn, Button::Unknown { .. }));
}
