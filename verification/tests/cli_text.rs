use std::cell::RefCell;
use std::rc::Rc;

use logitech_hidpp::base::{HidppChannel, ProtocolVersion, RequestOptions};
use logitech_hidpp::base_usb::get_receiver_info;
use logitech_hidpp::common::{Battery, BatteryStatus};
use logitech_hidpp::daemon::{battery_level_value, battery_status_label, device_path, kind_label, lock_event, receiver_path};
use logitech_hidpp::device::{Device, PairingInfo};
use logitech_hidpp::discovery::{enumerate_paired_devices, find_device, find_receiver, find_shown_device};
use logitech_hidpp::error::Error;
use logitech_hidpp::handlers::HandlerRegistry;
use logitech_hidpp::hidpp10_constants::{DeviceKind, NotificationFlag};
use logitech_hidpp::matching::{
    device_slot_arg, is_receiver_interface, new_connection, pairing_matches, parse_u8, receiver_matches,
    shown_device_matches, wireless_flags_needed,
};
use logitech_hidpp::message::HidppNotification;
use logitech_hidpp::receiver::Receiver;
use logitech_hidpp::probe::{bolt_name_part, fmt_reg, pairing_name_text, sweep_step, SweepStep};
use logitech_hidpp::report::{activity_text, battery_text, flags_text, hex6_text, notification_flag_names};
use logitech_hidpp::settings::{
    all_settings, merge_with_mask, parse_bool, parse_i64, read_setting, supported_settings, write_setting,
    encode_value, SettingError, SettingValue,
};

fn battery(level: Option<u8>, status: Option<BatteryStatus>) -> Battery {
    Battery { level, next_level: None, status, voltage: None, light_level: None }
}

#[test]
fn flag_names_in_display_order() {
    let flags = NotificationFlag::from_bits_truncate(0x100000 | 0x000100 | 0x000004);
    assert_eq!(notification_flag_names(flags), vec!["battery status", "wireless", "configuration complete"]);
    assert_eq!(flags_text(flags), "battery status, wireless, configuration complete (0x100104)");
    assert_eq!(flags_text(NotificationFlag::empty()), "(none)");
}

#[test]
fn hex6_pads_to_six_digits() {
    assert_eq!(hex6_text(0x100), "0x000100");
    assert_eq!(hex6_text(0x1234567), "0x1234567");
}

#[test]
fn battery_line() {
    let mut b = battery(Some(90), Some(BatteryStatus::Discharging));
    b.voltage = Some(3900);
    b.next_level = Some(50);
    assert_eq!(battery_text(&b), "90% 3900mV, Some(Discharging), next level 50%.");
    assert_eq!(battery_text(&battery(None, None)), "N/A, None.");
}

#[test]
fn activity_line() {
    assert_eq!(activity_text(&[0, 5, 0, 7, 1, 1], 7), "2=5, 4=7, 5=1, 6=1");
    assert_eq!(activity_text(&[0, 0, 0], 7), "(empty)");
}

#[test]
fn register_values_as_shown() {
    assert_eq!(fmt_reg(&Ok(Some(vec![0x01, 0xAB]))), "0x01AB");
    assert_eq!(fmt_reg(&Ok(None)), "None");
    assert_eq!(fmt_reg(&Err(Error::LockPoisoned)), "None");
}

#[test]
fn pairing_names_as_shown() {
    assert_eq!(pairing_name_text(&Ok(Some(vec![0x40, 3, b'K', b'3', b'5', 0]))), "K35");
    assert_eq!(pairing_name_text(&Ok(Some(vec![0x40, 9, b'K']))), "");
    assert_eq!(pairing_name_text(&Ok(None)), "None");
    let (len, text) = bolt_name_part(&Ok(Some(vec![0x60, 1, 4, b'M', b'X', b' ', b'K'])));
    assert_eq!((len, text.as_str()), (4, "MX K"));
    let (len, text) = bolt_name_part(&Ok(None));
    assert_eq!((len, text.as_str()), (0, "None"));
}

#[test]
fn register_sweep_steps() {
    let last = Some(vec![1u8, 2]);
    assert_eq!(sweep_step(&last, &Ok(Some(vec![0x02]))), SweepStep::Stop);
    assert_eq!(sweep_step(&last, &Ok(Some(vec![0x03]))), SweepStep::Skip);
    assert_eq!(sweep_step(&last, &Ok(Some(vec![0x01]))), SweepStep::Forget);
    assert_eq!(sweep_step(&last, &Ok(Some(vec![1, 2]))), SweepStep::Repeat);
    assert_eq!(sweep_step(&last, &Ok(Some(vec![1, 3]))), SweepStep::Show);
    assert_eq!(sweep_step(&None, &Ok(None)), SweepStep::Stop);
}

#[test]
fn object_paths() {
    assert_eq!(receiver_path(0), "/org/solaarsd/receiver0");
    assert_eq!(device_path(3, 12), "/org/solaarsd/receiver3/dev12");
}

#[test]
fn daemon_labels() {
    assert_eq!(kind_label(Some(DeviceKind::Keyboard)), "keyboard");
    assert_eq!(kind_label(None), "unknown");
    assert_eq!(battery_status_label(Some(BatteryStatus::Full)), "full");
    assert_eq!(battery_level_value(Some(battery(Some(40), None))), 40);
    assert_eq!(battery_level_value(None), -1);
    assert_eq!(battery_level_value(Some(battery(Some(200), None))), 100);
}

fn notification(devnumber: u8, sub_id: u8, data: Vec<u8>) -> HidppNotification {
    HidppNotification { report_id: 0x10, devnumber, sub_id, address: 0, data }
}

#[test]
fn lock_notifications() {
    assert_eq!(lock_event(&notification(0xFF, 0x4A, vec![1])), Some(true));
    assert_eq!(lock_event(&notification(0xFF, 0x4A, vec![0])), Some(false));
    assert_eq!(lock_event(&notification(0xFF, 0x4A, vec![])), Some(false));
    assert_eq!(lock_event(&notification(1, 0x4A, vec![1])), None);
}

#[test]
fn new_connections() {
    assert_eq!(new_connection(&notification(3, 0x41, vec![]), &[1, 2], 6), Some(3));
    assert_eq!(new_connection(&notification(2, 0x41, vec![]), &[1, 2], 6), None);
    assert_eq!(new_connection(&notification(7, 0x41, vec![]), &[], 6), None);
    assert_eq!(new_connection(&notification(3, 0x40, vec![]), &[], 6), None);
}

#[test]
fn wireless_flags() {
    let f = NotificationFlag::from_bits_truncate(0x000100);
    assert!(wireless_flags_needed(f).is_none());
    let g = wireless_flags_needed(NotificationFlag::from_bits_truncate(0x100000)).expect("flags to set");
    assert_eq!(g.bits(), 0x100100);
}

fn info() -> PairingInfo {
    PairingInfo {
        wpid: 0x4082,
        kind: Some(DeviceKind::Mouse),
        serial: Some(String::from("ABCD1234")),
        polling_rate: Some(8),
        power_switch: None,
        codename: Some(String::from("MX Master 3")),
    }
}

#[test]
fn device_queries() {
    assert!(pairing_matches("abcd1234", &info()));
    assert!(pairing_matches("mx master 3", &info()));
    assert!(!pairing_matches("master", &info()));
    assert!(shown_device_matches("master", &info(), 2));
    assert!(shown_device_matches("2", &info(), 2));
    assert!(shown_device_matches("3", &info(), 2));
    assert!(!shown_device_matches("5", &info(), 2));
    assert_eq!(device_slot_arg("4"), Some(4));
    assert_eq!(device_slot_arg("7"), None);
    assert!(receiver_matches("unifying", "Unifying Receiver", &None));
    assert!(receiver_matches("0123abcd", "Bolt Receiver", &Some(String::from("0123ABCD"))));
    assert!(!receiver_matches("bolt", "Unifying Receiver", &None));
}

#[test]
fn receiver_interfaces() {
    assert!(is_receiver_interface(0x046D, 0xC52B, 0xFF00, 1));
    assert!(is_receiver_interface(0x046D, 0xC548, 0x0001, 2));
    assert!(!is_receiver_interface(0x046D, 0xB023, 0xFF00, 2));
    assert!(!is_receiver_interface(0x1234, 0xC52B, 0xFF00, 2));
}

#[test]
fn parse_numbers_and_booleans() {
    assert_eq!(parse_u8("255"), Some(255));
    assert_eq!(parse_u8("+7"), Some(7));
    assert_eq!(parse_u8("256"), None);
    assert_eq!(parse_u8("-0"), None);
    assert_eq!(parse_i64("-42"), Some(-42));
    assert_eq!(parse_i64("9223372036854775807"), Some(i64::MAX));
    assert_eq!(parse_i64("9223372036854775808"), None);
    assert_eq!(parse_i64("1x"), None);
    assert_eq!(parse_bool("Yes"), Some(true));
    assert_eq!(parse_bool("OFF"), Some(false));
    assert_eq!(parse_bool("maybe"), None);
}

fn catalogue_entry(name: &str) -> logitech_hidpp::settings::SettingDef {
    all_settings().into_iter().find(|d| d.name == name).expect("setting in catalogue")
}

#[test]
fn setting_errors() {
    let dpi = catalogue_entry("dpi");
    match encode_value(&dpi.validator, "50") {
        Err(m) => assert_eq!(m, "value 50 out of range [100, 25600]"),
        Ok(_) => panic!("out of range accepted"),
    }
    match encode_value(&dpi.validator, "fast") {
        Err(m) => assert_eq!(m, "expected integer, got 'fast'"),
        Ok(_) => panic!("text accepted"),
    }
    let swap = catalogue_entry("fn-swap");
    match encode_value(&swap.validator, "perhaps") {
        Err(m) => assert_eq!(m, "expected true/false/on/off/1/0, got 'perhaps'"),
        Ok(_) => panic!("text accepted"),
    }
}

#[test]
fn toggle_merges_only_its_bits() {
    let smooth = catalogue_entry("smooth-scroll");
    assert_eq!(merge_with_mask(&smooth.validator, &[0x81], &[0x40]), vec![0xC1]);
    assert_eq!(merge_with_mask(&smooth.validator, &[0xC1], &[0x00]), vec![0x81]);
}

#[test]
fn settings_by_protocol() {
    let defs = all_settings();
    let hidpp2 = supported_settings(Some(ProtocolVersion { major: 4, minor: 5 }), &defs);
    assert!(hidpp2.iter().any(|d| d.name == "dpi"));
    assert!(!hidpp2.iter().any(|d| d.name == "smooth-scroll"));
    let hidpp1 = supported_settings(Some(ProtocolVersion { major: 1, minor: 0 }), &defs);
    assert!(hidpp1.iter().any(|d| d.name == "smooth-scroll"));
    assert!(!hidpp1.iter().any(|d| d.name == "dpi"));
    assert!(supported_settings(None, &defs).is_empty());
}

/// A channel that answers requests from a table and records what it was
/// sent: (device number, request ID, parameters).
#[derive(Clone)]
struct Script {
    answer: fn(u16, &[u8]) -> Option<Vec<u8>>,
    sent: Rc<RefCell<Vec<(u8, u16, Vec<u8>)>>>,
    pinged: Rc<RefCell<Vec<(u8, bool)>>>,
}

impl Script {
    fn new(answer: fn(u16, &[u8]) -> Option<Vec<u8>>) -> Self {
        Script { answer, sent: Rc::new(RefCell::new(vec![])), pinged: Rc::new(RefCell::new(vec![])) }
    }
}

impl HidppChannel for Script {
    fn request(&self, devnumber: u8, request_id: u16, params: &[u8], _options: &RequestOptions) -> Result<Option<Vec<u8>>, Error> {
        self.sent.borrow_mut().push((devnumber, request_id, params.to_vec()));
        Ok((self.answer)(request_id, params))
    }
    fn ping(&self, devnumber: u8, long_message: bool) -> Result<Option<ProtocolVersion>, Error> {
        self.pinged.borrow_mut().push((devnumber, long_message));
        Ok(Some(ProtocolVersion { major: 1, minor: 0 }))
    }
}

fn online_v1(answer: fn(u16, &[u8]) -> Option<Vec<u8>>) -> Device<Script> {
    let mut dev = Device::new(Script::new(answer), 1, false);
    assert!(matches!(dev.ping(), Ok(true)));
    dev
}

#[test]
fn register_toggle_read_and_write() {
    let def = catalogue_entry("smooth-scroll");
    let dev = online_v1(|id, _| if id == 0x8101 { Some(vec![0xC1]) } else { Some(vec![]) });
    match read_setting(&dev, &def) {
        Ok(Some(SettingValue::Toggle(b))) => assert!(b),
        other => panic!("unexpected {other:?}"),
    }
    assert!(matches!(write_setting(&dev, &def, "off"), Ok(true)));
    let sent = dev.channel().sent.borrow();
    assert_eq!(sent[0], (1, 0x8101, vec![]));
    assert_eq!(sent.last().unwrap(), &(1, 0x8001, vec![0x81]));
}

#[test]
fn feature_setting_needs_hidpp20() {
    let def = catalogue_entry("dpi");
    let dev = online_v1(|_, _| Some(vec![1, 2, 3]));
    assert!(matches!(read_setting(&dev, &def), Ok(None)));
    assert!(dev.channel().sent.borrow().is_empty());
}

#[test]
fn unanswered_read_is_none() {
    let def = catalogue_entry("smooth-scroll");
    let dev = online_v1(|_, _| None);
    assert!(matches!(read_setting(&dev, &def), Ok(None)));
    assert!(matches!(write_setting(&dev, &def, "maybe"), Err(SettingError::Invalid(_))));
}

#[test]
fn ping_sets_protocol_and_online() {
    let mut dev = Device::new(Script::new(|_, _| None), 2, false);
    assert!(!dev.online);
    assert!(matches!(dev.ping(), Ok(true)));
    assert!(dev.online);
    assert_eq!(dev.protocol, Some(ProtocolVersion { major: 1, minor: 0 }));
}

#[test]
fn receiver_reads_serial_and_slots() {
    let info = get_receiver_info(0xC52B).expect("unifying receiver");
    let r = Receiver::new(
        Script::new(|id, p| {
            if id == 0x83B5 && p == [0x03] {
                Some(vec![0x03, 0x12, 0x34, 0xAB, 0xCD, 0x00, 0x04, 0x00])
            } else {
                Some(vec![])
            }
        }),
        String::from("/dev/hidraw3"),
        0xC52B,
        &info,
    );
    assert_eq!(r.serial.as_deref(), Some("1234ABCD"));
    assert_eq!(r.max_devices, 4);
    assert_eq!(r.name, "Unifying Receiver");
    let sent = r.hidpp.sent.borrow();
    assert_eq!(sent[0], (0xFF, 0x83B5, vec![0x03]));
}

#[test]
fn receiver_pairing_lock_and_unpair() {
    let info = get_receiver_info(0xC52B).expect("unifying receiver");
    let r = Receiver::new(Script::new(|_, _| None), String::from("p"), 0xC52B, &info);
    assert_eq!(r.max_devices, info.max_devices);
    assert!(r.serial.is_none());
    r.set_lock(false, 0, 30).unwrap();
    r.unpair_device(3).unwrap();
    let sent = r.hidpp.sent.borrow();
    let n = sent.len();
    assert_eq!(sent[n - 2], (0xFF, 0x80B2, vec![0x01, 0x00, 30]));
    assert_eq!(sent[n - 1], (0xFF, 0x80B2, vec![0x03, 0x03]));
}

/// A Unifying receiver with one device, a K400 in slot 2.
fn one_device_receiver() -> Receiver<Script> {
    let info = get_receiver_info(0xC52B).expect("unifying receiver");
    Receiver::new(
        Script::new(|id, p| {
            if id != 0x83B5 {
                return Some(vec![]);
            }
            match p.first().copied() {
                Some(0x21) => Some(vec![0x21, 0x00, 0x08, 0x40, 0x24, 0x00, 0x00, 0x01]),
                Some(0x31) => Some(vec![0x31, 0xAB, 0xCD, 0x12, 0x34, 0, 0, 0, 0, 0x02]),
                Some(0x41) => Some(vec![0x41, 0x04, b'K', b'4', b'0', b'0']),
                Some(0x03) => Some(vec![0x03, 0x01, 0x02, 0x03, 0x04, 0x00, 0x06, 0x00]),
                Some(s) => Some(vec![s, 0, 0, 0, 0, 0, 0, 0]),
                None => None,
            }
        }),
        String::from("/dev/hidraw1"),
        0xC52B,
        &info,
    )
}

#[test]
fn paired_devices_of_a_receiver() {
    let r = one_device_receiver();
    assert_eq!(r.max_devices, 6);
    assert_eq!(r.serial.as_deref(), Some("01020304"));
    let info = r.paired_device_info(2).unwrap().expect("slot 2 is paired");
    assert_eq!(info.wpid, 0x4024);
    assert_eq!(info.codename.as_deref(), Some("K400"));
    assert_eq!(info.serial.as_deref(), Some("ABCD1234"));
    assert_eq!(info.polling_rate, Some(8));
    assert!(r.paired_device_info(1).unwrap().is_none());
    let devices = enumerate_paired_devices(&r);
    assert_eq!(devices.len(), 1);
    assert_eq!(devices[0].number, 2);
    assert!(devices[0].online);
}

#[test]
fn devices_found_by_query() {
    let receivers = vec![one_device_receiver()];
    let (ri, dev) = find_device(&receivers, "k400").expect("by codename");
    assert_eq!((ri, dev.number), (0, 2));
    let (_, dev) = find_device(&receivers, "abcd1234").expect("by serial");
    assert_eq!(dev.number, 2);
    let (_, dev) = find_device(&receivers, "2").expect("by slot");
    assert_eq!(dev.codename.as_deref(), Some("K400"));
    assert!(find_device(&receivers, "k40").is_none());
    assert!(find_device(&receivers, "3").is_none());
    assert_eq!(find_shown_device(&receivers, "k40").map(|d| d.number), Some(2));
    assert_eq!(find_receiver(&receivers, "unifying"), Some(0));
    assert_eq!(find_receiver(&receivers, "bolt"), None);
}

#[test]
fn offline_device_makes_no_feature_calls() {
    let dev = Device::new(Script::new(|_, _| Some(vec![1, 2, 3])), 1, false);
    assert!(matches!(dev.get_name_hidpp20(), Ok(None)));
    assert!(matches!(dev.get_battery_hidpp20(), Ok(None)));
    assert!(matches!(dev.read_firmware(), Ok(None)));
    assert!(matches!(dev.write_onboard_profiles(&empty_profiles()), Err(Error::Protocol(_))));
    assert!(dev.channel().sent.borrow().is_empty());
}

fn empty_profiles() -> logitech_hidpp::onboard_profiles::OnboardProfiles {
    logitech_hidpp::onboard_profiles::OnboardProfiles {
        version: 3,
        device_name: String::from("G502"),
        count: 0,
        buttons: 0,
        gbuttons: 0,
        sectors: 0,
        size: 255,
        profiles: std::collections::HashMap::new(),
    }
}

#[test]
fn battery_alerts() {
    let mut dev = Device::new(Script::new(|_, _| None), 1, false);
    assert!(dev.set_battery_info(battery(Some(5), Some(BatteryStatus::Discharging))));
    assert_eq!(dev.battery_info().and_then(|b| b.level), Some(5));
    assert!(!dev.set_battery_info(battery(Some(80), Some(BatteryStatus::Discharging))));
    assert!(dev.set_battery_info(battery(Some(80), Some(BatteryStatus::ThermalError))));
}

#[test]
fn receiver_keeps_remaining_pairings_until_refresh() {
    let info = get_receiver_info(0xC52B).expect("unifying receiver");
    let mut r = Receiver::new(
        Script::new(|id, _| if id == 0x8102 { Some(vec![0x00, 0x02, 0x09]) } else { None }),
        String::from("p"),
        0xC52B,
        &info,
    );
    assert_eq!(r.remaining_pairings(false).unwrap(), Some(4));
    let before = r.hidpp.sent.borrow().len();
    assert_eq!(r.remaining_pairings(false).unwrap(), Some(4));
    assert_eq!(r.hidpp.sent.borrow().len(), before);
    assert_eq!(r.remaining_pairings(true).unwrap(), Some(4));
    assert_eq!(r.hidpp.sent.borrow().len(), before + 1);
    assert_eq!(r.count(), 2);
}

/// A HID++ 2.0 device, online, answered by `answer`.
fn online_v2(answer: fn(u16, &[u8]) -> Option<Vec<u8>>) -> Device<Script> {
    let mut dev = Device::new(Script::new(answer), 1, false);
    dev.online = true;
    dev.protocol = Some(ProtocolVersion { major: 4, minor: 5 });
    dev
}

/// The feature table lists the feature set at index 1 (six features),
/// onboard profiles (0x8100) at 4 and smart shift (0x2110) at 5; the
/// profile description and the smart shift reply are short.
fn v2_answers(id: u16, p: &[u8]) -> Option<Vec<u8>> {
    if id == 0x0000 && p == [0x00, 0x01] {
        Some(vec![1, 0, 0])
    } else if id == 0x0100 && p.is_empty() {
        Some(vec![5])
    } else if id == 0x0000 && p == [0x81, 0x00] {
        Some(vec![4, 0, 0])
    } else if id == 0x0000 && p == [0x21, 0x10] {
        Some(vec![5, 0, 0])
    } else if id == 0x0400 {
        Some(vec![1, 2, 3])
    } else if id == 0x0500 {
        Some(vec![0x01])
    } else {
        None
    }
}

#[test]
fn short_profiles_description_is_a_protocol_error() {
    let dev = online_v2(v2_answers);
    assert!(matches!(dev.get_onboard_profiles("G502"), Err(Error::Protocol(_))));
    let sent = dev.channel().sent.borrow();
    assert_eq!(sent.last().unwrap(), &(1, 0x0400, vec![]));
}

#[test]
fn short_setting_reply_is_refused() {
    let def = catalogue_entry("smart-shift");
    let dev = online_v2(v2_answers);
    match read_setting(&dev, &def) {
        Err(SettingError::Invalid(m)) => assert_eq!(m, "response too short (1 < 2)"),
        other => panic!("unexpected {other:?}"),
    }
}

#[test]
fn protocol_threshold_reads_minor_as_tenths() {
    assert!(ProtocolVersion { major: 2, minor: 0 }.is_hidpp20());
    assert!(ProtocolVersion { major: 1, minor: 10 }.is_hidpp20());
    assert!(!ProtocolVersion { major: 1, minor: 9 }.is_hidpp20());
    let defs = all_settings();
    let odd = supported_settings(Some(ProtocolVersion { major: 1, minor: 10 }), &defs);
    assert!(odd.iter().any(|d| d.name == "dpi"));
}

#[test]
fn discovery_turns_wireless_notifications_on_and_opens_the_lock() {
    let info = get_receiver_info(0xC52B).expect("unifying receiver");
    let mut r = Receiver::new(
        Script::new(|id, _| if id == 0x8100 { Some(vec![0x00, 0x00, 0x00]) } else { Some(vec![]) }),
        String::from("p"),
        0xC52B,
        &info,
    );
    let before = r.hidpp.sent.borrow().len();
    assert!(r.start_discovery(30).is_ok());
    assert!(r.pairing.discovering);
    {
        let sent = r.hidpp.sent.borrow();
        assert_eq!(&sent[before..], &[
            (0xFF, 0x8100, vec![]),
            (0xFF, 0x8000, vec![0x00, 0x01, 0x00]),
            (0xFF, 0x80B2, vec![0x01, 0x00, 30]),
        ]);
    }
    assert!(r.stop_discovery().is_ok());
    assert!(!r.pairing.discovering);
    assert_eq!(r.hidpp.sent.borrow().last().unwrap(), &(0xFF, 0x80B2, vec![0x02, 0x00, 0x00]));
}

#[test]
fn feature_index_is_asked_once() {
    let dev = online_v2(v2_answers);
    assert!(dev.get_onboard_profiles("G502").is_err());
    assert!(dev.get_onboard_profiles("G502").is_err());
    let sent = dev.channel().sent.borrow();
    let lookups = sent.iter().filter(|(_, id, p)| *id == 0x0000 && p == &vec![0x81, 0x00]).count();
    assert_eq!(lookups, 1);
    let inits = sent.iter().filter(|(_, id, p)| *id == 0x0000 && p == &vec![0x00, 0x01]).count();
    assert_eq!(inits, 1);
}

#[test]
fn register_sweep_shows_new_values_until_an_invalid_address() {
    let script = Script::new(|id, p| {
        if id == 0x8100 + 0x02 && p[0] < 3 {
            Some(vec![0x10, p[0] / 2])
        } else {
            Some(vec![0x02])
        }
    });
    let values = logitech_hidpp::probe::sweep_registers(&script);
    let shown: Vec<(u8, bool, u8, Vec<u8>)> = values.iter().map(|v| (v.register, v.long, v.sub, v.data.clone())).collect();
    assert_eq!(shown, vec![(0x02, false, 0, vec![0x10, 0x00]), (0x02, false, 2, vec![0x10, 0x01])]);
}

#[test]
fn handler_registry_replaces_by_name_and_offers_in_order() {
    let mut reg: HandlerRegistry<u8> = HandlerRegistry::new();
    reg.add_notification_handler(String::from("a"), 1);
    reg.add_notification_handler(String::from("b"), 2);
    reg.add_notification_handler(String::from("a"), 3);
    let offered: RefCell<Vec<u8>> = RefCell::new(vec![]);
    let r = reg.handle_notification(|h: &u8| {
        offered.borrow_mut().push(*h);
        None::<bool>
    });
    assert_eq!(r, None);
    assert_eq!(offered.into_inner(), vec![3, 2]);
    assert_eq!(reg.handle_notification(|h: &u8| if *h == 2 { Some(true) } else { None }), Some(true));
    reg.remove_notification_handler("a");
    assert_eq!(reg.handle_notification(|h: &u8| Some(*h)), Some(2));
}

#[test]
fn ping_asks_the_device_itself() {
    let mut dev = Device::new(Script::new(|_, _| None), 3, true);
    assert!(matches!(dev.ping(), Ok(true)));
    assert_eq!(dev.channel().pinged.borrow().clone(), vec![(3, true)]);
}

/// A Unifying receiver with no device paired.
fn empty_receiver() -> Receiver<Script> {
    let info = get_receiver_info(0xC52B).expect("unifying receiver");
    Receiver::new(
        Script::new(|id, p| {
            if id != 0x83B5 {
                return Some(vec![]);
            }
            match p.first().copied() {
                Some(0x03) => Some(vec![0x03, 0x05, 0x06, 0x07, 0x08, 0x00, 0x06, 0x00]),
                Some(s) => Some(vec![s, 0, 0, 0, 0, 0, 0, 0]),
                None => None,
            }
        }),
        String::from("/dev/hidraw0"),
        0xC52B,
        &info,
    )
}

#[test]
fn paired_devices_are_asked_slot_by_slot() {
    let r = one_device_receiver();
    let before = r.hidpp.sent.borrow().len();
    let devices = enumerate_paired_devices(&r);
    assert_eq!(devices.iter().map(|d| d.number).collect::<Vec<u8>>(), vec![2]);
    let sent = r.hidpp.sent.borrow();
    let slots: Vec<u8> = sent[before..]
        .iter()
        .filter(|(n, id, p)| *n == 0xFF && *id == 0x83B5 && p.len() == 1 && p[0] & 0xF0 == 0x20)
        .map(|(_, _, p)| p[0])
        .collect();
    assert_eq!(slots, vec![0x20, 0x21, 0x22, 0x23, 0x24, 0x25]);
    assert_eq!(devices[0].channel().pinged.borrow().last().copied(), Some((2, false)));
}

#[test]
fn device_search_goes_on_to_later_receivers() {
    let receivers = vec![empty_receiver(), one_device_receiver()];
    let (ri, dev) = find_device(&receivers, "k400").expect("on the second receiver");
    assert_eq!((ri, dev.number), (1, 2));
    let (ri, dev) = find_device(&receivers, "2").expect("slot 2 of the second receiver");
    assert_eq!((ri, dev.number), (1, 2));
    assert_eq!(find_shown_device(&receivers, "k4").map(|d| d.number), Some(2));
    assert!(find_device(&receivers, "m705").is_none());
    assert!(find_shown_device(&receivers, "m705").is_none());
    let both = vec![one_device_receiver(), one_device_receiver()];
    assert_eq!(find_device(&both, "k400").map(|(ri, _)| ri), Some(0));
}

#[test]
fn register_sweep_reads_short_then_long_registers() {
    let script = Script::new(|id, p| {
        if id == 0x8305 {
            match p[0] {
                0 | 1 => Some(vec![0xAA, 0xBB]),
                2 => Some(vec![0x03]),
                3 => Some(vec![0xCC, 0xDD]),
                4 => Some(vec![0x01]),
                5 => Some(vec![0xCC, 0xDD]),
                _ => Some(vec![0x02]),
            }
        } else {
            Some(vec![0x02])
        }
    });
    let values = logitech_hidpp::probe::sweep_registers(&script);
    let shown: Vec<(u8, bool, u8, Vec<u8>)> = values.iter().map(|v| (v.register, v.long, v.sub, v.data.clone())).collect();
    assert_eq!(shown, vec![
        (0x05, true, 0, vec![0xAA, 0xBB]),
        (0x05, true, 3, vec![0xCC, 0xDD]),
        (0x05, true, 5, vec![0xCC, 0xDD]),
    ]);
    let sent = script.sent.borrow();
    assert_eq!(sent[0], (0xFF, 0x8100, vec![0]));
    assert_eq!(sent[1], (0xFF, 0x8300, vec![0]));
    assert_eq!(sent.iter().filter(|(_, _, p)| p == &vec![0]).count(), 2 * 0xFF);
    assert_eq!(sent.len(), 2 * 0xFF + 6);
    assert_eq!(sent.last().unwrap(), &(0xFF, 0x83FE, vec![0]));
}
