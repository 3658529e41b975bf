use logitech_hidpp::base_usb::{get_receiver_info, is_receiver_product_id, known_receivers, ReceiverKind};
use logitech_hidpp::common::LOGITECH_VENDOR_ID;

#[test]
fn is_receiver_product_id_within_range() {
    assert!(is_receiver_product_id(0xC500));
    assert!(is_receiver_product_id(0xC52B));
    assert!(is_receiver_product_id(0xC548));
    assert!(is_receiver_product_id(0xC5FF));
}

#[test]
fn is_receiver_product_id_outside_range() {
    assert!(!is_receiver_product_id(0xC4FF));
    assert!(!is_receiver_product_id(0xC600));
    assert!(!is_receiver_product_id(0x0000));
    assert!(!is_receiver_product_id(0xFFFF));
}

#[test]
fn get_receiver_info_known_bolt() {
    let info = get_receiver_info(0xC548).expect("Bolt receiver 0xC548 should be known");
    assert_eq!(info.product_id, 0xC548);
    assert_eq!(info.kind, ReceiverKind::Bolt);
    assert_eq!(info.max_devices, 6);
    assert_eq!(info.usb_interface, 2);
    assert!(!info.re_pairs);
}

#[test]
fn get_receiver_info_known_unifying() {
    let info = get_receiver_info(0xC52B).expect("Unifying receiver 0xC52B should be known");
    assert_eq!(info.kind, ReceiverKind::Unifying);
    assert_eq!(info.max_devices, 6);
}

#[test]
fn get_receiver_info_known_nano() {
    let info = get_receiver_info(0xC52F).expect("Nano receiver 0xC52F should be known");
    assert_eq!(info.kind, ReceiverKind::Nano);
    assert_eq!(info.max_devices, 1);
}

#[test]
fn get_receiver_info_unknown_pid() {
    assert!(get_receiver_info(0x1234).is_none());
    assert!(get_receiver_info(0xC500).is_none());
}

#[test]
fn known_receivers_keys_match_product_ids() {
    for (key, info) in known_receivers().iter() {
        assert_eq!(
            *key, info.product_id,
            "known receiver key {key:#06X} does not match product_id {:#06X}",
            info.product_id
        );
    }
}

#[test]
fn known_receivers_have_logitech_vendor_id() {
    for (_key, info) in known_receivers().iter() {
        assert_eq!(
            info.vendor_id, LOGITECH_VENDOR_ID,
            "Receiver {:#06X} has unexpected vendor_id {:#06X}",
            info.product_id, info.vendor_id
        );
    }
}

#[test]
fn bolt_receivers_use_interface_2() {
    for (_key, info) in known_receivers().iter() {
        if info.kind == ReceiverKind::Bolt {
            assert_eq!(
                info.usb_interface, 2,
                "Bolt receiver {:#06X} should use USB interface 2",
                info.product_id
            );
        }
    }
}

#[test]
fn get_receiver_info_bolt_0xc548() {
    let info = get_receiver_info(0xC548).expect("Bolt receiver 0xC548 must be known");
    assert_eq!(info.product_id, 0xC548);
    assert_eq!(info.kind, ReceiverKind::Bolt);
    assert_eq!(info.max_devices, 6);
    assert_eq!(info.usb_interface, 2);
    assert!(info.may_unpair);
    assert!(!info.re_pairs);
}
