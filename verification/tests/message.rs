use logitech_hidpp::message::{HidppNotification, DJ_MESSAGE_ID, HIDPP_SHORT_MESSAGE_ID};

#[test]
fn from_raw_hidpp20_feature_notification() {
    let data = [0x40u8, 0x00, 0x01, 0x02, 0x03];
    let n = HidppNotification::from_raw(HIDPP_SHORT_MESSAGE_ID, 0x01, &data)
        .expect("should be a notification");
    assert_eq!(n.sub_id, 0x40);
    assert_eq!(n.address, 0x00);
    assert_eq!(n.data, &[0x01, 0x02, 0x03]);
}

#[test]
fn from_raw_hidpp20_reply_is_not_notification() {
    let data = [0x20u8, 0x03, 0xAA, 0xBB];
    let result = HidppNotification::from_raw(HIDPP_SHORT_MESSAGE_ID, 0x01, &data);
    assert!(result.is_none(), "request reply should not be a notification");
}

#[test]
fn from_raw_hidpp10_register_reply_is_not_notification() {
    let data = [0x81u8, 0x00, 0x00, 0x00, 0x00];
    let result = HidppNotification::from_raw(HIDPP_SHORT_MESSAGE_ID, 0xFF, &data);
    assert!(result.is_none(), "register reply should not be a notification");
}

#[test]
fn from_raw_hidpp10_battery_event() {
    let data = [0x07u8, 0x20, 0x01, 0x00, 0x00];
    let n = HidppNotification::from_raw(HIDPP_SHORT_MESSAGE_ID, 0x01, &data)
        .expect("battery event should be a notification");
    assert_eq!(n.sub_id, 0x07);
}

#[test]
fn from_raw_dj_input_record_is_not_notification() {
    let data = [0x01u8, 0x00, 0x00];
    let result = HidppNotification::from_raw(DJ_MESSAGE_ID, 0x00, &data);
    assert!(result.is_none(), "DJ input record should not be a notification");
}

#[test]
fn from_raw_dj_non_input_is_notification() {
    let data = [0x40u8, 0x00, 0x00];
    let n = HidppNotification::from_raw(DJ_MESSAGE_ID, 0x00, &data)
        .expect("DJ non-input should be a notification");
    assert_eq!(n.sub_id, 0x40);
}

#[test]
fn from_raw_noop_is_not_notification() {
    let data = [0x00u8, 0x00, 0x00, 0x00, 0x00];
    let result = HidppNotification::from_raw(HIDPP_SHORT_MESSAGE_ID, 0x01, &data);
    assert!(result.is_none(), "no-op should not be a notification");
}

#[test]
fn from_raw_empty_data() {
    let result = HidppNotification::from_raw(HIDPP_SHORT_MESSAGE_ID, 0x01, &[]);
    assert!(result.is_none());
}

#[test]
fn notification_display() {
    let n = HidppNotification {
        report_id: 0x10,
        devnumber: 1,
        sub_id: 0x40,
        address: 0x00,
        data: vec![0xAA, 0xBB],
    };
    let s = n.to_display_string();
    assert!(s.contains("10"), "should include report_id");
    assert!(s.contains("40"), "should include sub_id");
}
