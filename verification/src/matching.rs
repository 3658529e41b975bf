//! How receivers, paired devices and slots are picked from what the user
//! types, which HID interfaces are receivers, and which notification
//! announces a newly paired device.

use vstd::prelude::*;
use crate::device::PairingInfo;
use crate::hidpp10_constants::NotificationFlag;
use crate::message::HidppNotification;
use crate::settings::{parse_i64, spec_parse_i64};
use crate::text::{contains, spec_contains, text_eq, to_lowercase, unicode_lower};

verus! {

/// The byte a text denotes, as Rust reads it: an optional `+`, then ASCII
/// digits, at most 255.
pub open spec fn spec_parse_u8(s: Seq<char>) -> Option<u8> {
    if s.len() > 0 && s[0] == '-' {
        None
    } else {
        match spec_parse_i64(s) {
            Some(v) => if 0 <= v <= 255 {
                Some(v as u8)
            } else {
                None
            },
            None => None,
        }
    }
}

/// The byte a text denotes, as Rust reads it.
pub fn parse_u8(s: &str) -> (r: Option<u8>)
    ensures
        r == spec_parse_u8(s@),
{
    if s.unicode_len() > 0 && s.get_char(0) == '-' {
        return None;
    }
    match parse_i64(s) {
        Some(v) => if 0 <= v && v <= 255 {
            Some(v as u8)
        } else {
            None
        },
        None => None,
    }
}

/// Whether the lower case of `text` is `name_lc`.
pub open spec fn spec_is_named(text: Option<String>, name_lc: Seq<char>) -> bool {
    text matches Some(t) && unicode_lower(t@) == name_lc
}

/// Whether the lower case of `text` is `name_lc`.
fn is_named(text: &Option<String>, name_lc: &str) -> (r: bool)
    ensures
        r == spec_is_named(*text, name_lc@),
{
    match text {
        Some(t) => {
            let l = to_lowercase(t.as_str());
            text_eq(l.as_str(), name_lc)
        },
        None => false,
    }
}

/// Whether a receiver is the one a lower-cased query names: its name holds
/// the query (ignoring case), or its serial is the query.
pub open spec fn spec_receiver_matches(name_lc: Seq<char>, receiver_name: Seq<char>, serial: Option<String>) -> bool {
    spec_contains(unicode_lower(receiver_name), name_lc) || spec_is_named(serial, name_lc)
}

/// Whether a receiver is the one a lower-cased query names.
pub fn receiver_matches(name_lc: &str, receiver_name: &str, serial: &Option<String>) -> (r: bool)
    ensures
        r == spec_receiver_matches(name_lc@, receiver_name@, *serial),
{
    let l = to_lowercase(receiver_name);
    contains(l.as_str(), name_lc) || is_named(serial, name_lc)
}

/// The slot a lower-cased query names directly: a number from 1 to 6.
pub open spec fn spec_slot_arg(name_lc: Seq<char>) -> Option<u8> {
    match spec_parse_u8(name_lc) {
        Some(n) => if 1 <= n <= 6 {
            Some(n)
        } else {
            None
        },
        None => None,
    }
}

/// The slot a lower-cased query names directly: a number from 1 to 6.
pub fn device_slot_arg(name_lc: &str) -> (r: Option<u8>)
    ensures
        r == spec_slot_arg(name_lc@),
{
    match parse_u8(name_lc) {
        Some(n) => if 1 <= n && n <= 6 {
            Some(n)
        } else {
            None
        },
        None => None,
    }
}

/// Whether a paired device is the one a lower-cased query names: its
/// codename or its serial, ignoring case.
pub open spec fn spec_pairing_matches(name_lc: Seq<char>, info: PairingInfo) -> bool {
    spec_is_named(info.codename, name_lc) || spec_is_named(info.serial, name_lc)
}

/// Whether a paired device is the one a lower-cased query names.
pub fn pairing_matches(name_lc: &str, info: &PairingInfo) -> (r: bool)
    ensures
        r == spec_pairing_matches(name_lc@, *info),
{
    is_named(&info.codename, name_lc) || is_named(&info.serial, name_lc)
}

/// Whether the device in slot `n` is the one a lower-cased query names for
/// display: its codename or serial, its slot number, or a part of its
/// codename (ignoring case).
pub open spec fn spec_shown_device_matches(name_lc: Seq<char>, info: PairingInfo, n: u8) -> bool {
    spec_pairing_matches(name_lc, info) || spec_parse_u8(name_lc) == Some(n) || (
    info.codename matches Some(c) && spec_contains(unicode_lower(c@), name_lc))
}

/// Whether the device in slot `n` is the one a lower-cased query names for
/// display.
pub fn shown_device_matches(name_lc: &str, info: &PairingInfo, n: u8) -> (r: bool)
    ensures
        r == spec_shown_device_matches(name_lc@, *info, n),
{
    if pairing_matches(name_lc, info) {
        return true;
    }
    if parse_u8(name_lc) == Some(n) {
        return true;
    }
    match &info.codename {
        Some(c) => {
            let l = to_lowercase(c.as_str());
            contains(l.as_str(), name_lc)
        },
        None => false,
    }
}

/// Whether a HID interface is a receiver's HID++ interface: a Logitech
/// receiver product, on the vendor usage page 0xFF00 or on interface 2 or 0.
pub open spec fn spec_is_receiver_interface(vendor_id: u16, product_id: u16, usage_page: u16, interface: i32) -> bool {
    vendor_id == crate::common::LOGITECH_VENDOR_ID && 0xC500 <= product_id <= 0xC5FF && (usage_page
        == 0xFF00 || interface == 2 || interface == 0)
}

/// Whether a HID interface is a receiver's HID++ interface.
pub fn is_receiver_interface(vendor_id: u16, product_id: u16, usage_page: u16, interface: i32) -> (r: bool)
    ensures
        r == spec_is_receiver_interface(vendor_id, product_id, usage_page, interface),
{
    vendor_id == crate::common::LOGITECH_VENDOR_ID && crate::base_usb::is_receiver_product_id(
        product_id,
    ) && (usage_page == 0xFF00 || interface == 2 || interface == 0)
}

/// The slot a notification announces as newly paired: a device connection
/// notification (sub-ID 0x41) from a slot in `1..=max_devices` that was not
/// paired before.
pub open spec fn spec_new_connection(n: HidppNotification, known: Seq<u8>, max_devices: u8) -> Option<u8> {
    if n.sub_id == 0x41 && !known.contains(n.devnumber) && 1 <= n.devnumber <= max_devices {
        Some(n.devnumber)
    } else {
        None
    }
}

/// The slot a notification announces as newly paired, if any.
pub fn new_connection(n: &HidppNotification, known: &[u8], max_devices: u8) -> (r: Option<u8>)
    ensures
        r == spec_new_connection(*n, known@, max_devices),
{
    if n.sub_id != 0x41 || n.devnumber < 1 || n.devnumber > max_devices {
        return None;
    }
    let mut i: usize = 0;
    while i < known.len()
        invariant
            i <= known@.len(),
            forall|j: int| 0 <= j < i ==> known@[j] != n.devnumber,
        decreases known@.len() - i,
    {
        if known[i] == n.devnumber {
            assert(known@.contains(n.devnumber));
            return None;
        }
        i = i + 1;
    }
    Some(n.devnumber)
}

/// The flags to set so that pairing is reported: the old flags with
/// wireless notifications, or nothing when they already have them.
pub fn wireless_flags_needed(old: NotificationFlag) -> (r: Option<NotificationFlag>)
    ensures
        (old.bits & 0x000100) == 0x000100 ==> r is None,
        (old.bits & 0x000100) != 0x000100 ==> r == Some(NotificationFlag { bits: old.bits | 0x000100 }),
{
    if old.contains(NotificationFlag::wireless()) {
        None
    } else {
        Some(old | NotificationFlag::wireless())
    }
}

/// A device connection notification (sub-ID 0x41) announces a new device
/// exactly when it comes from a slot from 1 to the device count that was
/// not known; the slot announced is the notification's device number.
pub proof fn lemma_new_connection_meaning(n: HidppNotification, known: Seq<u8>, max_devices: u8)
    ensures
        spec_new_connection(n, known, max_devices) is Some <==> n.sub_id == 0x41 && 1 <= n.devnumber
            <= max_devices && forall|j: int| 0 <= j < known.len() ==> #[trigger] known[j] != n.devnumber,
        spec_new_connection(n, known, max_devices) matches Some(s) ==> s == n.devnumber,
{
    if n.sub_id == 0x41 && 1 <= n.devnumber <= max_devices && known.contains(n.devnumber) {
        let j = choose|j: int| 0 <= j < known.len() && known[j] == n.devnumber;
        assert(known[j] == n.devnumber);
    }
}

} // verus!
