//! HID++ message constants and the recognition of notifications among the
//! messages a device sends.

use vstd::prelude::*;
use crate::text::{push_char, push_decimal, push_debug_bytes, push_hex_byte};

verus! {

/// Report ID of a HID++ short message (7 bytes in all).
pub const HIDPP_SHORT_MESSAGE_ID: u8 = 0x10;

/// Report ID of a HID++ long message (20 bytes in all).
pub const HIDPP_LONG_MESSAGE_ID: u8 = 0x11;

/// Report ID of a DJ message (15 bytes in all).
pub const DJ_MESSAGE_ID: u8 = 0x20;

/// Report ID of a long DJ message (32 bytes in all).
pub const DJ_LONG_MESSAGE_ID: u8 = 0x21;

pub const SHORT_MESSAGE_SIZE: usize = 7;

pub const LONG_MESSAGE_SIZE: usize = 20;

pub const MEDIUM_MESSAGE_SIZE: usize = 15;

pub const MAX_READ_SIZE: usize = 32;

/// The Logitech USB vendor ID.
pub const LOGITECH_VENDOR_ID: u16 = 0x046D;

/// Device number that addresses the receiver itself.
pub const RECEIVER_DEVICE_NUMBER: u8 = 0xFF;

/// A decoded HID++ notification from a device or receiver: an unsolicited
/// message reporting an event such as a key press, a battery change or a
/// pairing event.
#[derive(Debug, Clone)]
pub struct HidppNotification {
    pub report_id: u8,
    pub devnumber: u8,
    pub sub_id: u8,
    pub address: u8,
    /// Payload bytes after the sub-ID and address bytes.
    pub data: Vec<u8>,
}

/// Whether a message body (the bytes after report ID and device number) is
/// a notification rather than a request reply, a no-op or a DJ input record.
pub open spec fn spec_is_notification(report_id: u8, data: Seq<u8>) -> bool {
    let sub_id = data[0];
    let address: u8 = if data.len() > 1 {
        data[1]
    } else {
        0
    };
    &&& data.len() > 0
    // HID++ 1.0 register replies and error replies have bit 7 set.
    &&& sub_id & 0x80 != 0x80
    // DJ input records are not notifications.
    &&& !(report_id == DJ_MESSAGE_ID && sub_id < 0x10)
    // No-op.
    &&& !(sub_id == 0x00 && address & 0x0F == 0x00)
    &&& {
        ||| sub_id >= 0x40
        // HID++ 1.0 battery events
        ||| ((sub_id == 0x07 || sub_id == 0x0D) && data.len() == 5 && data[4] == 0x00)
        // HID++ 1.0 illumination event
        ||| (sub_id == 0x17 && data.len() == 5)
        // HID++ 2.0 feature notifications have software ID 0.
        ||| address & 0x0F == 0x00
    }
}

impl HidppNotification {
    /// Parse a raw HID++ message body as a notification.
    ///
    /// `data` is the message starting after the report ID and device number.
    /// Returns `None` for request replies, no-ops and DJ input records.
    pub fn from_raw(report_id: u8, devnumber: u8, data: &[u8]) -> (r: Option<HidppNotification>)
        ensures
            r is Some <==> spec_is_notification(report_id, data@),
            r matches Some(n) ==> {
                &&& n.report_id == report_id
                &&& n.devnumber == devnumber
                &&& n.sub_id == data@[0]
                &&& n.address == (if data@.len() > 1 {
                    data@[1]
                } else {
                    0u8
                })
                &&& n.data@ == (if data@.len() >= 2 {
                    data@.skip(2)
                } else {
                    Seq::<u8>::empty()
                })
            },
    {
        if data.len() == 0 {
            return None;
        }
        let sub_id: u8 = data[0];
        if sub_id & 0x80 == 0x80 {
            return None;
        }
        if report_id == DJ_MESSAGE_ID && sub_id < 0x10 {
            return None;
        }
        let address: u8 = if data.len() > 1 {
            data[1]
        } else {
            0
        };
        if sub_id == 0x00 && address & 0x0F == 0x00 {
            return None;
        }
        let is_notification: bool = sub_id >= 0x40 || ((sub_id == 0x07 || sub_id == 0x0D)
            && data.len() == 5 && data[4] == 0x00) || (sub_id == 0x17 && data.len() == 5) || (
        address & 0x0F == 0x00);
        if is_notification {
            let mut payload: Vec<u8> = Vec::new();
            if data.len() > 2 {
                let mut i: usize = 2;
                while i < data.len()
                    invariant
                        2 <= i <= data.len(),
                        payload@ == data@.subrange(2, i as int),
                    decreases data.len() - i,
                {
                    payload.push(data[i]);
                    i = i + 1;
                    assert(payload@ =~= data@.subrange(2, i as int));
                }
                assert(payload@ =~= data@.skip(2));
            }
            Some(HidppNotification { report_id, devnumber, sub_id, address, data: payload })
        } else {
            None
        }
    }

    /// The text that describes this notification:
    /// `Notification(rr,d,SS,AA,[x, y, ...])`, with the report ID in lower
    /// case hexadecimal, the device number in decimal, the sub-ID and
    /// address in upper case hexadecimal and the payload as a decimal list.
    pub fn to_display_string(&self) -> (r: String)
        ensures
            r@ == spec_notification_text(*self),
    {
        let mut s = String::new();
        push_char(&mut s, 'N');
        push_char(&mut s, 'o');
        push_char(&mut s, 't');
        push_char(&mut s, 'i');
        push_char(&mut s, 'f');
        push_char(&mut s, 'i');
        push_char(&mut s, 'c');
        push_char(&mut s, 'a');
        push_char(&mut s, 't');
        push_char(&mut s, 'i');
        push_char(&mut s, 'o');
        push_char(&mut s, 'n');
        push_char(&mut s, '(');
        push_hex_byte(&mut s, self.report_id, false);
        push_char(&mut s, ',');
        push_decimal(&mut s, self.devnumber as u64);
        push_char(&mut s, ',');
        push_hex_byte(&mut s, self.sub_id, true);
        push_char(&mut s, ',');
        push_hex_byte(&mut s, self.address, true);
        push_char(&mut s, ',');
        push_debug_bytes(&mut s, self.data.as_slice());
        push_char(&mut s, ')');
        assert(s@ =~= spec_notification_text(*self));
        s
    }
}

/// The text that describes a notification.
pub open spec fn spec_notification_text(n: HidppNotification) -> Seq<char> {
    seq!['N', 'o', 't', 'i', 'f', 'i', 'c', 'a', 't', 'i', 'o', 'n', '('] + crate::text::spec_hex_byte(
        n.report_id,
        false,
    ) + seq![','] + crate::text::spec_decimal(n.devnumber as nat) + seq![','] + crate::text::spec_hex_byte(n.sub_id, true)
        + seq![','] + crate::text::spec_hex_byte(n.address, true) + seq![','] + crate::text::spec_debug_bytes(n.data@)
        + seq![')']
}

/// A message whose sub-ID has bit 7 set is never a notification: register
/// replies and error replies are always told apart from events.
pub proof fn lemma_register_replies_are_not_notifications(report_id: u8, data: Seq<u8>)
    requires
        data.len() > 0,
        data[0] >= 0x80,
    ensures
        !spec_is_notification(report_id, data),
{
    let s = data[0];
    assert(s >= 0x80 ==> s & 0x80 == 0x80) by (bit_vector);
}

/// Every sub-ID from 0x40 to 0x7F is a notification, whatever the rest of
/// the message holds.
pub proof fn lemma_high_sub_ids_are_notifications(report_id: u8, data: Seq<u8>)
    requires
        data.len() > 0,
        0x40 <= data[0] < 0x80,
    ensures
        spec_is_notification(report_id, data),
{
    let s = data[0];
    assert(0x40 <= s < 0x80 ==> s & 0x80 != 0x80) by (bit_vector);
}

/// Every five-byte HID++ 1.0 battery event (sub-ID 0x07 or 0x0D, last
/// byte zero) and every five-byte illumination event (sub-ID 0x17) is a
/// notification, on any report but a DJ one.
pub proof fn lemma_hidpp10_events_are_notifications(report_id: u8, data: Seq<u8>)
    requires
        report_id != 0x20,
        data.len() == 5,
        (data[0] == 0x07 || data[0] == 0x0D) && data[4] == 0 || data[0] == 0x17,
    ensures
        spec_is_notification(report_id, data),
{
    let s = data[0];
    assert(s < 0x80 ==> s & 0x80 != 0x80) by (bit_vector);
}

/// A HID++ 2.0 feature event (sub-ID, the feature index, from 0x10 to 0x7F,
/// and software ID 0 in the low nibble of the address) is a notification.
pub proof fn lemma_feature_events_are_notifications(report_id: u8, data: Seq<u8>)
    requires
        data.len() >= 2,
        0x10 <= data[0] < 0x80,
        data[1] % 16 == 0,
    ensures
        spec_is_notification(report_id, data),
{
    let s = data[0];
    let a = data[1];
    assert(s < 0x80 ==> s & 0x80 != 0x80) by (bit_vector);
    assert(a & 0x0F == a % 16) by (bit_vector);
}

/// A reply to a HID++ 2.0 request (sub-ID below 0x40 that is not one of the
/// HID++ 1.0 events, software ID not 0) is not a notification, nor is a
/// DJ input record (sub-ID below 0x10 on a DJ report), nor an empty body.
pub proof fn lemma_replies_are_not_notifications(report_id: u8, data: Seq<u8>)
    ensures
        data.len() == 0 ==> !spec_is_notification(report_id, data),
        data.len() > 0 && report_id == 0x20 && data[0] < 0x10 ==> !spec_is_notification(report_id, data),
        data.len() >= 2 && data[0] < 0x40 && data[0] != 0x07 && data[0] != 0x0D && data[0] != 0x17 && data[1]
            % 16 != 0 ==> !spec_is_notification(report_id, data),
{
    if data.len() >= 2 {
        let a = data[1];
        assert(a & 0x0F == a % 16) by (bit_vector);
    }
}

} // verus!
