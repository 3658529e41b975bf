//! What the D-Bus daemon publishes: object paths of receivers and devices,
//! the indices that name receivers, device kind and battery labels, and the
//! pairing state that lock notifications drive.

use vstd::prelude::*;
use vstd::string::StringExecFns;
use crate::common::{Battery, BatteryStatus};
use crate::hidpp10_constants::{DeviceKind, SUB_ID_LOCK_INFORMATION};
use crate::message::{HidppNotification, RECEIVER_DEVICE_NUMBER};
use crate::text::push_decimal;

verus! {

/// The object path of receiver `index`.
pub open spec fn spec_receiver_path(index: usize) -> Seq<char> {
    "/org/solaarsd/receiver"@ + crate::text::spec_decimal(index as nat)
}

/// The object path of receiver `index`.
pub fn receiver_path(index: usize) -> (r: String)
    ensures
        r@ == spec_receiver_path(index),
{
    let mut s = String::from_str("/org/solaarsd/receiver");
    push_decimal(&mut s, index as u64);
    s
}

/// The object path of device `number` on receiver `receiver_index`.
pub open spec fn spec_device_path(receiver_index: usize, number: u8) -> Seq<char> {
    spec_receiver_path(receiver_index) + "/dev"@ + crate::text::spec_decimal(number as nat)
}

/// The object path of device `number` on receiver `receiver_index`.
pub fn device_path(receiver_index: usize, number: u8) -> (r: String)
    ensures
        r@ == spec_device_path(receiver_index, number),
{
    let mut s = receiver_path(receiver_index);
    s.append("/dev");
    push_decimal(&mut s, number as u64);
    s
}

/// The indices given to receivers: each one is new, never reused within a
/// session, so that object paths stay stable after a receiver reconnects.
pub struct ReceiverIndices {
    next: usize,
}

impl ReceiverIndices {
    /// The index the next receiver gets.
    pub closed spec fn next_view(&self) -> usize {
        self.next
    }

    /// No index given yet; the first is 0.
    pub fn new() -> (r: Self)
        ensures
            r.next_view() == 0,
    {
        ReceiverIndices { next: 0 }
    }

    /// The index the next receiver gets.
    pub fn peek(&self) -> (r: usize)
        ensures
            r == self.next_view(),
    {
        self.next
    }

    /// Give the next index: above every index given before.
    pub fn next_receiver_index(&mut self) -> (r: usize)
        requires
            old(self).next_view() < usize::MAX,
        ensures
            r == old(self).next_view(),
            final(self).next_view() == old(self).next_view() + 1,
    {
        let idx = self.next;
        self.next = self.next + 1;
        idx
    }
}

/// Two receivers given indices one after the other get different indices,
/// the later one larger.
pub proof fn lemma_indices_never_reused(a: ReceiverIndices, b: ReceiverIndices, c: ReceiverIndices, i: usize, j: usize)
    requires
        i == a.next_view(),
        b.next_view() == a.next_view() + 1,
        j == b.next_view(),
        c.next_view() == b.next_view() + 1,
    ensures
        i < j,
        c.next_view() > j,
{
}

/// Over any run of calls, each handing out the counter and moving it on by
/// one, the indices handed out count up from the first one, `c`, `c + 1`,
/// `c + 2`, ..., so none is handed out twice.
pub proof fn lemma_indices_count_up(states: Seq<ReceiverIndices>)
    requires
        forall|k: int|
            0 <= k < states.len() - 1 ==> #[trigger] states[k + 1].next_view() == states[k].next_view() + 1,
    ensures
        forall|k: int| 0 <= k < states.len() ==> #[trigger] states[k].next_view() == states[0].next_view() + k,
        forall|i: int, j: int|
            0 <= i < j < states.len() ==> #[trigger] states[i].next_view() < #[trigger] states[j].next_view(),
    decreases states.len(),
{
    if states.len() > 1 {
        let front = states.drop_last();
        assert forall|k: int| 0 <= k < front.len() - 1 implies #[trigger] front[k + 1].next_view()
            == front[k].next_view() + 1 by {
            assert(front[k + 1] == states[k + 1]);
            assert(front[k] == states[k]);
        }
        lemma_indices_count_up(front);
        assert forall|k: int| 0 <= k < states.len() implies #[trigger] states[k].next_view() == states[0].next_view()
            + k by {
            if k < states.len() - 1 {
                assert(front[k] == states[k]);
            } else {
                let j = k - 1;
                assert(states[j] == front[j]);
                assert(states[j + 1].next_view() == states[j].next_view() + 1);
            }
        }
    }
}

/// The label of a device kind: keyboard, mouse, numpad, presenter,
/// trackball, touchpad, headset, receiver, or unknown.
pub fn kind_label(kind: Option<DeviceKind>) -> (r: &'static str)
    ensures
        r@ == match kind {
            Some(DeviceKind::Keyboard) => "keyboard"@,
            Some(DeviceKind::Mouse) => "mouse"@,
            Some(DeviceKind::Numpad) => "numpad"@,
            Some(DeviceKind::Presenter) => "presenter"@,
            Some(DeviceKind::Trackball) => "trackball"@,
            Some(DeviceKind::Touchpad) => "touchpad"@,
            Some(DeviceKind::Headset) => "headset"@,
            Some(DeviceKind::Receiver) => "receiver"@,
            _ => "unknown"@,
        },
{
    match kind {
        Some(DeviceKind::Keyboard) => "keyboard",
        Some(DeviceKind::Mouse) => "mouse",
        Some(DeviceKind::Numpad) => "numpad",
        Some(DeviceKind::Presenter) => "presenter",
        Some(DeviceKind::Trackball) => "trackball",
        Some(DeviceKind::Touchpad) => "touchpad",
        Some(DeviceKind::Headset) => "headset",
        Some(DeviceKind::Receiver) => "receiver",
        _ => "unknown",
    }
}

/// The label of a battery status: full, almost_full, recharging,
/// slow_recharge, discharging, invalid, thermal_error, or unknown.
pub fn battery_status_label(status: Option<BatteryStatus>) -> (r: &'static str)
    ensures
        r@ == match status {
            Some(BatteryStatus::Full) => "full"@,
            Some(BatteryStatus::AlmostFull) => "almost_full"@,
            Some(BatteryStatus::Recharging) => "recharging"@,
            Some(BatteryStatus::SlowRecharge) => "slow_recharge"@,
            Some(BatteryStatus::Discharging) => "discharging"@,
            Some(BatteryStatus::InvalidBattery) => "invalid"@,
            Some(BatteryStatus::ThermalError) => "thermal_error"@,
            None => "unknown"@,
        },
{
    match status {
        Some(BatteryStatus::Full) => "full",
        Some(BatteryStatus::AlmostFull) => "almost_full",
        Some(BatteryStatus::Recharging) => "recharging",
        Some(BatteryStatus::SlowRecharge) => "slow_recharge",
        Some(BatteryStatus::Discharging) => "discharging",
        Some(BatteryStatus::InvalidBattery) => "invalid",
        Some(BatteryStatus::ThermalError) => "thermal_error",
        None => "unknown",
    }
}

/// The battery percentage published for a reading, 0 to 100 (a level above
/// 100 is published as 100), -1 when there is no level.
pub fn battery_level_value(b: Option<Battery>) -> (r: i32)
    ensures
        r == match b {
            Some(bb) => match bb.level {
                Some(l) => if l <= 100 {
                    l as int
                } else {
                    100int
                },
                None => -1int,
            },
            None => -1int,
        },
        -1 <= r <= 100,
{
    match b {
        Some(bb) => match bb.level {
            Some(l) => if l <= 100 {
                l as i32
            } else {
                100
            },
            None => -1,
        },
        None => -1,
    }
}

/// What a lock-information notification from the receiver says: whether
/// the pairing window is open for discovery (first data byte 1); nothing
/// for other notifications.
pub open spec fn spec_lock_event(n: HidppNotification) -> Option<bool> {
    if n.devnumber == RECEIVER_DEVICE_NUMBER && n.sub_id == SUB_ID_LOCK_INFORMATION {
        Some(n.data@.len() > 0 && n.data@[0] == 1)
    } else {
        None
    }
}

/// What a lock-information notification from the receiver says.
pub fn lock_event(n: &HidppNotification) -> (r: Option<bool>)
    ensures
        r == spec_lock_event(*n),
{
    if n.devnumber == RECEIVER_DEVICE_NUMBER && n.sub_id == SUB_ID_LOCK_INFORMATION {
        Some(n.data.len() > 0 && n.data[0] == 1)
    } else {
        None
    }
}

/// A lock-information notification (sub-ID 0x4A) from the receiver
/// (device number 0xFF) says the pairing window is open exactly when its
/// first data byte is 1; no other notification says anything of it.
pub proof fn lemma_lock_event_meaning(n: HidppNotification)
    ensures
        n.devnumber == 0xFF && n.sub_id == 0x4A ==> spec_lock_event(n) == Some(n.data@.len() > 0 && n.data@[0]
            == 1),
        !(n.devnumber == 0xFF && n.sub_id == 0x4A) ==> spec_lock_event(n) is None,
{
}

} // verus!
