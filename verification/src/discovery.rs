//! Finding things among the receivers: the devices paired to a receiver,
//! the receiver a query names, and the paired device a query names.

use vstd::prelude::*;
use crate::base::HidppChannel;
use crate::device::{Device, PairingInfo};
use crate::error::Error;
use crate::matching::{
    device_slot_arg, pairing_matches, receiver_matches, shown_device_matches, spec_is_named, spec_pairing_matches,
    spec_receiver_matches, spec_shown_device_matches, spec_slot_arg,
};
use crate::receiver::{spec_slot_answer, Receiver, DEVICE_NAME};

verus! {

/// What a device says of itself as a paired device.
pub open spec fn spec_device_pairing<C>(d: Device<C>) -> PairingInfo {
    PairingInfo {
        wpid: match d.wpid {
            Some(w) => w,
            None => 0,
        },
        kind: d.kind,
        serial: d.serial,
        polling_rate: d.polling_rate,
        power_switch: d.power_switch_location,
        codename: d.codename,
    }
}

/// Whether a device fresh from the receiver was pinged once: its protocol
/// and online state are what a ping answer its channel may give leaves.
pub open spec fn spec_pinged_once<C: HidppChannel>(d: Device<C>) -> bool {
    exists|a: Result<Option<crate::base::ProtocolVersion>, Error>|
        #[trigger] d.channel_spec().pings(d.number, d.long_message, a) && d.protocol
            == crate::device::spec_ping_outcome(d.number, None, false, a).0 && d.online
            == crate::device::spec_ping_outcome(d.number, None, false, a).1
}

/// A device paired in slot `n` on channel `handle`, with what the receiver
/// knows of it, pinged once.
fn pinged_device<C: HidppChannel>(handle: C, n: u8, info: PairingInfo) -> (d: Device<C>)
    ensures
        d.number == n,
        d.channel_spec() == handle,
        spec_device_pairing(d) == info,
        d.wpid == Some(info.wpid),
        !d.long_message,
        spec_pinged_once(d),
{
    let mut dev = Device::with_receiver(handle, n, false, info);
    let ghost d0 = dev;
    let pr = dev.ping();
    proof {
        let a = choose|a: Result<Option<crate::base::ProtocolVersion>, Error>|
            #[trigger] d0.channel_spec().pings(d0.number, d0.long_message, a) && (dev.protocol, dev.online, pr)
                == crate::device::spec_ping_outcome(d0.number, d0.protocol, d0.online, a);
        assert(dev.channel_spec().pings(dev.number, dev.long_message, a));
    }
    dev
}

/// The devices that the answers `outs` for slots 1, 2, ... give: the slot
/// number and pairing information of each answer that is a device, in slot
/// order.
pub open spec fn spec_found_devices(outs: Seq<Result<Option<PairingInfo>, Error>>) -> Seq<(u8, PairingInfo)>
    decreases outs.len(),
{
    if outs.len() == 0 {
        seq![]
    } else {
        let rest = spec_found_devices(outs.drop_last());
        match outs.last() {
            Ok(Some(info)) => rest.push((outs.len() as u8, info)),
            _ => rest,
        }
    }
}

/// Whether `outs` may be the answers of the receiver for slots 1 to
/// `outs.len()`, one each.
pub open spec fn spec_slot_answers<C: HidppChannel>(
    receiver: &Receiver<C>,
    outs: Seq<Result<Option<PairingInfo>, Error>>,
) -> bool {
    forall|k: int| 0 <= k < outs.len() ==> spec_slot_answer(receiver, (k + 1) as u8, #[trigger] outs[k])
}

/// The devices paired to `receiver`: one per slot from 1 to its device
/// count whose pairing information the receiver gives, in slot order, each
/// pinged once.
pub fn enumerate_paired_devices<C: HidppChannel + Clone>(receiver: &Receiver<C>) -> (r: Vec<Device<C>>)
    requires
        DEVICE_NAME + receiver.max_devices <= 0x100,
    ensures
        exists|outs: Seq<Result<Option<PairingInfo>, Error>>|
            #![trigger spec_found_devices(outs)]
            outs.len() == receiver.max_devices && spec_slot_answers(receiver, outs) && r@.len()
                == spec_found_devices(outs).len() && forall|i: int|
                0 <= i < r@.len() ==> #[trigger] r@[i].number == spec_found_devices(outs)[i].0
                    && spec_device_pairing(r@[i]) == spec_found_devices(outs)[i].1 && !r@[i].long_message
                    && spec_pinged_once(r@[i]),
        r@.len() <= receiver.max_devices,
        forall|i: int| 0 <= i < r@.len() ==> 1 <= #[trigger] r@[i].number <= receiver.max_devices && r@[i].wpid is Some,
        forall|i: int, j: int| 0 <= i < j < r@.len() ==> #[trigger] r@[i].number < #[trigger] r@[j].number,
{
    let mut devices: Vec<Device<C>> = Vec::new();
    let handle = receiver.hidpp_handle();
    let max = receiver.max_devices;
    let mut n: u8 = 1;
    let ghost mut outs: Seq<Result<Option<PairingInfo>, Error>> = seq![];
    while n <= max
        invariant
            1 <= n <= max as int + 1,
            DEVICE_NAME + max <= 0x100,
            max == receiver.max_devices,
            outs.len() == n - 1,
            spec_slot_answers(receiver, outs),
            devices@.len() == spec_found_devices(outs).len(),
            forall|i: int|
                0 <= i < devices@.len() ==> #[trigger] devices@[i].number == spec_found_devices(outs)[i].0
                    && spec_device_pairing(devices@[i]) == spec_found_devices(outs)[i].1 && !devices@[i].long_message
                    && spec_pinged_once(devices@[i]),
            devices@.len() <= n - 1,
            forall|i: int| 0 <= i < devices@.len() ==> 1 <= #[trigger] devices@[i].number < n && devices@[i].wpid is Some,
            forall|i: int, j: int| 0 <= i < j < devices@.len() ==> #[trigger] devices@[i].number < #[trigger] devices@[j].number,
        decreases max as int + 1 - n,
    {
        let answer = receiver.paired_device_info(n);
        let ghost o = answer;
        let ghost prev = outs;
        proof {
            outs = outs.push(o);
            assert(outs.drop_last() =~= prev);
            assert forall|k: int| 0 <= k < outs.len() implies spec_slot_answer(receiver, (k + 1) as u8, #[trigger] outs[k]) by {
                if k < prev.len() {
                    assert(outs[k] == prev[k]);
                }
            }
        }
        match answer {
            Ok(Some(info)) => {
                let dev = pinged_device(handle.clone(), n, info);
                devices.push(dev);
                assert(spec_found_devices(outs) == spec_found_devices(prev).push((n, info)));
            },
            _ => {
                assert(spec_found_devices(outs) == spec_found_devices(prev));
            },
        }
        n = n + 1;
    }
    devices
}

/// The index of the first receiver that a lower-cased query names: by a
/// part of its name or by its serial.
pub fn find_receiver<C>(receivers: &[Receiver<C>], name_lc: &str) -> (r: Option<usize>)
    ensures
        r matches Some(i) ==> i < receivers@.len() && spec_receiver_matches(
            name_lc@,
            receivers@[i as int].name@,
            receivers@[i as int].serial,
        ) && forall|j: int|
            0 <= j < i ==> !spec_receiver_matches(name_lc@, #[trigger] receivers@[j].name@, receivers@[j].serial),
        r is None ==> forall|j: int|
            0 <= j < receivers@.len() ==> !spec_receiver_matches(
                name_lc@,
                #[trigger] receivers@[j].name@,
                receivers@[j].serial,
            ),
{
    let mut i: usize = 0;
    while i < receivers.len()
        invariant
            i <= receivers@.len(),
            forall|j: int|
                0 <= j < i ==> !spec_receiver_matches(name_lc@, #[trigger] receivers@[j].name@, receivers@[j].serial),
        decreases receivers@.len() - i,
    {
        if receiver_matches(name_lc, receivers[i].name, &receivers[i].serial) {
            return Some(i);
        }
        i = i + 1;
    }
    None
}

/// Whether the receiver may answer for slot `n` with no device.
pub open spec fn spec_slot_has_no_device<C: HidppChannel>(rcv: &Receiver<C>, n: u8) -> bool {
    exists|o: Result<Option<PairingInfo>, Error>| #[trigger] spec_slot_answer(rcv, n, o) && !(o matches Ok(Some(_)))
}

/// Whether the receiver may answer for slot `n` with no device whose
/// codename or serial is the query.
pub open spec fn spec_slot_misses_query<C: HidppChannel>(rcv: &Receiver<C>, name_lc: Seq<char>, n: u8) -> bool {
    exists|o: Result<Option<PairingInfo>, Error>|
        #[trigger] spec_slot_answer(rcv, n, o) && !(o matches Ok(Some(info)) && spec_pairing_matches(name_lc, info))
}

/// Whether the receiver may answer for slot `n` with no device the query
/// names for display.
pub open spec fn spec_slot_misses_shown<C: HidppChannel>(rcv: &Receiver<C>, name_lc: Seq<char>, n: u8) -> bool {
    exists|o: Result<Option<PairingInfo>, Error>|
        #[trigger] spec_slot_answer(rcv, n, o) && !(o matches Ok(Some(info)) && spec_shown_device_matches(
            name_lc,
            info,
            n,
        ))
}

/// Whether `d` is built from a device the receiver may report in slot `n`.
pub open spec fn spec_slot_gives<C: HidppChannel>(rcv: &Receiver<C>, n: u8, d: Device<C>) -> bool {
    d.number == n && exists|info: PairingInfo|
        #[trigger] spec_slot_answer(rcv, n, Ok(Some(info))) && spec_device_pairing(d) == info
}

/// Whether the search by query passes over `rcv`: the slot the query names
/// as a number (if any) may hold no device, and no slot may hold a device
/// whose codename or serial is the query.
pub open spec fn spec_passed_by_query<C: HidppChannel>(rcv: &Receiver<C>, name_lc: Seq<char>) -> bool {
    &&& (spec_slot_arg(name_lc) matches Some(n) ==> spec_slot_has_no_device(rcv, n))
    &&& forall|k: u8| 1 <= k <= rcv.max_devices ==> #[trigger] spec_slot_misses_query(rcv, name_lc, k)
}

/// Whether the search by query finds `d` on `rcv`: the device in the slot
/// the query names as a number; or, that slot holding no device, the
/// device in the first slot whose codename or serial is the query.
pub open spec fn spec_found_by_query<C: HidppChannel>(rcv: &Receiver<C>, name_lc: Seq<char>, d: Device<C>) -> bool {
    ||| spec_slot_arg(name_lc) == Some(d.number) && spec_slot_gives(rcv, d.number, d)
    ||| (spec_slot_arg(name_lc) matches Some(n) ==> spec_slot_has_no_device(rcv, n)) && 1 <= d.number
        <= rcv.max_devices && (forall|k: u8| 1 <= k < d.number ==> #[trigger] spec_slot_misses_query(rcv, name_lc, k))
        && spec_slot_gives(rcv, d.number, d) && spec_pairing_matches(name_lc, spec_device_pairing(d))
}

/// A paired device that a lower-cased query names, with the index of its
/// receiver: over the receivers in order, the device in the slot the query
/// gives as a number from 1 to 6, else the first one whose codename or
/// serial is the query; pinged once.
pub fn find_device<C: HidppChannel + Clone>(receivers: &[Receiver<C>], name_lc: &str) -> (r: Option<
    (usize, Device<C>),
>)
    requires
        forall|i: int| 0 <= i < receivers@.len() ==> DEVICE_NAME + #[trigger] receivers@[i].max_devices <= 0x100,
    ensures
        r is None ==> forall|j: int| 0 <= j < receivers@.len() ==> spec_passed_by_query(&#[trigger] receivers@[j], name_lc@),
        r matches Some((ri, d)) ==> ri < receivers@.len() && (forall|j: int|
            0 <= j < ri ==> spec_passed_by_query(&#[trigger] receivers@[j], name_lc@)) && spec_found_by_query(
            &receivers@[ri as int],
            name_lc@,
            d,
        ) && spec_pinged_once(d) && d.wpid is Some,
{
    let slot = device_slot_arg(name_lc);
    let mut ri: usize = 0;
    while ri < receivers.len()
        invariant
            ri <= receivers@.len(),
            slot == spec_slot_arg(name_lc@),
            forall|i: int| 0 <= i < receivers@.len() ==> DEVICE_NAME + #[trigger] receivers@[i].max_devices <= 0x100,
            forall|j: int| 0 <= j < ri ==> spec_passed_by_query(&#[trigger] receivers@[j], name_lc@),
        decreases receivers@.len() - ri,
    {
        let receiver = &receivers[ri];
        let handle = receiver.hidpp_handle();
        if let Some(n) = slot {
            let answer = receiver.paired_device_info(n);
            let ghost o = answer;
            match answer {
                Ok(Some(info)) => {
                    let dev = pinged_device(handle.clone(), n, info);
                    assert(spec_slot_gives(receiver, n, dev));
                    return Some((ri, dev));
                },
                _ => {
                    assert(spec_slot_answer(receiver, n, o));
                    assert(spec_slot_has_no_device(receiver, n));
                },
            }
        }
        let max = receiver.max_devices;
        let mut n: u8 = 1;
        while n <= max
            invariant
                1 <= n <= max as int + 1,
                DEVICE_NAME + max <= 0x100,
                max == receiver.max_devices,
                ri < receivers@.len(),
                receiver == &receivers@[ri as int],
                slot == spec_slot_arg(name_lc@),
                forall|j: int| 0 <= j < ri ==> spec_passed_by_query(&#[trigger] receivers@[j], name_lc@),
                spec_slot_arg(name_lc@) matches Some(s) ==> spec_slot_has_no_device(receiver, s),
                forall|k: u8| 1 <= k < n ==> #[trigger] spec_slot_misses_query(receiver, name_lc@, k),
            decreases max as int + 1 - n,
        {
            let answer = receiver.paired_device_info(n);
            let ghost o = answer;
            match answer {
                Ok(Some(info)) => {
                    if pairing_matches(name_lc, &info) {
                        let dev = pinged_device(handle.clone(), n, info);
                        assert(spec_slot_gives(receiver, n, dev));
                        return Some((ri, dev));
                    }
                },
                _ => {},
            }
            assert(spec_slot_answer(receiver, n, o));
            assert(spec_slot_misses_query(receiver, name_lc@, n));
            n = n + 1;
        }
        assert(spec_passed_by_query(receiver, name_lc@));
        ri = ri + 1;
    }
    None
}

/// Whether the search for display passes over `rcv`: no slot may hold a
/// device the query names for display.
pub open spec fn spec_passed_for_display<C: HidppChannel>(rcv: &Receiver<C>, name_lc: Seq<char>) -> bool {
    forall|k: u8| 1 <= k <= rcv.max_devices ==> #[trigger] spec_slot_misses_shown(rcv, name_lc, k)
}

/// The first paired device, over the receivers in order and their slots in
/// order, that a lower-cased query names for display: by codename, serial,
/// slot number or a part of its codename; pinged once.
pub fn find_shown_device<C: HidppChannel + Clone>(receivers: &[Receiver<C>], name_lc: &str) -> (r: Option<
    Device<C>,
>)
    requires
        forall|i: int| 0 <= i < receivers@.len() ==> DEVICE_NAME + #[trigger] receivers@[i].max_devices <= 0x100,
    ensures
        r is None ==> forall|j: int| 0 <= j < receivers@.len() ==> spec_passed_for_display(&#[trigger] receivers@[j], name_lc@),
        r matches Some(d) ==> exists|ri: int|
            0 <= ri < receivers@.len() && (forall|j: int|
                0 <= j < ri ==> spec_passed_for_display(&#[trigger] receivers@[j], name_lc@)) && 1 <= d.number
                <= receivers@[ri].max_devices && (forall|k: u8|
                1 <= k < d.number ==> #[trigger] spec_slot_misses_shown(&receivers@[ri], name_lc@, k))
                && #[trigger] spec_slot_gives(&receivers@[ri], d.number, d),
        r matches Some(d) ==> d.wpid is Some && 1 <= d.number && spec_shown_device_matches(
            name_lc@,
            spec_device_pairing(d),
            d.number,
        ) && spec_pinged_once(d),
{
    let mut ri: usize = 0;
    while ri < receivers.len()
        invariant
            ri <= receivers@.len(),
            forall|i: int| 0 <= i < receivers@.len() ==> DEVICE_NAME + #[trigger] receivers@[i].max_devices <= 0x100,
            forall|j: int| 0 <= j < ri ==> spec_passed_for_display(&#[trigger] receivers@[j], name_lc@),
        decreases receivers@.len() - ri,
    {
        let receiver = &receivers[ri];
        let handle = receiver.hidpp_handle();
        let max = receiver.max_devices;
        let mut n: u8 = 1;
        while n <= max
            invariant
                1 <= n <= max as int + 1,
                DEVICE_NAME + max <= 0x100,
                max == receiver.max_devices,
                ri < receivers@.len(),
                receiver == &receivers@[ri as int],
                forall|j: int| 0 <= j < ri ==> spec_passed_for_display(&#[trigger] receivers@[j], name_lc@),
                forall|k: u8| 1 <= k < n ==> #[trigger] spec_slot_misses_shown(receiver, name_lc@, k),
            decreases max as int + 1 - n,
        {
            let answer = receiver.paired_device_info(n);
            let ghost o = answer;
            match answer {
                Ok(Some(info)) => {
                    if shown_device_matches(name_lc, &info, n) {
                        let dev = pinged_device(handle.clone(), n, info);
                        assert(spec_slot_gives(receiver, n, dev));
                        return Some(dev);
                    }
                },
                _ => {},
            }
            assert(spec_slot_answer(receiver, n, o));
            assert(spec_slot_misses_shown(receiver, name_lc@, n));
            n = n + 1;
        }
        assert(spec_passed_for_display(receiver, name_lc@));
        ri = ri + 1;
    }
    None
}

} // verus!
