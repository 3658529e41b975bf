//! Known Logitech USB receivers: product IDs, USB interfaces, kinds and
//! pairing capabilities.

use vstd::prelude::*;
use crate::common::LOGITECH_VENDOR_ID;

verus! {

/// High-level receiver kind, which decides the protocol variant to use.
#[derive(Debug, Clone, Copy, PartialEq, Eq, Structural)]
pub enum ReceiverKind {
    /// Bolt receivers (yellow lightning bolt logo).
    Bolt,
    /// Standard Unifying receivers (orange logo).
    Unifying,
    /// Nano receivers (budget, typically one device).
    Nano,
    /// Lightspeed receivers (gaming).
    Lightspeed,
    /// Old-style EX100 27 MHz receivers.
    Ex100_27Mhz,
}

/// Static information about a known Logitech receiver.
#[derive(Debug, Clone, Copy)]
pub struct ReceiverInfo {
    pub vendor_id: u16,
    pub product_id: u16,
    /// USB interface number to open.
    pub usb_interface: u8,
    pub name: &'static str,
    pub kind: ReceiverKind,
    /// Maximum number of simultaneously paired devices.
    pub max_devices: u8,
    /// Whether the user can initiate unpairing.
    pub may_unpair: bool,
    /// Whether this receiver replaces (re-pairs) the current paired device.
    pub re_pairs: bool,
}

pub open spec fn spec_bolt(pid: u16) -> ReceiverInfo {
    ReceiverInfo {
        vendor_id: LOGITECH_VENDOR_ID,
        product_id: pid,
        usb_interface: 2,
        name: "Bolt Receiver",
        kind: ReceiverKind::Bolt,
        max_devices: 6,
        may_unpair: true,
        re_pairs: false,
    }
}

pub open spec fn spec_unifying(pid: u16) -> ReceiverInfo {
    ReceiverInfo {
        vendor_id: LOGITECH_VENDOR_ID,
        product_id: pid,
        usb_interface: 2,
        name: "Unifying Receiver",
        kind: ReceiverKind::Unifying,
        max_devices: 6,
        may_unpair: true,
        re_pairs: false,
    }
}

pub open spec fn spec_nano(pid: u16, max: u8) -> ReceiverInfo {
    ReceiverInfo {
        vendor_id: LOGITECH_VENDOR_ID,
        product_id: pid,
        usb_interface: 1,
        name: "Nano Receiver",
        kind: ReceiverKind::Nano,
        max_devices: max,
        may_unpair: false,
        re_pairs: true,
    }
}

pub open spec fn spec_lightspeed(pid: u16) -> ReceiverInfo {
    ReceiverInfo {
        vendor_id: LOGITECH_VENDOR_ID,
        product_id: pid,
        usb_interface: 2,
        name: "Lightspeed Receiver",
        kind: ReceiverKind::Lightspeed,
        max_devices: 1,
        may_unpair: false,
        re_pairs: true,
    }
}

pub open spec fn spec_ex100(pid: u16) -> ReceiverInfo {
    ReceiverInfo {
        vendor_id: LOGITECH_VENDOR_ID,
        product_id: pid,
        usb_interface: 1,
        name: "EX100 Receiver 27 MHz",
        kind: ReceiverKind::Ex100_27Mhz,
        max_devices: 4,
        may_unpair: false,
        re_pairs: true,
    }
}

fn bolt(pid: u16) -> (r: ReceiverInfo)
    ensures
        r == spec_bolt(pid),
{
    ReceiverInfo {
        vendor_id: LOGITECH_VENDOR_ID,
        product_id: pid,
        usb_interface: 2,
        name: "Bolt Receiver",
        kind: ReceiverKind::Bolt,
        max_devices: 6,
        may_unpair: true,
        re_pairs: false,
    }
}

fn unifying(pid: u16) -> (r: ReceiverInfo)
    ensures
        r == spec_unifying(pid),
{
    ReceiverInfo {
        vendor_id: LOGITECH_VENDOR_ID,
        product_id: pid,
        usb_interface: 2,
        name: "Unifying Receiver",
        kind: ReceiverKind::Unifying,
        max_devices: 6,
        may_unpair: true,
        re_pairs: false,
    }
}

fn nano(pid: u16, max: u8) -> (r: ReceiverInfo)
    ensures
        r == spec_nano(pid, max),
{
    ReceiverInfo {
        vendor_id: LOGITECH_VENDOR_ID,
        product_id: pid,
        usb_interface: 1,
        name: "Nano Receiver",
        kind: ReceiverKind::Nano,
        max_devices: max,
        may_unpair: false,
        re_pairs: true,
    }
}

fn lightspeed(pid: u16) -> (r: ReceiverInfo)
    ensures
        r == spec_lightspeed(pid),
{
    ReceiverInfo {
        vendor_id: LOGITECH_VENDOR_ID,
        product_id: pid,
        usb_interface: 2,
        name: "Lightspeed Receiver",
        kind: ReceiverKind::Lightspeed,
        max_devices: 1,
        may_unpair: false,
        re_pairs: true,
    }
}

fn ex100(pid: u16) -> (r: ReceiverInfo)
    ensures
        r == spec_ex100(pid),
{
    ReceiverInfo {
        vendor_id: LOGITECH_VENDOR_ID,
        product_id: pid,
        usb_interface: 1,
        name: "EX100 Receiver 27 MHz",
        kind: ReceiverKind::Ex100_27Mhz,
        max_devices: 4,
        may_unpair: false,
        re_pairs: true,
    }
}

/// The table of all known Logitech receivers, keyed by product ID.
pub open spec fn spec_known_receivers() -> Seq<(u16, ReceiverInfo)> {
    seq![
        (0xC548u16, spec_bolt(0xC548)),
        (0xC52Bu16, spec_unifying(0xC52B)),
        (0xC532u16, spec_unifying(0xC532)),
        (0xC52Fu16, spec_nano(0xC52F, 1)),
        (0xC518u16, spec_nano(0xC518, 1)),
        (0xC51Au16, spec_nano(0xC51A, 1)),
        (0xC51Bu16, spec_nano(0xC51B, 1)),
        (0xC521u16, spec_nano(0xC521, 1)),
        (0xC525u16, spec_nano(0xC525, 1)),
        (0xC526u16, spec_nano(0xC526, 1)),
        (0xC52Eu16, spec_nano(0xC52E, 1)),
        (0xC531u16, spec_nano(0xC531, 1)),
        (0xC534u16, spec_nano(0xC534, 2)),
        (0xC535u16, spec_nano(0xC535, 1)),
        (0xC537u16, spec_nano(0xC537, 1)),
        (0xC539u16, spec_lightspeed(0xC539)),
        (0xC53Au16, spec_lightspeed(0xC53A)),
        (0xC53Du16, spec_lightspeed(0xC53D)),
        (0xC53Fu16, spec_lightspeed(0xC53F)),
        (0xC541u16, spec_lightspeed(0xC541)),
        (0xC545u16, spec_lightspeed(0xC545)),
        (0xC547u16, spec_lightspeed(0xC547)),
        (0xC54Du16, spec_lightspeed(0xC54D)),
        (0xC517u16, spec_ex100(0xC517))
    ]
}

/// The table of all known Logitech receivers, keyed by product ID.
pub fn known_receivers() -> (r: Vec<(u16, ReceiverInfo)>)
    ensures
        r@ == spec_known_receivers(),
{
    let mut v: Vec<(u16, ReceiverInfo)> = Vec::new();
    v.push((0xC548, bolt(0xC548)));
    v.push((0xC52B, unifying(0xC52B)));
    v.push((0xC532, unifying(0xC532)));
    v.push((0xC52F, nano(0xC52F, 1)));
    v.push((0xC518, nano(0xC518, 1)));
    v.push((0xC51A, nano(0xC51A, 1)));
    v.push((0xC51B, nano(0xC51B, 1)));
    v.push((0xC521, nano(0xC521, 1)));
    v.push((0xC525, nano(0xC525, 1)));
    v.push((0xC526, nano(0xC526, 1)));
    v.push((0xC52E, nano(0xC52E, 1)));
    v.push((0xC531, nano(0xC531, 1)));
    v.push((0xC534, nano(0xC534, 2)));
    v.push((0xC535, nano(0xC535, 1)));
    v.push((0xC537, nano(0xC537, 1)));
    v.push((0xC539, lightspeed(0xC539)));
    v.push((0xC53A, lightspeed(0xC53A)));
    v.push((0xC53D, lightspeed(0xC53D)));
    v.push((0xC53F, lightspeed(0xC53F)));
    v.push((0xC541, lightspeed(0xC541)));
    v.push((0xC545, lightspeed(0xC545)));
    v.push((0xC547, lightspeed(0xC547)));
    v.push((0xC54D, lightspeed(0xC54D)));
    v.push((0xC517, ex100(0xC517)));
    assert(v@ =~= spec_known_receivers());
    v
}

/// The information of the first table entry with key `pid`.
pub open spec fn spec_lookup(t: Seq<(u16, ReceiverInfo)>, pid: u16) -> Option<ReceiverInfo>
    decreases t.len(),
{
    if t.len() == 0 {
        None
    } else if t[0].0 == pid {
        Some(t[0].1)
    } else {
        spec_lookup(t.skip(1), pid)
    }
}

/// The information of a known receiver, or `None` when `product_id` is not
/// a known Logitech receiver.
pub fn get_receiver_info(product_id: u16) -> (r: Option<ReceiverInfo>)
    ensures
        r == spec_lookup(spec_known_receivers(), product_id),
{
    let table = known_receivers();
    let mut i: usize = 0;
    assert(table@.skip(0) =~= table@);
    while i < table.len()
        invariant
            i <= table.len(),
            table@ == spec_known_receivers(),
            spec_lookup(table@, product_id) == spec_lookup(table@.skip(i as int), product_id),
        decreases table.len() - i,
    {
        let ghost rest = table@.skip(i as int);
        assert(rest.skip(1) =~= table@.skip(i + 1));
        if table[i].0 == product_id {
            return Some(table[i].1);
        }
        i = i + 1;
    }
    None
}

/// Whether the USB product ID lies in the range of (possibly unknown)
/// Logitech receivers.
pub fn is_receiver_product_id(product_id: u16) -> (r: bool)
    ensures
        r == (0xC500 <= product_id <= 0xC5FF),
{
    0xC500 <= product_id && product_id <= 0xC5FF
}

/// Every entry of the receiver table is keyed by its own product ID, has the
/// Logitech vendor ID and a product ID in the receiver range, and Bolt
/// receivers use USB interface 2.
pub proof fn lemma_known_receivers_consistent(i: int)
    requires
        0 <= i < spec_known_receivers().len(),
    ensures
        spec_known_receivers()[i].0 == spec_known_receivers()[i].1.product_id,
        spec_known_receivers()[i].1.vendor_id == LOGITECH_VENDOR_ID,
        0xC500 <= spec_known_receivers()[i].0 <= 0xC5FF,
        spec_known_receivers()[i].1.kind == ReceiverKind::Bolt ==> spec_known_receivers()[i].1.usb_interface == 2,
        1 <= spec_known_receivers()[i].1.max_devices <= 6,
{
}

/// A lookup only ever finds an entry of the table, under its own key.
proof fn lemma_lookup_finds_entry(t: Seq<(u16, ReceiverInfo)>, pid: u16)
    ensures
        spec_lookup(t, pid) matches Some(info) ==> exists|i: int|
            0 <= i < t.len() && t[i].0 == pid && #[trigger] t[i].1 == info,
    decreases t.len(),
{
    if t.len() > 0 && t[0].0 != pid {
        lemma_lookup_finds_entry(t.skip(1), pid);
        if let Some(info) = spec_lookup(t.skip(1), pid) {
            let j = choose|j: int| 0 <= j < t.skip(1).len() && t.skip(1)[j].0 == pid && #[trigger] t.skip(1)[j].1 == info;
            assert(t[j + 1].1 == info);
        }
    }
}

/// A lookup finds something exactly when some entry has the key.
proof fn lemma_lookup_some_iff_key(t: Seq<(u16, ReceiverInfo)>, pid: u16)
    ensures
        spec_lookup(t, pid) is Some <==> exists|i: int| 0 <= i < t.len() && #[trigger] t[i].0 == pid,
    decreases t.len(),
{
    if t.len() > 0 && t[0].0 != pid {
        lemma_lookup_some_iff_key(t.skip(1), pid);
        if exists|i: int| 0 <= i < t.len() && #[trigger] t[i].0 == pid {
            let i = choose|i: int| 0 <= i < t.len() && #[trigger] t[i].0 == pid;
            assert(t.skip(1)[i - 1].0 == pid);
        }
        if exists|j: int| 0 <= j < t.skip(1).len() && #[trigger] t.skip(1)[j].0 == pid {
            let j = choose|j: int| 0 <= j < t.skip(1).len() && #[trigger] t.skip(1)[j].0 == pid;
            assert(t[j + 1].0 == pid);
        }
    } else if t.len() > 0 {
        assert(t[0].0 == pid);
    }
}

/// A product ID that the receiver table knows is in the receiver range, and
/// the information found for it carries that product ID, the Logitech
/// vendor ID, one to six device slots, and USB interface 2 for a Bolt
/// receiver.
pub proof fn lemma_known_receiver_is_receiver_product_id(pid: u16)
    requires
        spec_lookup(spec_known_receivers(), pid) is Some,
    ensures
        0xC500 <= pid <= 0xC5FF,
        spec_lookup(spec_known_receivers(), pid).unwrap().product_id == pid,
        spec_lookup(spec_known_receivers(), pid).unwrap().vendor_id == LOGITECH_VENDOR_ID,
        1 <= spec_lookup(spec_known_receivers(), pid).unwrap().max_devices <= 6,
        spec_lookup(spec_known_receivers(), pid).unwrap().kind == ReceiverKind::Bolt ==> spec_lookup(
            spec_known_receivers(),
            pid,
        ).unwrap().usb_interface == 2,
{
    lemma_lookup_finds_entry(spec_known_receivers(), pid);
    let info = spec_lookup(spec_known_receivers(), pid).unwrap();
    let i = choose|i: int| 0 <= i < spec_known_receivers().len() && spec_known_receivers()[i].0 == pid && #[trigger] spec_known_receivers()[i].1 == info;
    lemma_known_receivers_consistent(i);
}

/// The lookup of a product ID succeeds exactly when it is one of the
/// product IDs listed in the receiver table.
pub proof fn lemma_lookup_succeeds_exactly_for_listed(pid: u16)
    ensures
        spec_lookup(spec_known_receivers(), pid) is Some <==> exists|i: int|
            0 <= i < spec_known_receivers().len() && #[trigger] spec_known_receivers()[i].0 == pid,
        spec_lookup(spec_known_receivers(), pid) is Some <==> (pid == 0xC548 || pid == 0xC52B || pid == 0xC532
            || pid == 0xC52F || pid == 0xC518 || pid == 0xC51A || pid == 0xC51B || pid == 0xC521 || pid == 0xC525
            || pid == 0xC526 || pid == 0xC52E || pid == 0xC531 || pid == 0xC534 || pid == 0xC535 || pid == 0xC537
            || pid == 0xC539 || pid == 0xC53A || pid == 0xC53D || pid == 0xC53F || pid == 0xC541 || pid == 0xC545
            || pid == 0xC547 || pid == 0xC54D || pid == 0xC517),
{
    lemma_lookup_some_iff_key(spec_known_receivers(), pid);
    let t = spec_known_receivers();
    if exists|i: int| 0 <= i < t.len() && #[trigger] t[i].0 == pid {
        let i = choose|i: int| 0 <= i < t.len() && #[trigger] t[i].0 == pid;
        assert(t[i].0 == pid);
    }
    if pid == 0xC548 { assert(t[0].0 == pid); }
    if pid == 0xC52B { assert(t[1].0 == pid); }
    if pid == 0xC532 { assert(t[2].0 == pid); }
    if pid == 0xC52F { assert(t[3].0 == pid); }
    if pid == 0xC518 { assert(t[4].0 == pid); }
    if pid == 0xC51A { assert(t[5].0 == pid); }
    if pid == 0xC51B { assert(t[6].0 == pid); }
    if pid == 0xC521 { assert(t[7].0 == pid); }
    if pid == 0xC525 { assert(t[8].0 == pid); }
    if pid == 0xC526 { assert(t[9].0 == pid); }
    if pid == 0xC52E { assert(t[10].0 == pid); }
    if pid == 0xC531 { assert(t[11].0 == pid); }
    if pid == 0xC534 { assert(t[12].0 == pid); }
    if pid == 0xC535 { assert(t[13].0 == pid); }
    if pid == 0xC537 { assert(t[14].0 == pid); }
    if pid == 0xC539 { assert(t[15].0 == pid); }
    if pid == 0xC53A { assert(t[16].0 == pid); }
    if pid == 0xC53D { assert(t[17].0 == pid); }
    if pid == 0xC53F { assert(t[18].0 == pid); }
    if pid == 0xC541 { assert(t[19].0 == pid); }
    if pid == 0xC545 { assert(t[20].0 == pid); }
    if pid == 0xC547 { assert(t[21].0 == pid); }
    if pid == 0xC54D { assert(t[22].0 == pid); }
    if pid == 0xC517 { assert(t[23].0 == pid); }
}

} // verus!
