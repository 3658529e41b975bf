//! Devices: pairing information, HID++ 2.0 feature calls through the
//! feature table, ping results, battery and firmware reads for either
//! protocol version, connection notification flags on HID++ 1.0 devices,
//! and the `Device` that makes them over a HID++ channel.

use vstd::prelude::*;
use vstd::cell::invcell::InvCell;
use vstd::predicate::Predicate;
use crate::base::{HidppChannel, ProtocolVersion, RequestOptions};
use crate::common::{Battery, FirmwareInfo};
use crate::error::Error;
use crate::hidpp10::{opt_view, Hidpp10, Hidpp10Device};
use crate::hidpp10_constants::{DeviceKind, NotificationFlag, PowerSwitchLocation, Register};
use crate::hidpp20::{FeatureEntry, FeaturesArray, Hidpp20, Hidpp20Device};
use crate::hidpp20_constants::SupportedFeature;
use crate::onboard_profiles::OnboardProfiles;

verus! {

/// What a receiver knows of a paired device.
#[derive(Debug, Clone)]
pub struct PairingInfo {
    /// Wireless product ID (one per device model).
    pub wpid: u16,
    pub kind: Option<DeviceKind>,
    /// 8-character hexadecimal serial number.
    pub serial: Option<String>,
    /// Polling rate in milliseconds.
    pub polling_rate: Option<u8>,
    pub power_switch: Option<PowerSwitchLocation>,
    /// Short device codename (e.g. "MX518").
    pub codename: Option<String>,
}

/// Whether HID++ 2.0 feature calls can be made: the device is online and
/// speaks protocol 2.0 or later.
pub open spec fn spec_hidpp20_ready(protocol: Option<ProtocolVersion>, online: bool) -> bool {
    online && (protocol matches Some(p) && crate::base::spec_hidpp20(p))
}

/// Whether HID++ 2.0 feature calls can be made.
pub fn hidpp20_ready(protocol: Option<ProtocolVersion>, online: bool) -> (r: bool)
    ensures
        r == spec_hidpp20_ready(protocol, online),
{
    online && match protocol {
        Some(p) => p.is_hidpp20(),
        None => false,
    }
}

/// The request ID of function `function` of the feature at `index`.
pub open spec fn spec_feature_request_id(index: u8, function: u8) -> u16 {
    (index as int * 256 + function as int) as u16
}

/// The request ID of function `function` of the feature at `index`.
pub fn feature_request_id(index: u8, function: u8) -> (r: u16)
    ensures
        r == spec_feature_request_id(index, function),
{
    (index as u16) * 256 + (function as u16)
}

/// The request parameters asking ROOT for the FEATURE_SET index.
pub open spec fn spec_root_params() -> Seq<u8> {
    crate::base::spec_id_bytes(crate::hidpp20::FEATURE_SET_ID)
}

/// Whether the channel may give device `n` no usable FEATURE_SET index:
/// the ROOT request fails, gets no reply, an empty one or index 0.
pub open spec fn spec_root_refused<C: HidppChannel>(chan: C, n: u8) -> bool {
    ||| exists|e: Error| chan.fails(n, 0x0000, spec_root_params(), e)
    ||| chan.answers(n, 0x0000, spec_root_params(), None)
    ||| exists|v: Seq<u8>|
        #[trigger] chan.answers(n, 0x0000, spec_root_params(), Some(v)) && (v.len() == 0 || v[0] == 0)
}

/// Whether, after ROOT may have given FEATURE_SET an index, the count
/// request to that index may fail, get no reply or an empty one.
pub open spec fn spec_count_refused<C: HidppChannel>(chan: C, n: u8) -> bool {
    exists|v: Seq<u8>|
        #[trigger] chan.answers(n, 0x0000, spec_root_params(), Some(v)) && v.len() > 0 && v[0] != 0 && ({
            let id = (v[0] as u16 * 256) as u16;
            ||| exists|e: Error| chan.fails(n, id, Seq::<u8>::empty(), e)
            ||| chan.answers(n, id, Seq::<u8>::empty(), None)
            ||| exists|c: Seq<u8>| #[trigger] chan.answers(n, id, Seq::<u8>::empty(), Some(c)) && c.len() == 0
        })
}

/// Whether feature `f` of device `n` may be at index `j`: ROOT at 0, any
/// other feature where a ROOT reply may put it.
pub open spec fn spec_index_given<C: HidppChannel>(chan: C, n: u8, f: u16, j: u8) -> bool {
    ||| f == crate::hidpp20::ROOT_ID && j == 0
    ||| exists|w: Seq<u8>|
        #[trigger] chan.answers(n, 0x0000, crate::base::spec_id_bytes(f), Some(w)) && w.len() > 0 && w[0] == j
}

/// Whether the channel may give device `n` no usable index for feature
/// `fid`: the ROOT request fails, gets no reply, a reply shorter than three
/// bytes, or index 0.
pub open spec fn spec_index_refused<C: HidppChannel>(chan: C, n: u8, fid: u16) -> bool {
    ||| exists|e: Error| chan.fails(n, 0x0000, crate::base::spec_id_bytes(fid), e)
    ||| chan.answers(n, 0x0000, crate::base::spec_id_bytes(fid), None)
    ||| exists|v: Seq<u8>|
        #[trigger] chan.answers(n, 0x0000, crate::base::spec_id_bytes(fid), Some(v)) && (v.len() < 3 || v[0]
            == 0)
}

/// Whether looking feature `fid` up may fail on the channel: the table
/// cannot be initialised, or ROOT gives no usable index for it.
pub open spec fn spec_lookup_refused<C: HidppChannel>(chan: C, n: u8, fid: u16) -> bool {
    spec_root_refused(chan, n) || spec_count_refused(chan, n) || spec_index_refused(chan, n, fid)
}

/// What a feature table of device `n` on `chan` knows comes from the
/// channel: a device marked unsupported refused the FEATURE_SET index, a
/// feature marked absent got no usable index, and each cached feature's
/// index is one ROOT may give it.
pub open spec fn spec_table_known<C: HidppChannel>(chan: C, n: u8, t: FeaturesArray) -> bool {
    &&& t.supported_view() == Some(false) ==> spec_root_refused(chan, n)
    &&& forall|fid: u16| #[trigger] t.absent_view().contains(fid) ==> spec_index_refused(chan, n, fid)
    &&& forall|f: u16| #[trigger]
        t.entries_view().contains_key(f) ==> spec_index_given(chan, n, f, t.entries_view()[f].index)
}

/// The reply payload of a raw request, any failure counted as no reply.
fn raw_reply<D: Hidpp10Device>(device: &D, request_id: u16, params: &[u8]) -> (r: Option<Vec<u8>>)
    ensures
        r matches Some(v) ==> device.answers_request(request_id, params@, Some(v@)),
        r is None ==> (exists|e: Error| device.rejects_request(request_id, params@, e)) || device.answers_request(
            request_id,
            params@,
            None,
        ),
{
    match device.request(request_id, params) {
        Ok(o) => o,
        Err(_) => None,
    }
}

/// Make a HID++ 2.0 feature call with `table`, the feature table of the
/// device: nothing unless the device is online and speaks protocol 2.0 or
/// later; the table is initialised on first use and asked for the
/// feature's index; then function `function` of that index is called with
/// `params`. A device without the feature table or the feature gives no
/// reply.
pub fn feature_call<C: HidppChannel>(
    device: &Device<C>,
    table: &mut FeaturesArray,
    protocol: Option<ProtocolVersion>,
    online: bool,
    feature: SupportedFeature,
    function: u8,
    params: &[u8],
) -> (r: Result<Option<Vec<u8>>, Error>)
    requires
        old(table).wf(),
        spec_table_known(device.channel_spec(), device.number, *old(table)),
    ensures
        final(table).wf(),
        spec_table_known(device.channel_spec(), device.number, *final(table)),
        !spec_hidpp20_ready(protocol, online) ==> (r matches Ok(None) && *final(table) == *old(table)),
        ({
            let fid = crate::hidpp20_constants::spec_feature_id(feature);
            let chan = device.channel_spec();
            let n = device.number;
            let index = final(table).entries_view()[fid].index;
            &&& r matches Ok(Some(v)) ==> spec_hidpp20_ready(protocol, online)
                && final(table).entries_view().contains_key(fid) && spec_index_given(chan, n, fid, index) && chan.answers(
                n,
                spec_feature_request_id(index, function),
                params@,
                Some(v@),
            )
            &&& (r matches Ok(None) && spec_hidpp20_ready(protocol, online)) ==> spec_lookup_refused(chan, n, fid)
                || (final(table).entries_view().contains_key(fid) && spec_index_given(chan, n, fid, index)
                && chan.answers(n, spec_feature_request_id(index, function), params@, None))
            &&& r matches Err(e) ==> spec_hidpp20_ready(protocol, online) && final(table).entries_view().contains_key(fid)
                && spec_index_given(chan, n, fid, index) && chan.fails(
                n,
                spec_feature_request_id(index, function),
                params@, e)
        }),
{
    if !hidpp20_ready(protocol, online) {
        return Ok(None);
    }
    let ghost chan = device.channel_spec();
    let ghost n = device.number;
    let ghost fid = crate::hidpp20_constants::spec_feature_id(feature);
    assert(spec_root_params() =~= seq![0x00u8, 0x01u8]);
    let ask = |id: u16, p: &[u8]| -> (o: Option<Vec<u8>>)
        ensures
            o matches Some(v) ==> chan.answers(n, id, p@, Some(v@)),
            o is None ==> (exists|e: Error| chan.fails(n, id, p@, e)) || chan.answers(n, id, p@, None),
        { raw_reply(device, id, p) };
    if !table.is_initialised() {
        let ghost t0 = *table;
        let init_ok = table.init(ask);
        proof {
            if t0.supported_view() != Some(false) {
                let (p, o) = choose|p: &[u8], o: Option<Vec<u8>>|
                    #[trigger] call_ensures(ask, (0x0000u16, p), o) && p@ == seq![0x00u8, 0x01u8] && match o {
                        Some(v) => if v@.len() > 0 && v@[0] != 0 {
                            exists|q: &[u8], c: Option<Vec<u8>>|
                                #[trigger] call_ensures(ask, ((v@[0] as u16 * 256) as u16, q), c) && q@.len()
                                    == 0 && crate::hidpp20::spec_count_answered(t0, v@[0], opt_view(c), init_ok, *table)
                        } else {
                            !init_ok && crate::hidpp20::spec_marked_unsupported(t0, *table)
                        },
                        None => !init_ok && crate::hidpp20::spec_marked_unsupported(t0, *table),
                    };
                match o {
                    Some(v) => {
                        assert(chan.answers(n, 0x0000, spec_root_params(), Some(v@)));
                        if v@.len() > 0 && v@[0] != 0 {
                            let (q, c) = choose|q: &[u8], c: Option<Vec<u8>>|
                                #[trigger] call_ensures(ask, ((v@[0] as u16 * 256) as u16, q), c) && q@.len()
                                    == 0 && crate::hidpp20::spec_count_answered(t0, v@[0], opt_view(c), init_ok, *table);
                            assert(q@ =~= Seq::<u8>::empty());
                            match c {
                                Some(cv) => {
                                    assert(chan.answers(n, (v@[0] as u16 * 256) as u16, Seq::<u8>::empty(), Some(cv@)));
                                },
                                None => {},
                            }
                            if init_ok {
                                assert(crate::base::spec_id_bytes(crate::hidpp20::FEATURE_SET_ID) == spec_root_params());
                                assert forall|f: u16| #[trigger] table.entries_view().contains_key(f) implies spec_index_given(
                                    chan,
                                    n,
                                    f,
                                    table.entries_view()[f].index,
                                ) by {
                                    if f != crate::hidpp20::ROOT_ID {
                                        assert(f == crate::hidpp20::FEATURE_SET_ID);
                                        assert(chan.answers(n, 0x0000, crate::base::spec_id_bytes(crate::hidpp20::FEATURE_SET_ID), Some(v@)));
                                    }
                                }
                            }
                        }
                    },
                    None => {},
                }
            }
        }
        if !init_ok {
            return Ok(None);
        }
    }
    let ghost before = *table;
    let index = match table.get_index(feature, ask) {
        Some(i) => i,
        None => {
            proof {
                if !before.entries_view().contains_key(fid) && !before.absent_view().contains(fid) {
                    let (p, o) = choose|p: &[u8], o: Option<Vec<u8>>|
                        #[trigger] call_ensures(ask, (0x0000u16, p), o) && p@ == crate::base::spec_id_bytes(fid)
                            && crate::hidpp20::spec_index_answered(before, fid, opt_view(o), None, *table);
                    match o {
                        Some(v) => {
                            assert(chan.answers(n, 0x0000, crate::base::spec_id_bytes(fid), Some(v@)));
                        },
                        None => {},
                    }
                }
                assert(spec_index_refused(chan, n, fid));
            }
            return Ok(None);
        },
    };
    proof {
        if !before.entries_view().contains_key(fid) {
            let (p, o) = choose|p: &[u8], o: Option<Vec<u8>>|
                #[trigger] call_ensures(ask, (0x0000u16, p), o) && p@ == crate::base::spec_id_bytes(fid)
                    && crate::hidpp20::spec_index_answered(before, fid, opt_view(o), Some(index), *table);
            match o {
                Some(v) => {
                    assert(chan.answers(n, 0x0000, crate::base::spec_id_bytes(fid), Some(v@)));
                },
                None => {},
            }
            assert(spec_index_given(chan, n, fid, index));
        }
    }
    let request_id = feature_request_id(index, function);
    let reply = device.request(request_id, params)?;
    Ok(reply)
}

/// What a ping of device `number` that gave `answer` leaves: the protocol,
/// whether the device is online, and the result to report (see
/// [`ping_outcome`]).
pub open spec fn spec_ping_outcome(
    number: u8,
    old_protocol: Option<ProtocolVersion>,
    old_online: bool,
    answer: Result<Option<ProtocolVersion>, Error>,
) -> (Option<ProtocolVersion>, bool, Result<bool, Error>) {
    match answer {
        Ok(Some(v)) => (Some(v), true, Ok(true)),
        Ok(None) => (old_protocol, false, Ok(false)),
        Err(Error::NoSuchDevice { .. }) => (old_protocol, false, Err(Error::NoSuchDevice { number, request: 0x0010 })),
        Err(e) => (old_protocol, old_online, Err(e)),
    }
}

/// What a ping leaves the device with: its protocol, whether it is online,
/// and the result to report.
pub struct PingOutcome {
    pub protocol: Option<ProtocolVersion>,
    pub online: bool,
    pub result: Result<bool, Error>,
}

/// The state after a ping of device `number` gave `answer`: a version makes
/// the device online with that protocol; no answer makes it offline; an
/// unknown device is offline and reported as device `number` at request
/// 0x0010; other errors change nothing and are passed on.
pub fn ping_outcome(
    number: u8,
    old_protocol: Option<ProtocolVersion>,
    old_online: bool,
    answer: Result<Option<ProtocolVersion>, Error>,
) -> (r: PingOutcome)
    ensures
        answer matches Ok(Some(v)) ==> r.protocol == Some(v) && r.online && (r.result matches Ok(true)),
        answer matches Ok(None) ==> r.protocol == old_protocol && !r.online && (r.result matches Ok(false)),
        answer matches Err(Error::NoSuchDevice { .. }) ==> r.protocol == old_protocol && !r.online
            && (r.result matches Err(Error::NoSuchDevice { number: n, request: q }) && n == number && q
            == 0x0010),
        answer matches Err(e) ==> (!(e is NoSuchDevice) ==> r.protocol == old_protocol && r.online
            == old_online && r.result == Err::<bool, Error>(e)),
{
    match answer {
        Ok(Some(v)) => PingOutcome { protocol: Some(v), online: true, result: Ok(true) },
        Ok(None) => PingOutcome { protocol: old_protocol, online: false, result: Ok(false) },
        Err(Error::NoSuchDevice { .. }) => PingOutcome {
            protocol: old_protocol,
            online: false,
            result: Err(Error::NoSuchDevice { number, request: 0x0010 }),
        },
        Err(e) => PingOutcome { protocol: old_protocol, online: old_online, result: Err(e) },
    }
}

/// Read the battery: nothing when the device is offline; with HID++ 2.0
/// the battery features (the last one that worked first), else the HID++
/// 1.0 battery registers. A device that gives no battery reading yields the
/// empty battery. Returns the battery and the battery feature to prefer
/// next time.
pub fn read_battery<D: Hidpp10Device + Hidpp20Device>(
    device: &mut D,
    online: bool,
    protocol: Option<ProtocolVersion>,
    preferred: Option<SupportedFeature>,
) -> (r: Result<Option<(Battery, Option<SupportedFeature>)>, Error>)
    ensures
        !online ==> r matches Ok(None),
        online && r is Ok ==> r matches Ok(Some(_)),
        r matches Ok(Some((b, f))) ==> online && (if protocol matches Some(p) && crate::base::spec_hidpp20(p) {
            (exists|found: Option<(SupportedFeature, Battery)>|
                crate::hidpp20::spec_battery_search(&*old(device), preferred, found) && match found {
                    Some((g, c)) => b == c && f == Some(g),
                    None => b == crate::common::spec_battery(None, None, None, None) && f == preferred,
                })
        } else {
            f == preferred && ((crate::base::spec_hidpp20(Hidpp10Device::protocol_spec(&*old(device))) && b
                == crate::common::spec_battery(None, None, None, None)) || exists|o: Option<Battery>|
                crate::hidpp10::spec_battery10_outcome(&*old(device), o) && b == match o {
                    Some(c) => c,
                    None => crate::common::spec_battery(None, None, None, None),
                })
        }),
{
    if !online {
        return Ok(None);
    }
    let is20 = match protocol {
        Some(p) => p.is_hidpp20(),
        None => false,
    };
    if is20 {
        let found = Hidpp20.get_battery(&*device, preferred)?;
        match found {
            Some((g, c)) => Ok(Some((c, Some(g)))),
            None => Ok(Some((Battery::default(), preferred))),
        }
    } else {
        let b = Hidpp10.get_battery(device)?;
        let battery = match b {
            Some(b) => b,
            None => Battery::default(),
        };
        Ok(Some((battery, preferred)))
    }
}

/// Read the firmware: nothing when the device is offline; the HID++ 2.0
/// firmware feature from protocol 2.0 on, else the HID++ 1.0 firmware
/// register.
pub fn read_firmware<D: Hidpp10Device + Hidpp20Device>(
    device: &D,
    online: bool,
    protocol: Option<ProtocolVersion>,
) -> (r: Result<Option<Vec<FirmwareInfo>>, Error>)
    ensures
        !online ==> r matches Ok(None),
        online && (protocol matches Some(p) && crate::base::spec_hidpp20(p)) ==> (r matches Ok(o) ==> crate::hidpp20::spec_fw20_result(
            device,
            o,
        )),
        online && !(protocol matches Some(p) && crate::base::spec_hidpp20(p)) ==> (r matches Ok(o) ==> crate::hidpp10::spec_fw10_result(
            device,
            o,
        )),
        r matches Err(e) ==> online && if protocol matches Some(p) && crate::base::spec_hidpp20(p) {
            crate::hidpp20::spec_fw20_failed(device, e)
        } else {
            crate::hidpp10::spec_fw10_failed(device, e)
        },
{
    if !online {
        return Ok(None);
    }
    let is20 = match protocol {
        Some(p) => p.is_hidpp20(),
        None => false,
    };
    if is20 {
        Hidpp20.get_firmware(device)
    } else {
        Hidpp10.get_firmware(device)
    }
}

/// Enable or disable connection notifications on a HID++ 1.0 device, then
/// read back its flags; nothing for HID++ 2.0 devices.
pub fn enable_connection_notifications<D: Hidpp10Device>(
    device: &D,
    protocol: Option<ProtocolVersion>,
    enable: bool,
) -> (r: Result<Option<NotificationFlag>, Error>)
    ensures
        (protocol matches Some(p) && crate::base::spec_hidpp20(p)) ==> r matches Ok(None),
        r matches Ok(Some(f)) ==> exists|d: Seq<u8>|
            #[trigger] device.answers_request(
                crate::hidpp10::spec_read_id(Register::Notifications),
                crate::bytes::bytes0(),
                Some(d),
            ) && d.len() >= 3 && f.bits == crate::hidpp10::spec_u24(d) & crate::hidpp10_constants::NOTIFICATION_FLAG_ALL,
        r matches Ok(o) ==> (protocol matches Some(p) && crate::base::spec_hidpp20(p)) || crate::base::spec_hidpp20(device.protocol_spec())
            || exists|v: Option<u32>|
            #[trigger] crate::hidpp10::spec_u24_read(device, Register::Notifications, v) && o == match v {
                Some(x) => Some(NotificationFlag { bits: x & crate::hidpp10_constants::NOTIFICATION_FLAG_ALL }),
                None => None::<NotificationFlag>,
            },
        r matches Err(e) ==> !crate::base::spec_hidpp20(device.protocol_spec()) && (device.rejects_request(
            crate::hidpp10::spec_write_id(Register::Notifications),
            crate::hidpp10::spec_u24_bytes(if enable { 0x100204u32 } else { 0u32 }), e) || device.rejects_request(crate::hidpp10::spec_read_id(Register::Notifications), crate::bytes::bytes0(), e)),
{
    let is20 = match protocol {
        Some(p) => p.is_hidpp20(),
        None => false,
    };
    if is20 {
        return Ok(None);
    }
    let flags = if enable {
        NotificationFlag::battery_status() | NotificationFlag::ui()
            | NotificationFlag::configuration_complete()
    } else {
        NotificationFlag::empty()
    };
    assert(0x100000u32 | 0x000200u32 | 0x000004u32 == 0x100204u32) by (bit_vector);
    assert(flags.bits == if enable { 0x100204u32 } else { 0u32 });
    let h10 = Hidpp10;
    let _ok: bool = h10.set_notification_flags(device, flags)?;
    h10.get_notification_flags(device)
}

/// Record that a device supports register `r`: the list keeps each
/// register once, in the order they were first recorded.
pub fn add_register(registers: &mut Vec<Register>, r: Register)
    ensures
        old(registers)@.contains(r) ==> final(registers)@ == old(registers)@,
        !old(registers)@.contains(r) ==> final(registers)@ == old(registers)@.push(r),
{
    let mut i: usize = 0;
    while i < registers.len()
        invariant
            i <= registers@.len(),
            forall|j: int| 0 <= j < i ==> registers@[j] != r,
        decreases registers@.len() - i,
    {
        if registers[i] == r {
            return;
        }
        i = i + 1;
    }
    registers.push(r);
}


/// The invariant of a device's feature cache on channel `chan`: a
/// well-formed feature table of the device number it is kept with, knowing
/// only what the channel may answer that number.
pub struct FeatureTableWf<C> {
    pub chan: C,
}

impl<C: HidppChannel> Predicate<(FeaturesArray, u8)> for FeatureTableWf<C> {
    open spec fn predicate(&self, v: (FeaturesArray, u8)) -> bool {
        v.0.wf() && spec_table_known(self.chan, v.1, v.0)
    }
}

/// A device's channel with the HID++ 2.0 feature cache built from it.
pub struct Link<C> {
    hidpp: C,
    features: InvCell<(FeaturesArray, u8), FeatureTableWf<C>>,
}

impl<C> Link<C> {
    /// The channel.
    pub closed spec fn channel_spec(&self) -> C {
        self.hidpp
    }

    /// The cache belongs to the channel it is kept with.
    #[verifier::type_invariant]
    closed spec fn tied(&self) -> bool {
        self.features.predicate().chan == self.hidpp
    }
}

/// The protocol a device is taken to speak: the one its last ping gave,
/// `default` before that.
pub open spec fn spec_protocol_or(p: Option<ProtocolVersion>, default: ProtocolVersion) -> ProtocolVersion {
    match p {
        Some(v) => v,
        None => default,
    }
}

/// The protocol a device is taken to speak.
fn protocol_or(p: Option<ProtocolVersion>, default: ProtocolVersion) -> (r: ProtocolVersion)
    ensures
        r == spec_protocol_or(p, default),
{
    match p {
        Some(v) => v,
        None => default,
    }
}

/// A HID++ device reached through a channel `C`: directly connected
/// (number 0xFF) or paired to a receiver whose channel it shares (numbers
/// 1 to 15). Requests go through the channel; HID++ 2.0 feature calls are
/// resolved through the device's feature table, built on first use.
pub struct Device<C> {
    /// The channel requests go through (shared with the receiver), and the
    /// HID++ 2.0 feature cache built from it.
    pub link: Link<C>,
    /// HID++ device number: 0xFF when directly connected, 1-15 when paired.
    pub number: u8,
    /// Whether requests use long (20-byte) messages.
    pub long_message: bool,
    /// The protocol version the last ping gave; `None` before a ping.
    pub protocol: Option<ProtocolVersion>,
    /// Whether the device answered the last ping.
    pub online: bool,
    /// Wireless product ID (none for directly connected devices).
    pub wpid: Option<u16>,
    /// USB product ID (for directly connected devices).
    pub product_id: Option<u16>,
    /// Device path (e.g. `/dev/hidraw0`).
    pub path: Option<String>,
    /// Short device codename (e.g. "MX518").
    pub codename: Option<String>,
    pub serial: Option<String>,
    pub kind: Option<DeviceKind>,
    /// Polling rate in milliseconds.
    pub polling_rate: Option<u8>,
    pub power_switch_location: Option<PowerSwitchLocation>,
    /// HID++ 1.0 registers the device is known to support.
    pub registers: Vec<Register>,
    /// The last battery reading.
    pub battery_info: Option<Battery>,
    /// The battery feature that answered last.
    pub battery_feature: Option<SupportedFeature>,
}

impl<C> Device<C> {
    /// The channel the device is reached through.
    pub open spec fn channel_spec(&self) -> C {
        self.link.channel_spec()
    }

    /// The channel the device is reached through.
    pub fn channel(&self) -> (r: &C)
        ensures
            *r == self.channel_spec(),
    {
        &self.link.hidpp
    }
}

impl<C: HidppChannel> Device<C> {
    /// A device on channel `hidpp` with number `number`, not yet pinged:
    /// offline, protocol unknown, nothing known of it.
    pub fn new(hidpp: C, number: u8, long_message: bool) -> (r: Self)
        ensures
            r.channel_spec() == hidpp,
            r.number == number,
            r.long_message == long_message,
            r.protocol is None,
            !r.online,
            r.wpid is None && r.product_id is None && r.path is None,
            r.codename is None && r.serial is None && r.kind is None,
            r.polling_rate is None && r.power_switch_location is None,
            r.registers@ == Seq::<Register>::empty(),
            r.battery_info is None,
            r.battery_feature is None,
    {
        let registers: Vec<Register> = Vec::new();
        let empty = FeaturesArray::new();
        proof {
            assert(empty.inverse_view().dom() =~= Set::<u8>::empty());
        }
        let features = InvCell::new((empty, number), Ghost(FeatureTableWf { chan: hidpp }));
        Device {
            link: Link { hidpp, features },
            number,
            long_message,
            protocol: None,
            online: false,
            wpid: None,
            product_id: None,
            path: None,
            codename: None,
            serial: None,
            kind: None,
            polling_rate: None,
            power_switch_location: None,
            registers,
            battery_info: None,
            battery_feature: None,
        }
    }

    /// A device paired to the receiver whose channel is `receiver_hidpp`,
    /// with what the receiver knows of it.
    pub fn with_receiver(receiver_hidpp: C, number: u8, long_message: bool, pairing_info: PairingInfo) -> (r:
        Self)
        ensures
            r.channel_spec() == receiver_hidpp,
            r.number == number,
            r.long_message == long_message,
            r.protocol is None,
            !r.online,
            r.wpid == Some(pairing_info.wpid),
            r.kind == pairing_info.kind,
            r.serial == pairing_info.serial,
            r.polling_rate == pairing_info.polling_rate,
            r.power_switch_location == pairing_info.power_switch,
            r.codename == pairing_info.codename,
            r.product_id is None && r.path is None,
            r.battery_info is None,
    {
        let mut dev = Device::new(receiver_hidpp, number, long_message);
        dev.wpid = Some(pairing_info.wpid);
        dev.kind = pairing_info.kind;
        dev.serial = pairing_info.serial;
        dev.polling_rate = pairing_info.polling_rate;
        dev.power_switch_location = pairing_info.power_switch;
        dev.codename = pairing_info.codename;
        dev
    }

    /// Send a raw HID++ request to the device and wait for its reply, with
    /// the device's message size and its protocol (1.0 before a ping).
    pub fn request(&self, request_id: u16, params: &[u8]) -> (r: Result<Option<Vec<u8>>, Error>)
        ensures
            r matches Ok(o) ==> self.channel_spec().answers(self.number, request_id, params@, opt_view(o)),
            r matches Err(e) ==> self.channel_spec().fails(self.number, request_id, params@, e),
    {
        let opts = RequestOptions {
            no_reply: false,
            return_error: false,
            long_message: self.long_message,
            protocol: protocol_or(self.protocol, ProtocolVersion::v1()),
        };
        self.link.hidpp.request(self.number, request_id, params, &opts)
    }

    /// Ping the device: a version makes it online with that protocol; no
    /// answer makes it offline; an unknown device is offline and reported
    /// with request 0x0010; other errors change nothing. Returns whether
    /// the device answered.
    pub fn ping(&mut self) -> (r: Result<bool, Error>)
        ensures
            exists|a: Result<Option<ProtocolVersion>, Error>|
                #[trigger] old(self).channel_spec().pings(old(self).number, old(self).long_message, a) && (
                final(self).protocol,
                final(self).online,
                r,
            ) == spec_ping_outcome(old(self).number, old(self).protocol, old(self).online, a),
            final(self).channel_spec() == old(self).channel_spec(),
            r matches Ok(true) ==> final(self).online && final(self).protocol is Some,
            r matches Ok(false) ==> !final(self).online && final(self).protocol == old(self).protocol,
            r matches Err(Error::NoSuchDevice { number: n, request: q }) ==> !final(self).online && n
                == old(self).number && q == 0x0010 && final(self).protocol == old(self).protocol,
            r is Err ==> final(self).protocol == old(self).protocol,
            final(self).number == old(self).number,
            final(self).long_message == old(self).long_message,
            final(self).wpid == old(self).wpid,
            final(self).product_id == old(self).product_id,
            final(self).path == old(self).path,
            final(self).codename == old(self).codename,
            final(self).serial == old(self).serial,
            final(self).kind == old(self).kind,
            final(self).polling_rate == old(self).polling_rate,
            final(self).power_switch_location == old(self).power_switch_location,
            final(self).battery_info == old(self).battery_info,
    {
        let answer = self.link.hidpp.ping(self.number, self.long_message);
        let ghost a = answer;
        assert(self.channel_spec().pings(self.number, self.long_message, a));
        let out = ping_outcome(self.number, self.protocol, self.online, answer);
        assert((out.protocol, out.online, out.result) == spec_ping_outcome(self.number, self.protocol, self.online, a));
        self.protocol = out.protocol;
        self.online = out.online;
        out.result
    }

    /// Read the battery and keep the reading: nothing happens while the
    /// device is offline; otherwise the reading (the empty one when the
    /// device gives none) replaces the one held, and the battery feature
    /// that answered is preferred next time.
    pub fn read_battery(&mut self) -> (r: Result<(), Error>)
        ensures
            !old(self).online ==> r is Ok && *final(self) == *old(self),
            r is Ok && old(self).online ==> final(self).battery_info is Some,
    {
        if !self.online {
            return Ok(());
        }
        let online = self.online;
        let protocol = self.protocol;
        let preferred = self.battery_feature;
        let found = read_battery(self, online, protocol, preferred)?;
        match found {
            Some((b, f)) => {
                self.battery_feature = f;
                let _alert = self.set_battery_info(b);
            },
            None => {},
        }
        Ok(())
    }

    /// Keep a battery reading; returns whether it calls for attention (a
    /// battery error, or a level at or below the attention threshold).
    pub fn set_battery_info(&mut self, info: Battery) -> (alert: bool)
        ensures
            final(self).battery_info == Some(info),
            alert == !crate::common::spec_battery_ok(info),
            final(self).online == old(self).online,
            final(self).protocol == old(self).protocol,
            final(self).number == old(self).number,
    {
        let alert = !info.ok();
        self.battery_info = Some(info);
        alert
    }

    /// The battery reading held, if any.
    pub fn battery_info(&self) -> (r: Option<&Battery>)
        ensures
            r == match self.battery_info {
                Some(b) => Some(&b),
                None => None::<&Battery>,
            },
    {
        match &self.battery_info {
            Some(b) => Some(b),
            None => None,
        }
    }

    /// Read the firmware: nothing while the device is offline; the HID++
    /// 2.0 firmware feature from protocol 2.0 on, else the HID++ 1.0
    /// firmware register.
    pub fn read_firmware(&self) -> (r: Result<Option<Vec<FirmwareInfo>>, Error>)
        ensures
            !self.online ==> r matches Ok(None),
            ({
                let is20 = self.protocol matches Some(p) && crate::base::spec_hidpp20(p);
                &&& r matches Ok(o) ==> (self.online ==> if is20 {
                    crate::hidpp20::spec_fw20_result(self, o)
                } else {
                    crate::hidpp10::spec_fw10_result(self, o)
                })
                &&& r matches Err(e) ==> self.online && if is20 {
                    crate::hidpp20::spec_fw20_failed(self, e)
                } else {
                    crate::hidpp10::spec_fw10_failed(self, e)
                }
            }),
    {
        read_firmware(self, self.online, self.protocol)
    }

    /// The device name from the HID++ 2.0 name feature; nothing unless the
    /// device is online and speaks 2.0.
    pub fn get_name_hidpp20(&self) -> (r: Result<Option<String>, Error>)
        ensures
            !spec_hidpp20_ready(self.protocol, self.online) ==> r matches Ok(None),
            spec_hidpp20_ready(self.protocol, self.online) ==> {
                &&& r matches Ok(Some(n)) ==> crate::hidpp20::spec_name_read(self, SupportedFeature::DeviceName, 0, n@)
                &&& r matches Ok(None) ==> crate::hidpp20::spec_name_absent(self, SupportedFeature::DeviceName, 0)
                &&& r matches Err(e) ==> crate::hidpp20::spec_name_failed(self, SupportedFeature::DeviceName, e)
            },
    {
        if hidpp20_ready(self.protocol, self.online) {
            Hidpp20.get_name(self)
        } else {
            Ok(None)
        }
    }

    /// The friendly name from the HID++ 2.0 friendly-name feature; nothing
    /// unless the device is online and speaks 2.0.
    pub fn get_friendly_name_hidpp20(&self) -> (r: Result<Option<String>, Error>)
        ensures
            !spec_hidpp20_ready(self.protocol, self.online) ==> r matches Ok(None),
            spec_hidpp20_ready(self.protocol, self.online) ==> {
                &&& r matches Ok(Some(n)) ==> crate::hidpp20::spec_name_read(
                    self,
                    SupportedFeature::DeviceFriendlyName,
                    1,
                    n@,
                )
                &&& r matches Ok(None) ==> crate::hidpp20::spec_name_absent(self, SupportedFeature::DeviceFriendlyName, 1)
                &&& r matches Err(e) ==> crate::hidpp20::spec_name_failed(self, SupportedFeature::DeviceFriendlyName, e)
            },
    {
        if hidpp20_ready(self.protocol, self.online) {
            Hidpp20.get_friendly_name(self)
        } else {
            Ok(None)
        }
    }

    /// The device kind from the HID++ 2.0 name feature; nothing unless the
    /// device is online and speaks 2.0.
    pub fn get_kind_hidpp20(&self) -> (r: Result<Option<crate::hidpp20_constants::DeviceKind>, Error>)
        ensures
            !spec_hidpp20_ready(self.protocol, self.online) ==> r matches Ok(None),
            spec_hidpp20_ready(self.protocol, self.online) ==> {
                &&& r matches Ok(None) ==> self.answers_feature(
                    SupportedFeature::DeviceName,
                    0x20,
                    crate::bytes::bytes0(),
                    None,
                )
                &&& r matches Ok(Some(k)) ==> exists|v: u8|
                    crate::hidpp20::spec_first_of(self, SupportedFeature::DeviceName, 0x20, v) && k
                        == crate::hidpp20_constants::spec_device_kind(v)
                &&& r matches Err(e) ==> self.rejects_feature(SupportedFeature::DeviceName, 0x20, crate::bytes::bytes0(), e)
                    || (e is Protocol && self.answers_feature(
                    SupportedFeature::DeviceName,
                    0x20,
                    crate::bytes::bytes0(),
                    Some(seq![]),
                ))
            },
    {
        if hidpp20_ready(self.protocol, self.online) {
            Hidpp20.get_kind(self)
        } else {
            Ok(None)
        }
    }

    /// A battery reading from the HID++ 2.0 battery features, tried in
    /// order; nothing unless the device is online and speaks 2.0.
    pub fn get_battery_hidpp20(&self) -> (r: Result<Option<Battery>, Error>)
        ensures
            !spec_hidpp20_ready(self.protocol, self.online) ==> r matches Ok(None),
            spec_hidpp20_ready(self.protocol, self.online) ==> {
                &&& r matches Ok(o) ==> exists|found: Option<(SupportedFeature, Battery)>|
                    #[trigger] crate::hidpp20::spec_battery_search(self, None, found) && o == match found {
                        Some((_, b)) => Some(b),
                        None => None::<Battery>,
                    }
                &&& r matches Err(e) ==> crate::hidpp20::spec_battery_search_failed(self, None, e)
            },
    {
        if !hidpp20_ready(self.protocol, self.online) {
            return Ok(None);
        }
        match Hidpp20.get_battery(self, None)? {
            Some((_, b)) => Ok(Some(b)),
            None => Ok(None),
        }
    }

    /// The polling rate from the HID++ 2.0 report-rate feature; nothing
    /// unless the device is online and speaks 2.0.
    pub fn get_polling_rate_hidpp20(&self) -> (r: Result<Option<u8>, Error>)
        ensures
            !spec_hidpp20_ready(self.protocol, self.online) ==> r matches Ok(None),
            spec_hidpp20_ready(self.protocol, self.online) ==> {
                &&& r matches Ok(None) ==> self.answers_feature(
                    SupportedFeature::ReportRate,
                    0x10,
                    crate::bytes::bytes0(),
                    None,
                )
                &&& r matches Ok(Some(v)) ==> crate::hidpp20::spec_first_of(self, SupportedFeature::ReportRate, 0x10, v)
                &&& r matches Err(e) ==> self.rejects_feature(SupportedFeature::ReportRate, 0x10, crate::bytes::bytes0(), e)
                    || (e is Protocol && self.answers_feature(
                    SupportedFeature::ReportRate,
                    0x10,
                    crate::bytes::bytes0(),
                    Some(seq![]),
                ))
            },
    {
        if hidpp20_ready(self.protocol, self.online) {
            Hidpp20.get_polling_rate(self)
        } else {
            Ok(None)
        }
    }

    /// The onboard profiles stored on the device (feature 0x8100), named
    /// `device_name`; nothing unless the device is online and speaks 2.0.
    pub fn get_onboard_profiles(&self, device_name: &str) -> (r: Result<Option<OnboardProfiles>, Error>)
        ensures
            !spec_hidpp20_ready(self.protocol, self.online) ==> r matches Ok(None),
            r matches Ok(Some(ps)) ==> ps.device_name@ == device_name@,
            spec_hidpp20_ready(self.protocol, self.online) ==> {
                &&& r matches Ok(None) ==> exists|d: Seq<u8>|
                    #[trigger] self.answers_feature(
                        SupportedFeature::OnboardProfiles,
                        0x00,
                        crate::bytes::bytes0(),
                        Some(d),
                    ) && d.len() >= 10 && (d[0] != 1 || d[1] > 5)
                &&& r matches Ok(Some(ps)) ==> ps.version == crate::onboard_profiles::ONBOARD_PROFILES_VERSION
                    && crate::onboard_profiles::spec_profiles_read(self, ps)
                &&& r is Err ==> crate::onboard_profiles::spec_profiles_fail(self)
            },
    {
        if hidpp20_ready(self.protocol, self.online) {
            OnboardProfiles::from_device(self, device_name)
        } else {
            Ok(None)
        }
    }

    /// Write onboard profiles to the device (feature 0x8100): the number of
    /// sectors written; an error unless the device is online and speaks
    /// 2.0.
    pub fn write_onboard_profiles(&self, profiles: &OnboardProfiles) -> (r: Result<usize, Error>)
        requires
            2 <= profiles.size,
        ensures
            !spec_hidpp20_ready(self.protocol, self.online) ==> r matches Err(Error::Protocol(_)),
    {
        if hidpp20_ready(self.protocol, self.online) {
            profiles.write(self)
        } else {
            Err(crate::error::protocol_error("device does not support HID++ 2.0"))
        }
    }

    /// Turn the device's battery, UI and configuration notifications on or
    /// off (HID++ 1.0 devices only); the flags then read back.
    pub fn enable_connection_notifications(&self, enable: bool) -> (r: Result<Option<NotificationFlag>, Error>)
        ensures
            (self.protocol matches Some(p) && crate::base::spec_hidpp20(p)) ==> r matches Ok(None),
            r matches Ok(o) ==> (self.protocol matches Some(p) && crate::base::spec_hidpp20(p))
                || crate::base::spec_hidpp20(self.protocol_spec()) || exists|v: Option<u32>|
                #[trigger] crate::hidpp10::spec_u24_read(self, Register::Notifications, v) && o == match v {
                    Some(x) => Some(NotificationFlag { bits: x & crate::hidpp10_constants::NOTIFICATION_FLAG_ALL }),
                    None => None::<NotificationFlag>,
                },
            r matches Err(e) ==> !crate::base::spec_hidpp20(self.protocol_spec()) && (self.rejects_request(
                crate::hidpp10::spec_write_id(Register::Notifications),
                crate::hidpp10::spec_u24_bytes(if enable { 0x100204u32 } else { 0u32 }),
                e,
            ) || self.rejects_request(
                crate::hidpp10::spec_read_id(Register::Notifications),
                crate::bytes::bytes0(),
                e,
            )),
    {
        enable_connection_notifications(self, self.protocol, enable)
    }
}

impl<C: HidppChannel> Hidpp10Device for Device<C> {
    /// What the channel may answer to the request sent to this device.
    open spec fn answers_request(&self, request_id: u16, params: Seq<u8>, reply: Option<Seq<u8>>) -> bool {
        self.channel_spec().answers(self.number, request_id, params, reply)
    }

    /// Whether the request sent to this device may fail on the channel.
    open spec fn rejects_request(&self, request_id: u16, params: Seq<u8>, e: Error) -> bool {
        self.channel_spec().fails(self.number, request_id, params, e)
    }

    open spec fn protocol_spec(&self) -> ProtocolVersion {
        spec_protocol_or(self.protocol, ProtocolVersion { major: 0, minor: 0 })
    }

    closed spec fn registers_spec(&self) -> Seq<Register> {
        self.registers@
    }

    open spec fn records_registers(&self) -> bool {
        true
    }

    fn request(&self, request_id: u16, params: &[u8]) -> (r: Result<Option<Vec<u8>>, Error>) {
        Device::request(self, request_id, params)
    }

    fn protocol(&self) -> (r: ProtocolVersion) {
        protocol_or(self.protocol, ProtocolVersion { major: 0, minor: 0 })
    }

    fn is_device(&self) -> (r: bool)
        ensures
            r,
    {
        true
    }

    fn registers(&self) -> (r: &[Register]) {
        self.registers.as_slice()
    }

    fn add_register(&mut self, r: Register)
        ensures
            old(self).registers@.contains(r) ==> final(self).registers@ == old(self).registers@,
            !old(self).registers@.contains(r) ==> final(self).registers@ == old(self).registers@.push(r),
            final(self).number == old(self).number,
            final(self).protocol == old(self).protocol,
            final(self).online == old(self).online,
            final(self).battery_info == old(self).battery_info,
    {
        add_register(&mut self.registers, r);
    }
}

impl<C: HidppChannel> Hidpp20Device for Device<C> {
    /// A reply is one the channel may give to the feature call at an index
    /// ROOT may give the feature; no reply also when the device is not
    /// ready for feature calls or the look-up may fail.
    open spec fn answers_feature(
        &self,
        feature: SupportedFeature,
        function: u8,
        params: Seq<u8>,
        reply: Option<Seq<u8>>,
    ) -> bool {
        let fid = crate::hidpp20_constants::spec_feature_id(feature);
        let chan = self.channel_spec();
        let n = self.number;
        match reply {
            Some(v) => exists|i: u8|
                #[trigger] spec_index_given(chan, n, fid, i) && chan.answers(
                    n,
                    spec_feature_request_id(i, function),
                    params,
                    Some(v),
                ),
            None => !spec_hidpp20_ready(self.protocol, self.online) || spec_lookup_refused(chan, n, fid)
                || exists|i: u8|
                #[trigger] spec_index_given(chan, n, fid, i) && chan.answers(
                    n,
                    spec_feature_request_id(i, function),
                    params,
                    None,
                ),
        }
    }

    /// The feature call at an index ROOT may give the feature may fail on
    /// the channel with `e`.
    open spec fn rejects_feature(&self, feature: SupportedFeature, function: u8, params: Seq<u8>, e: Error) -> bool {
        exists|i: u8|
            #[trigger] spec_index_given(
                self.channel_spec(),
                self.number,
                crate::hidpp20_constants::spec_feature_id(feature),
                i,
            ) && self.channel_spec().fails(self.number, spec_feature_request_id(i, function), params, e)
    }

    open spec fn online_spec(&self) -> bool {
        self.online
    }

    open spec fn feature_protocol_spec(&self) -> ProtocolVersion {
        spec_protocol_or(self.protocol, ProtocolVersion { major: 0, minor: 0 })
    }

    /// Resolve `feature` through the feature table (built on first use) and
    /// call `function` of it; nothing unless the device is online and
    /// speaks 2.0 or later, or when it lacks the feature. A table kept for
    /// another device number is started afresh.
    fn feature_request(&self, feature: SupportedFeature, function: u8, params: &[u8]) -> (r: Result<
        Option<Vec<u8>>,
        Error,
    >)
        ensures
            !spec_hidpp20_ready(self.protocol, self.online) ==> r matches Ok(None),
    {
        proof {
            use_type_invariant(&self.link);
        }
        let placeholder = FeaturesArray::new();
        proof {
            assert(placeholder.inverse_view().dom() =~= Set::<u8>::empty());
        }
        let (kept, kept_number) = self.link.features.replace((placeholder, self.number));
        let mut table = if kept_number == self.number {
            kept
        } else {
            FeaturesArray::new()
        };
        let r = feature_call(self, &mut table, self.protocol, self.online, feature, function, params);
        self.link.features.set((table, self.number));
        r
    }

    fn is_online(&self) -> (r: bool) {
        self.online
    }

    fn protocol(&self) -> (r: ProtocolVersion) {
        protocol_or(self.protocol, ProtocolVersion { major: 0, minor: 0 })
    }
}

} // verus!
