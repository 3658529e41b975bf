//! The register dump of the `probe` command: how replies are written, how
//! pairing names are read from name registers, and when the raw register
//! sweep moves on.

use vstd::prelude::*;
use vstd::string::StringExecFns;
use crate::base::{HidppChannel, RequestOptions};
use crate::error::Error;
use crate::hidpp10_constants::ErrorCode;
use crate::hidpp20::{lossy_string, utf8_lossy};

verus! {

/// Bytes in upper case hexadecimal, two digits each, without separator.
pub fn hex_str(data: &[u8]) -> (r: String)
    ensures
        r@ == crate::text::spec_hex_bytes(data@, true, seq![]),
{
    let sep: Vec<char> = Vec::new();
    assert(sep@ =~= Seq::<char>::empty());
    crate::text::hex_bytes(data, true, &sep)
}

/// How a register reply is shown: `0x` and its bytes in hexadecimal, or
/// `None` when there was no reply or an error.
pub open spec fn spec_reg_text(r: Result<Option<Vec<u8>>, Error>) -> Seq<char> {
    match r {
        Ok(Some(data)) => "0x"@ + crate::text::spec_hex_bytes(data@, true, seq![]),
        _ => "None"@,
    }
}

/// How a register reply is shown.
pub fn fmt_reg(r: &Result<Option<Vec<u8>>, Error>) -> (s: String)
    ensures
        s@ == spec_reg_text(*r),
{
    match r {
        Ok(Some(data)) => {
            let mut s = String::from_str("0x");
            let h = hex_str(data.as_slice());
            s.append(h.as_str());
            s
        },
        _ => String::from_str("None"),
    }
}

/// The bytes `from..from + len` of `data`, or none when `data` is too short
/// for them.
pub open spec fn spec_slice_or_empty(data: Seq<u8>, from: int, len: int) -> Seq<u8> {
    if from + len <= data.len() {
        data.subrange(from, from + len)
    } else {
        seq![]
    }
}

/// The bytes `from..from + len` of `data`, or none when it is too short.
fn slice_or_empty(data: &[u8], from: usize, len: usize) -> (r: Vec<u8>)
    requires
        from + len <= usize::MAX,
    ensures
        r@ == spec_slice_or_empty(data@, from as int, len as int),
{
    if from + len <= data.len() {
        crate::bytes::copy_range(data, from, from + len)
    } else {
        let v: Vec<u8> = Vec::new();
        assert(v@ =~= Seq::<u8>::empty());
        v
    }
}

/// The name a pairing-name register reply holds: byte 1 is the length, the
/// name follows (nothing when the reply is too short for it), decoded with
/// invalid UTF-8 replaced; `None` when there was no reply or an error.
pub open spec fn spec_pairing_name_text(r: Result<Option<Vec<u8>>, Error>) -> Seq<char> {
    match r {
        Ok(Some(data)) => utf8_lossy(
            spec_slice_or_empty(data@, 2, crate::bytes::spec_byte_or(data@, 1, 0) as int),
        ),
        _ => "None"@,
    }
}

/// The name a pairing-name register reply holds.
pub fn pairing_name_text(r: &Result<Option<Vec<u8>>, Error>) -> (s: String)
    ensures
        s@ == spec_pairing_name_text(*r),
{
    match r {
        Ok(Some(data)) => {
            let len: usize = crate::bytes::byte_or(data.as_slice(), 1, 0) as usize;
            let bytes = slice_or_empty(data.as_slice(), 2, len);
            lossy_string(bytes.as_slice())
        },
        _ => String::from_str("None"),
    }
}

/// The length and text of one part of a Bolt device name: byte 2 is the
/// length, the text follows (nothing when the reply is too short), decoded
/// with invalid UTF-8 replaced; `0` and `None` when there was no reply or
/// an error.
pub open spec fn spec_bolt_name_part(r: Result<Option<Vec<u8>>, Error>) -> (usize, Seq<char>) {
    match r {
        Ok(Some(data)) => {
            let l = crate::bytes::spec_byte_or(data@, 2, 0);
            (l as usize, utf8_lossy(spec_slice_or_empty(data@, 3, l as int)))
        },
        _ => (0, "None"@),
    }
}

/// The length and text of one part of a Bolt device name.
pub fn bolt_name_part(r: &Result<Option<Vec<u8>>, Error>) -> (p: (usize, String))
    ensures
        p.0 == spec_bolt_name_part(*r).0,
        p.1@ == spec_bolt_name_part(*r).1,
{
    match r {
        Ok(Some(data)) => {
            let l: usize = crate::bytes::byte_or(data.as_slice(), 2, 0) as usize;
            let bytes = slice_or_empty(data.as_slice(), 3, l);
            (l, lossy_string(bytes.as_slice()))
        },
        _ => (0, String::from_str("None")),
    }
}

/// What the register sweep does after a reply to one sub-address.
#[derive(Debug, Clone, Copy, PartialEq, Eq, Structural)]
pub enum SweepStep {
    /// Stop sweeping this register: no reply, an error, or an invalid
    /// address.
    Stop,
    /// An invalid value: go on with the next sub-address.
    Skip,
    /// Another error code: go on, forgetting the last value.
    Forget,
    /// A new value: show it and remember it.
    Show,
    /// The value shown last: remember it without showing it again.
    Repeat,
}

/// The step the sweep takes after `result`, with `last` the value shown
/// last: a one-byte reply is an error code (invalid address stops, invalid
/// value skips, others forget the last value); a longer reply is shown
/// unless it repeats the last value.
pub open spec fn spec_sweep_step(last: Option<Seq<u8>>, result: Result<Option<Vec<u8>>, Error>) -> SweepStep {
    match result {
        Ok(Some(data)) => if data@.len() == 1 {
            let code = crate::hidpp10_constants::spec_error_code(data@[0]);
            if code == ErrorCode::InvalidAddress {
                SweepStep::Stop
            } else if code == ErrorCode::InvalidValue {
                SweepStep::Skip
            } else {
                SweepStep::Forget
            }
        } else if last == Some(data@) {
            SweepStep::Repeat
        } else {
            SweepStep::Show
        },
        _ => SweepStep::Stop,
    }
}

/// Whether two byte strings are equal.
fn bytes_eq(a: &[u8], b: &[u8]) -> (r: bool)
    ensures
        r == (a@ == b@),
{
    if a.len() != b.len() {
        return false;
    }
    let mut i: usize = 0;
    while i < a.len()
        invariant
            i <= a@.len(),
            a@.len() == b@.len(),
            a@.take(i as int) == b@.take(i as int),
        decreases a@.len() - i,
    {
        if a[i] != b[i] {
            assert(a@[i as int] != b@[i as int]);
            return false;
        }
        i = i + 1;
        assert(a@.take(i as int) =~= b@.take(i as int));
    }
    assert(a@ =~= a@.take(a@.len() as int));
    assert(b@ =~= b@.take(b@.len() as int));
    true
}

/// The step the register sweep takes after a reply.
pub fn sweep_step(last: &Option<Vec<u8>>, result: &Result<Option<Vec<u8>>, Error>) -> (r: SweepStep)
    ensures
        r == spec_sweep_step(
            match *last {
                Some(v) => Some(v@),
                None => None,
            },
            *result,
        ),
{
    match result {
        Ok(Some(data)) => {
            if data.len() == 1 {
                let code = ErrorCode::from(data[0]);
                if code == ErrorCode::InvalidAddress {
                    SweepStep::Stop
                } else if code == ErrorCode::InvalidValue {
                    SweepStep::Skip
                } else {
                    SweepStep::Forget
                }
            } else {
                match last {
                    Some(l) => if bytes_eq(l.as_slice(), data.as_slice()) {
                        SweepStep::Repeat
                    } else {
                        SweepStep::Show
                    },
                    None => SweepStep::Show,
                }
            }
        },
        _ => SweepStep::Stop,
    }
}


/// A register value the sweep shows: register, short or long, sub-address
/// and the reply.
pub struct SweptValue {
    pub register: u8,
    pub long: bool,
    pub sub: u8,
    pub data: Vec<u8>,
}

/// The request ID that reads register `register`, short or long.
pub open spec fn spec_sweep_id(register: u8, long: bool) -> u16 {
    (0x8100 + (if long {
        0x200int
    } else {
        0int
    }) + register) as u16
}

/// Where a value stands in the sweep order: by register, short before
/// long, then by sub-address.
pub open spec fn spec_sweep_key(v: SweptValue) -> int {
    v.register * 512 + (if v.long {
        256int
    } else {
        0int
    }) + v.sub
}

/// Whether `v` may be a value the sweep of the receiver on `chan` shows:
/// the receiver's reply to the read of its register and sub-address, longer
/// or shorter than one byte (a one-byte reply is an error code).
pub open spec fn spec_swept<C: HidppChannel>(chan: C, v: SweptValue) -> bool {
    &&& v.register < 0xFF
    &&& v.sub < 0xFF
    &&& v.data@.len() != 1
    &&& chan.answers(
        crate::message::RECEIVER_DEVICE_NUMBER,
        spec_sweep_id(v.register, v.long),
        seq![v.sub],
        Some(v.data@),
    )
}

/// Whether `o` may be the receiver's reply, on `chan`, to the read of
/// sub-address `sub` of register `reg` (short or long).
pub open spec fn spec_sweep_answer<C: HidppChannel>(
    chan: C,
    reg: u8,
    long: bool,
    sub: u8,
    o: Result<Option<Vec<u8>>, Error>,
) -> bool {
    match o {
        Ok(v) => chan.answers(
            crate::message::RECEIVER_DEVICE_NUMBER,
            spec_sweep_id(reg, long),
            seq![sub],
            crate::hidpp10::opt_view(v),
        ),
        Err(e) => chan.fails(crate::message::RECEIVER_DEVICE_NUMBER, spec_sweep_id(reg, long), seq![sub], e),
    }
}

/// The value the sweep of one register remembers after the replies `outs`
/// to its sub-addresses 0, 1, ...: the value last shown or repeated, and
/// none after an error code other than an invalid value.
pub open spec fn spec_pass_last(outs: Seq<Result<Option<Vec<u8>>, Error>>) -> Option<Seq<u8>>
    decreases outs.len(),
{
    if outs.len() == 0 {
        None
    } else {
        let prev = spec_pass_last(outs.drop_last());
        match spec_sweep_step(prev, outs.last()) {
            SweepStep::Forget => None,
            SweepStep::Show | SweepStep::Repeat => crate::hidpp10::opt_view(
                match outs.last() {
                    Ok(v) => v,
                    Err(_) => None,
                },
            ),
            _ => prev,
        }
    }
}

/// The step the sweep of one register takes on reply `k` of `outs`.
pub open spec fn spec_pass_step(outs: Seq<Result<Option<Vec<u8>>, Error>>, k: int) -> SweepStep {
    spec_sweep_step(spec_pass_last(outs.take(k)), outs[k])
}

/// The values, as (register, long, sub-address, bytes), that the sweep of
/// register `reg` (short or long) shows for the replies `outs` to its
/// sub-addresses 0, 1, ...
pub open spec fn spec_pass_shown(reg: u8, long: bool, outs: Seq<Result<Option<Vec<u8>>, Error>>) -> Seq<
    (u8, bool, u8, Seq<u8>),
>
    decreases outs.len(),
{
    if outs.len() == 0 {
        seq![]
    } else {
        let rest = spec_pass_shown(reg, long, outs.drop_last());
        match outs.last() {
            Ok(Some(data)) => if spec_sweep_step(spec_pass_last(outs.drop_last()), outs.last())
                == SweepStep::Show {
                rest.push((reg, long, (outs.len() - 1) as u8, data@))
            } else {
                rest
            },
            _ => rest,
        }
    }
}

/// Whether `outs` may be the replies that the sweep of register `reg`
/// (short or long) on `chan` gets: one admissible reply per sub-address
/// from 0 on, going on until the step after a reply is to stop or
/// sub-address 0xFE has been read.
pub open spec fn spec_pass_ran<C: HidppChannel>(
    chan: C,
    reg: u8,
    long: bool,
    outs: Seq<Result<Option<Vec<u8>>, Error>>,
) -> bool {
    &&& 1 <= outs.len() <= 0xFF
    &&& forall|k: int| 0 <= k < outs.len() ==> spec_sweep_answer(chan, reg, long, k as u8, #[trigger] outs[k])
    &&& forall|k: int| 0 <= k < outs.len() - 1 ==> #[trigger] spec_pass_step(outs, k) != SweepStep::Stop
    &&& outs.len() < 0xFF ==> spec_pass_step(outs, outs.len() - 1) == SweepStep::Stop
}

/// The values the whole sweep shows, given for each register from 0 on the
/// replies to its short and to its long reads.
pub open spec fn spec_sweep_shown(
    regs: Seq<(Seq<Result<Option<Vec<u8>>, Error>>, Seq<Result<Option<Vec<u8>>, Error>>)>,
) -> Seq<(u8, bool, u8, Seq<u8>)>
    decreases regs.len(),
{
    if regs.len() == 0 {
        seq![]
    } else {
        let r = (regs.len() - 1) as u8;
        spec_sweep_shown(regs.drop_last()) + spec_pass_shown(r, false, regs.last().0) + spec_pass_shown(
            r,
            true,
            regs.last().1,
        )
    }
}

/// Swept values as plain tuples.
pub open spec fn spec_swept_view(s: Seq<SweptValue>) -> Seq<(u8, bool, u8, Seq<u8>)> {
    s.map_values(|v: SweptValue| (v.register, v.long, v.sub, v.data@))
}

/// The offset of the long registers in the sweep order.
pub open spec fn spec_long_offset(long: bool) -> int {
    if long {
        256
    } else {
        0
    }
}

/// Sweep register `reg` (short or long) of the receiver on `chan`,
/// appending the values shown to `out`; gives back the replies it got.
fn sweep_pass<C: HidppChannel>(chan: &C, reg: u8, long: bool, out: &mut Vec<SweptValue>) -> (outs: Ghost<
    Seq<Result<Option<Vec<u8>>, Error>>,
>)
    requires
        reg < 0xFF,
        forall|i: int| 0 <= i < old(out)@.len() ==> spec_swept(*chan, #[trigger] old(out)@[i]),
        forall|i: int, j: int|
            0 <= i < j < old(out)@.len() ==> spec_sweep_key(#[trigger] old(out)@[i]) < spec_sweep_key(
                #[trigger] old(out)@[j],
            ),
        forall|i: int|
            0 <= i < old(out)@.len() ==> spec_sweep_key(#[trigger] old(out)@[i]) < reg * 512 + spec_long_offset(
                long,
            ),
    ensures
        spec_pass_ran(*chan, reg, long, outs@),
        spec_swept_view(final(out)@) == spec_swept_view(old(out)@) + spec_pass_shown(reg, long, outs@),
        forall|i: int| 0 <= i < final(out)@.len() ==> spec_swept(*chan, #[trigger] final(out)@[i]),
        forall|i: int, j: int|
            0 <= i < j < final(out)@.len() ==> spec_sweep_key(#[trigger] final(out)@[i]) < spec_sweep_key(
                #[trigger] final(out)@[j],
            ),
        forall|i: int|
            0 <= i < final(out)@.len() ==> spec_sweep_key(#[trigger] final(out)@[i]) < reg * 512
                + spec_long_offset(long) + 256,
{
    let request_id: u16 = 0x8100 + (if long {
        0x200u16
    } else {
        0u16
    }) + reg as u16;
    assert(request_id == spec_sweep_id(reg, long));
    let ghost base = spec_swept_view(out@);
    let ghost mut outs: Seq<Result<Option<Vec<u8>>, Error>> = seq![];
    let mut last: Option<Vec<u8>> = None;
    let mut sub: u8 = 0;
    while sub < 0xFF
        invariant_except_break
            outs.len() == sub,
            forall|k: int| 0 <= k < outs.len() ==> #[trigger] spec_pass_step(outs, k) != SweepStep::Stop,
        invariant
            reg < 0xFF,
            sub <= 0xFF,
            request_id == spec_sweep_id(reg, long),
            forall|k: int| 0 <= k < outs.len() ==> spec_sweep_answer(*chan, reg, long, k as u8, #[trigger] outs[k]),
            crate::hidpp10::opt_view(last) == spec_pass_last(outs),
            spec_swept_view(out@) == base + spec_pass_shown(reg, long, outs),
            forall|i: int| 0 <= i < out@.len() ==> spec_swept(*chan, #[trigger] out@[i]),
            forall|i: int, j: int|
                0 <= i < j < out@.len() ==> spec_sweep_key(#[trigger] out@[i]) < spec_sweep_key(#[trigger] out@[j]),
            forall|i: int|
                0 <= i < out@.len() ==> spec_sweep_key(#[trigger] out@[i]) < reg * 512 + spec_long_offset(long)
                    + sub,
        ensures
            spec_pass_ran(*chan, reg, long, outs),
            spec_swept_view(out@) == base + spec_pass_shown(reg, long, outs),
            forall|i: int| 0 <= i < out@.len() ==> spec_swept(*chan, #[trigger] out@[i]),
            forall|i: int, j: int|
                0 <= i < j < out@.len() ==> spec_sweep_key(#[trigger] out@[i]) < spec_sweep_key(#[trigger] out@[j]),
            forall|i: int|
                0 <= i < out@.len() ==> spec_sweep_key(#[trigger] out@[i]) < reg * 512 + spec_long_offset(long)
                    + 256,
        decreases 0xFF - sub,
    {
        let mut params: Vec<u8> = Vec::new();
        params.push(sub);
        assert(params@ == seq![sub]);
        let opts = RequestOptions {
            no_reply: false,
            return_error: true,
            long_message: false,
            protocol: crate::base::ProtocolVersion { major: 0, minor: 0 },
        };
        let result = chan.request(crate::message::RECEIVER_DEVICE_NUMBER, request_id, params.as_slice(), &opts);
        let ghost prev = outs;
        proof {
            outs = outs.push(result);
            assert(outs.drop_last() =~= prev);
            assert(outs.take(prev.len() as int) =~= prev);
            assert forall|k: int| 0 <= k < prev.len() implies #[trigger] spec_pass_step(outs, k) == spec_pass_step(
                prev,
                k,
            ) by {
                assert(outs.take(k) =~= prev.take(k));
            }
            assert(spec_pass_step(outs, prev.len() as int) == spec_sweep_step(spec_pass_last(prev), result));
        }
        let step = sweep_step(&last, &result);
        match step {
            SweepStep::Stop => {
                break;
            },
            SweepStep::Skip => {},
            SweepStep::Forget => {
                last = None;
            },
            SweepStep::Show => {
                if let Ok(Some(data)) = result {
                    let kept = crate::bytes::copy_range(data.as_slice(), 0, data.len());
                    assert(kept@ =~= data@);
                    let v = SweptValue { register: reg, long, sub, data: kept };
                    assert(spec_swept(*chan, v));
                    assert(spec_sweep_key(v) == reg * 512 + spec_long_offset(long) + sub);
                    let ghost before = out@;
                    out.push(v);
                    assert(spec_swept_view(out@) =~= spec_swept_view(before).push((reg, long, sub, data@)));
                    last = Some(data);
                }
            },
            SweepStep::Repeat => {
                if let Ok(Some(data)) = result {
                    last = Some(data);
                }
            },
        }
        sub = sub + 1;
    }
    Ghost(outs)
}

/// Sweep the short and then the long registers 0x00 to 0xFE of the
/// receiver on `chan`: for each, read sub-addresses from 0x00 on with
/// error codes returned, until [`sweep_step`] says to stop or 0xFE has been
/// read. Returns the values shown, in sweep order: exactly those that
/// folding the sweep steps over one admissible reply per read shows.
pub fn sweep_registers<C: HidppChannel>(chan: &C) -> (r: Vec<SweptValue>)
    ensures
        exists|regs: Seq<(Seq<Result<Option<Vec<u8>>, Error>>, Seq<Result<Option<Vec<u8>>, Error>>)>|
            #![trigger spec_sweep_shown(regs)]
            regs.len() == 0xFF && (forall|g: int|
                0 <= g < 0xFF ==> spec_pass_ran(*chan, g as u8, false, #[trigger] regs[g].0) && spec_pass_ran(
                    *chan,
                    g as u8,
                    true,
                    regs[g].1,
                )) && spec_swept_view(r@) == spec_sweep_shown(regs),
        forall|i: int| 0 <= i < r@.len() ==> spec_swept(*chan, #[trigger] r@[i]),
        forall|i: int, j: int| 0 <= i < j < r@.len() ==> spec_sweep_key(#[trigger] r@[i]) < spec_sweep_key(#[trigger] r@[j]),
{
    let mut out: Vec<SweptValue> = Vec::new();
    let ghost mut regs: Seq<(Seq<Result<Option<Vec<u8>>, Error>>, Seq<Result<Option<Vec<u8>>, Error>>)> = seq![];
    let mut reg: u8 = 0;
    assert(spec_swept_view(out@) =~= seq![]);
    while reg < 0xFF
        invariant
            reg <= 0xFF,
            regs.len() == reg,
            forall|g: int|
                0 <= g < regs.len() ==> spec_pass_ran(*chan, g as u8, false, #[trigger] regs[g].0) && spec_pass_ran(
                    *chan,
                    g as u8,
                    true,
                    regs[g].1,
                ),
            spec_swept_view(out@) == spec_sweep_shown(regs),
            forall|i: int| 0 <= i < out@.len() ==> spec_swept(*chan, #[trigger] out@[i]),
            forall|i: int, j: int|
                0 <= i < j < out@.len() ==> spec_sweep_key(#[trigger] out@[i]) < spec_sweep_key(#[trigger] out@[j]),
            forall|i: int| 0 <= i < out@.len() ==> spec_sweep_key(#[trigger] out@[i]) < reg * 512,
        decreases 0xFF - reg,
    {
        let short = sweep_pass(chan, reg, false, &mut out);
        let long = sweep_pass(chan, reg, true, &mut out);
        let ghost prev = regs;
        proof {
            regs = regs.push((short@, long@));
            assert(regs.drop_last() =~= prev);
            assert forall|g: int| 0 <= g < regs.len() implies spec_pass_ran(
                *chan,
                g as u8,
                false,
                #[trigger] regs[g].0,
            ) && spec_pass_ran(*chan, g as u8, true, regs[g].1) by {
                if g < prev.len() {
                    assert(regs[g] == prev[g]);
                }
            }
            assert(spec_sweep_shown(regs) =~= spec_sweep_shown(prev) + spec_pass_shown(reg, false, short@)
                + spec_pass_shown(reg, true, long@));
        }
        reg = reg + 1;
    }
    out
}

} // verus!
