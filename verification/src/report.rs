//! The text the command line shows for receivers and devices: notification
//! flag names, flag values, battery readings and activity counters.

use vstd::prelude::*;
use vstd::string::StringExecFns;
use crate::common::{Battery, BatteryStatus};
use crate::hidpp10_constants::NotificationFlag;
use crate::text::{push_char, push_decimal};

verus! {

/// The name of one notification flag when `bits` has it set.
pub open spec fn spec_flag_name_if(bits: u32, flag: u32, name: &'static str) -> Seq<&'static str> {
    if bits & flag == flag {
        seq![name]
    } else {
        seq![]
    }
}

/// The names of the notification flags set in `bits`, in display order.
pub open spec fn spec_flag_names(bits: u32) -> Seq<&'static str> {
    spec_flag_name_if(bits, 0x100000, "battery status") + spec_flag_name_if(
        bits,
        0x010000,
        "keyboard multimedia raw",
    ) + spec_flag_name_if(bits, 0x000800, "software present") + spec_flag_name_if(
        bits,
        0x000200,
        "ui",
    ) + spec_flag_name_if(bits, 0x000100, "wireless") + spec_flag_name_if(
        bits,
        0x000004,
        "configuration complete",
    )
}

/// Appends `name` when `flags` has `flag`.
fn push_name_if(out: &mut Vec<&'static str>, flags: NotificationFlag, flag: NotificationFlag, name: &'static str)
    ensures
        final(out)@ == old(out)@ + spec_flag_name_if(flags.bits, flag.bits, name),
{
    if flags.contains(flag) {
        out.push(name);
        assert(final(out)@ =~= old(out)@ + seq![name]);
    } else {
        assert(out@ =~= out@ + Seq::<&'static str>::empty());
    }
}

/// The names of the notification flags set, in display order: battery
/// status, keyboard multimedia raw, software present, ui, wireless,
/// configuration complete.
pub fn notification_flag_names(flags: NotificationFlag) -> (r: Vec<&'static str>)
    ensures
        r@ == spec_flag_names(flags.bits),
{
    let mut out: Vec<&'static str> = Vec::new();
    let ghost b = flags.bits;
    push_name_if(&mut out, flags, NotificationFlag::battery_status(), "battery status");
    let ghost s1 = spec_flag_name_if(b, 0x100000, "battery status");
    assert(out@ =~= s1);
    push_name_if(&mut out, flags, NotificationFlag::keyboard_multimedia_raw(), "keyboard multimedia raw");
    let ghost s2 = s1 + spec_flag_name_if(b, 0x010000, "keyboard multimedia raw");
    assert(out@ =~= s2);
    push_name_if(&mut out, flags, NotificationFlag::software_present(), "software present");
    let ghost s3 = s2 + spec_flag_name_if(b, 0x000800, "software present");
    assert(out@ =~= s3);
    push_name_if(&mut out, flags, NotificationFlag::ui(), "ui");
    let ghost s4 = s3 + spec_flag_name_if(b, 0x000200, "ui");
    assert(out@ =~= s4);
    push_name_if(&mut out, flags, NotificationFlag::wireless(), "wireless");
    let ghost s5 = s4 + spec_flag_name_if(b, 0x000100, "wireless");
    assert(out@ =~= s5);
    push_name_if(&mut out, flags, NotificationFlag::configuration_complete(), "configuration complete");
    let ghost s6 = s5 + spec_flag_name_if(b, 0x000004, "configuration complete");
    assert(out@ =~= s6);
    assert(out@ =~= spec_flag_names(flags.bits));
    out
}

/// Texts joined with `, `.
pub open spec fn spec_join(parts: Seq<Seq<char>>) -> Seq<char>
    decreases parts.len(),
{
    if parts.len() == 0 {
        seq![]
    } else if parts.len() == 1 {
        parts[0]
    } else {
        spec_join(parts.drop_last()) + ", "@ + parts.last()
    }
}

/// Names joined with `, `.
pub fn join_names(names: &Vec<&'static str>) -> (r: String)
    ensures
        r@ == spec_join(names@.map_values(|s: &'static str| s@)),
{
    let mut s = String::new();
    let mut i: usize = 0;
    while i < names.len()
        invariant
            i <= names@.len(),
            s@ == spec_join(names@.take(i as int).map_values(|s: &'static str| s@)),
        decreases names@.len() - i,
    {
        let ghost before = s@;
        if i > 0 {
            s.append(", ");
        }
        s.append(names[i]);
        proof {
            let f = |s: &'static str| s@;
            let t = names@.take(i + 1).map_values(f);
            assert(t.drop_last() =~= names@.take(i as int).map_values(f));
            assert(t.last() == names@[i as int]@);
            if i == 0 {
                assert(t.len() == 1);
                assert(before =~= Seq::<char>::empty());
                assert(s@ =~= names@[0]@);
            }
        }
        i = i + 1;
    }
    assert(names@.take(names@.len() as int) =~= names@);
    s
}

/// The upper case hexadecimal digits of `v`, without leading zeros ("0"
/// for 0).
pub open spec fn spec_hex_digits(v: nat) -> Seq<char>
    decreases v,
{
    if v < 16 {
        seq![crate::text::spec_hex_digit(v as int, true)]
    } else {
        spec_hex_digits(v / 16).push(crate::text::spec_hex_digit((v % 16) as int, true))
    }
}

/// `v` as `0x` and at least six upper case hexadecimal digits, padded with
/// zeros.
pub open spec fn spec_hex6_text(v: u32) -> Seq<char> {
    let d = spec_hex_digits(v as nat);
    "0x"@ + Seq::new(if d.len() < 6 { (6 - d.len()) as nat } else { 0 }, |_i: int| '0') + d
}

/// The upper case hexadecimal digits of `v`.
fn hex_digits(v: u32) -> (r: Vec<char>)
    ensures
        r@ == spec_hex_digits(v as nat),
        1 <= r@.len() <= 8,
    decreases v,
{
    if v < 16 {
        let mut r: Vec<char> = Vec::new();
        r.push(crate::text::hex_digit(v as u8, true));
        assert(r@ =~= spec_hex_digits(v as nat));
        r
    } else {
        let mut r = hex_digits(v / 16);
        r.push(crate::text::hex_digit((v % 16) as u8, true));
        proof {
            lemma_hex_digits_len((v / 16) as nat);
        }
        r
    }
}

/// A number below 16^k has at most k digits.
proof fn lemma_hex_digits_len(v: nat)
    ensures
        spec_hex_digits(v).len() >= 1,
        v < 0x10 ==> spec_hex_digits(v).len() <= 1,
        v < 0x100 ==> spec_hex_digits(v).len() <= 2,
        v < 0x1000 ==> spec_hex_digits(v).len() <= 3,
        v < 0x1_0000 ==> spec_hex_digits(v).len() <= 4,
        v < 0x10_0000 ==> spec_hex_digits(v).len() <= 5,
        v < 0x100_0000 ==> spec_hex_digits(v).len() <= 6,
        v < 0x1000_0000 ==> spec_hex_digits(v).len() <= 7,
        v < 0x1_0000_0000 ==> spec_hex_digits(v).len() <= 8,
    decreases v,
{
    if v >= 16 {
        lemma_hex_digits_len(v / 16);
    }
}

/// `v` as `0x` and at least six upper case hexadecimal digits.
pub fn hex6_text(v: u32) -> (r: String)
    ensures
        r@ == spec_hex6_text(v),
{
    let d = hex_digits(v);
    let mut s = String::from_str("0x");
    let pad: usize = if d.len() < 6 {
        6 - d.len()
    } else {
        0
    };
    let mut i: usize = 0;
    assert(s@ =~= "0x"@ + Seq::new(0, |_i: int| '0'));
    while i < pad
        invariant
            i <= pad,
            s@ == "0x"@ + Seq::new(i as nat, |_i: int| '0'),
        decreases pad - i,
    {
        push_char(&mut s, '0');
        i = i + 1;
        assert(s@ =~= "0x"@ + Seq::new(i as nat, |_i: int| '0'));
    }
    crate::text::push_str(&mut s, &d);
    assert(s@ =~= spec_hex6_text(v));
    s
}

/// What the flags line shows: `(none)`, or the flag names joined with
/// `, ` and the value in hexadecimal in parentheses.
pub open spec fn spec_flags_text(flags: NotificationFlag) -> Seq<char> {
    if flags.bits == 0 {
        "(none)"@
    } else {
        spec_join(spec_flag_names(flags.bits).map_values(|s: &'static str| s@)) + " ("@
            + spec_hex6_text(flags.bits) + ")"@
    }
}

/// What the flags line shows for `flags`.
pub fn flags_text(flags: NotificationFlag) -> (r: String)
    ensures
        r@ == spec_flags_text(flags),
{
    if flags.is_empty() {
        return String::from_str("(none)");
    }
    let names = notification_flag_names(flags);
    let mut s = join_names(&names);
    s.append(" (");
    let h = hex6_text(flags.bits());
    s.append(h.as_str());
    s.append(")");
    s
}

/// The name of a battery status, as Rust's debug output writes an
/// optional status.
pub open spec fn spec_status_debug(s: Option<BatteryStatus>) -> Seq<char> {
    match s {
        None => "None"@,
        Some(st) => "Some("@ + match st {
            BatteryStatus::Discharging => "Discharging"@,
            BatteryStatus::Recharging => "Recharging"@,
            BatteryStatus::AlmostFull => "AlmostFull"@,
            BatteryStatus::Full => "Full"@,
            BatteryStatus::SlowRecharge => "SlowRecharge"@,
            BatteryStatus::InvalidBattery => "InvalidBattery"@,
            BatteryStatus::ThermalError => "ThermalError"@,
        } + ")"@,
    }
}

/// The name of a battery status.
fn status_debug(s: Option<BatteryStatus>) -> (r: &'static str)
    ensures
        r@ == match s {
            None => "None"@,
            Some(BatteryStatus::Discharging) => "Some(Discharging)"@,
            Some(BatteryStatus::Recharging) => "Some(Recharging)"@,
            Some(BatteryStatus::AlmostFull) => "Some(AlmostFull)"@,
            Some(BatteryStatus::Full) => "Some(Full)"@,
            Some(BatteryStatus::SlowRecharge) => "Some(SlowRecharge)"@,
            Some(BatteryStatus::InvalidBattery) => "Some(InvalidBattery)"@,
            Some(BatteryStatus::ThermalError) => "Some(ThermalError)"@,
        },
{
    match s {
        None => "None",
        Some(BatteryStatus::Discharging) => "Some(Discharging)",
        Some(BatteryStatus::Recharging) => "Some(Recharging)",
        Some(BatteryStatus::AlmostFull) => "Some(AlmostFull)",
        Some(BatteryStatus::Full) => "Some(Full)",
        Some(BatteryStatus::SlowRecharge) => "Some(SlowRecharge)",
        Some(BatteryStatus::InvalidBattery) => "Some(InvalidBattery)",
        Some(BatteryStatus::ThermalError) => "Some(ThermalError)",
    }
}

/// What the battery line shows: the level in percent (or N/A), the voltage
/// in mV when known, the status, the next level when known, and a full
/// stop.
pub open spec fn spec_battery_text(b: Battery) -> Seq<char> {
    (match b.level {
        Some(l) => crate::text::spec_decimal(l as nat) + "%"@,
        None => "N/A"@,
    }) + (match b.voltage {
        Some(v) => " "@ + crate::text::spec_decimal(v as nat) + "mV"@,
        None => seq![],
    }) + ", "@ + (match b.status {
        None => "None"@,
        Some(BatteryStatus::Discharging) => "Some(Discharging)"@,
        Some(BatteryStatus::Recharging) => "Some(Recharging)"@,
        Some(BatteryStatus::AlmostFull) => "Some(AlmostFull)"@,
        Some(BatteryStatus::Full) => "Some(Full)"@,
        Some(BatteryStatus::SlowRecharge) => "Some(SlowRecharge)"@,
        Some(BatteryStatus::InvalidBattery) => "Some(InvalidBattery)"@,
        Some(BatteryStatus::ThermalError) => "Some(ThermalError)"@,
    }) + (match b.next_level {
        Some(n) => ", next level "@ + crate::text::spec_decimal(n as nat) + "%"@,
        None => seq![],
    }) + "."@
}

/// What the battery line shows for `b`.
pub fn battery_text(b: &Battery) -> (r: String)
    ensures
        r@ == spec_battery_text(*b),
{
    let mut s = String::new();
    match b.level {
        Some(l) => {
            push_decimal(&mut s, l as u64);
            s.append("%");
        },
        None => s.append("N/A"),
    }
    match b.voltage {
        Some(v) => {
            s.append(" ");
            push_decimal(&mut s, v as u64);
            s.append("mV");
        },
        None => {},
    }
    s.append(", ");
    s.append(status_debug(b.status));
    match b.next_level {
        Some(n) => {
            s.append(", next level ");
            push_decimal(&mut s, n as u64);
            s.append("%");
        },
        None => {},
    }
    s.append(".");
    assert(s@ =~= spec_battery_text(*b));
    s
}

/// The activity counters shown for devices `1..k` (below `k`): `d=a` for
/// each device whose counter `a` is present and not zero.
pub open spec fn spec_activity_pairs(activity: Seq<u8>, k: nat) -> Seq<Seq<char>>
    decreases k,
{
    if k <= 1 {
        seq![]
    } else {
        let d = (k - 1) as nat;
        spec_activity_pairs(activity, d) + if d - 1 < activity.len() && activity[d - 1] > 0 {
            seq![crate::text::spec_decimal(d) + "="@ + crate::text::spec_decimal(activity[d - 1] as nat)]
        } else {
            seq![]
        }
    }
}

/// One more device adds its counter when it is present and not zero.
proof fn lemma_activity_step(activity: Seq<u8>, d: nat)
    requires
        d >= 1,
    ensures
        spec_activity_pairs(activity, d + 1) == spec_activity_pairs(activity, d) + if d - 1
            < activity.len() && activity[d - 1] > 0 {
            seq![crate::text::spec_decimal(d) + "="@ + crate::text::spec_decimal(activity[d - 1] as nat)]
        } else {
            Seq::<Seq<char>>::empty()
        },
{
    assert(((d + 1) - 1) as nat == d);
}

/// What the activity line shows: the counters of devices 1 to
/// `max_devices - 1` that are present and not zero, as `d=a` joined with
/// `, `, or `(empty)`.
pub open spec fn spec_activity_text(activity: Seq<u8>, max_devices: u8) -> Seq<char> {
    let pairs = spec_activity_pairs(activity, max_devices as nat);
    if pairs.len() == 0 {
        "(empty)"@
    } else {
        spec_join(pairs)
    }
}

/// What the activity line shows.
pub fn activity_text(activity: &[u8], max_devices: u8) -> (r: String)
    ensures
        r@ == spec_activity_text(activity@, max_devices),
{
    let mut s = String::new();
    let mut count: usize = 0;
    let mut d: u8 = 1;
    while d < max_devices
        invariant
            1 <= d,
            d <= max_devices || max_devices == 0,
            max_devices == 0 ==> d == 1,
            count == spec_activity_pairs(activity@, d as nat).len(),
            count <= d,
            count == 0 ==> s@ == Seq::<char>::empty(),
            count > 0 ==> s@ == spec_join(spec_activity_pairs(activity@, d as nat)),
        decreases max_devices - d,
    {
        let idx: usize = (d - 1) as usize;
        if idx < activity.len() && activity[idx] > 0 {
            let ghost before = s@;
            if count > 0 {
                s.append(", ");
            }
            push_decimal(&mut s, d as u64);
            s.append("=");
            push_decimal(&mut s, activity[idx] as u64);
            proof {
                lemma_activity_step(activity@, d as nat);
                let p = spec_activity_pairs(activity@, (d + 1) as nat);
                let q = spec_activity_pairs(activity@, d as nat);
                assert(p == q + seq![crate::text::spec_decimal(d as nat) + "="@ + crate::text::spec_decimal(activity@[idx as int] as nat)]);
                assert(p.drop_last() =~= q);
                if count == 0 {
                    assert(s@ =~= crate::text::spec_decimal(d as nat) + "="@ + crate::text::spec_decimal(activity@[idx as int] as nat));
                } else {
                    assert(s@ =~= before + ", "@ + (crate::text::spec_decimal(d as nat) + "="@ + crate::text::spec_decimal(activity@[idx as int] as nat)));
                }
            }
            count = count + 1;
        } else {
            proof {
                lemma_activity_step(activity@, d as nat);
            }
            assert(spec_activity_pairs(activity@, (d + 1) as nat) =~= spec_activity_pairs(activity@, d as nat));
        }
        d = d + 1;
    }
    proof {
        if max_devices == 0 {
            assert(spec_activity_pairs(activity@, 0) =~= spec_activity_pairs(activity@, 1));
        }
    }
    if count == 0 {
        return String::from_str("(empty)");
    }
    s
}

/// The value of upper-case hexadecimal digits read most significant first.
pub open spec fn spec_hex_value(d: Seq<char>) -> int
    decreases d.len(),
{
    if d.len() == 0 {
        0
    } else {
        spec_hex_value(d.drop_last()) * 16 + (if d.last() as int <= '9' as int {
            d.last() as int - '0' as int
        } else {
            d.last() as int - 'A' as int + 10
        })
    }
}

/// The hexadecimal digits of a number read back as that number, and start
/// with a non-zero digit unless the number is 0.
pub proof fn lemma_hex_digits_value(v: nat)
    ensures
        spec_hex_value(spec_hex_digits(v)) == v,
        spec_hex_digits(v).len() >= 1,
        v > 0 ==> spec_hex_digits(v)[0] != '0',
    decreases v,
{
    let d = spec_hex_digits(v);
    let r = (v % 16) as int;
    let c = crate::text::spec_hex_digit(r, true);
    assert(c as int == if r < 10 {
        '0' as int + r
    } else {
        'A' as int + r - 10
    });
    assert((if c as int <= '9' as int {
        c as int - '0' as int
    } else {
        c as int - 'A' as int + 10
    }) == r);
    assert(d.last() == c);
    assert(spec_hex_value(d) == spec_hex_value(d.drop_last()) * 16 + r);
    if v >= 16 {
        lemma_hex_digits_value(v / 16);
        assert(d.drop_last() =~= spec_hex_digits(v / 16));
        assert(v == (v / 16) * 16 + r);
        assert(d[0] == spec_hex_digits(v / 16)[0]);
    } else {
        assert(d.drop_last() =~= Seq::<char>::empty());
    }
}

/// A flags line lists, in this order, "battery status" for bit 20,
/// "keyboard multimedia raw" for bit 16, "software present" for bit 11,
/// "ui" for bit 9, "wireless" for bit 8 and "configuration complete" for
/// bit 2, each exactly when that bit is set.
#[verifier::rlimit(60)]
pub proof fn lemma_flag_names_bits(bits: u32)
    ensures
        ({
            let n = spec_flag_names(bits);
            let b20: int = if (bits as int / 0x100000) % 2 == 1 { 1 } else { 0 };
            let b16: int = if (bits as int / 0x10000) % 2 == 1 { 1 } else { 0 };
            let b11: int = if (bits as int / 0x800) % 2 == 1 { 1 } else { 0 };
            let b9: int = if (bits as int / 0x200) % 2 == 1 { 1 } else { 0 };
            let b8: int = if (bits as int / 0x100) % 2 == 1 { 1 } else { 0 };
            let b2: int = if (bits as int / 0x4) % 2 == 1 { 1 } else { 0 };
            &&& n.len() == b20 + b16 + b11 + b9 + b8 + b2
            &&& b20 == 1 ==> n[0] == "battery status"
            &&& b16 == 1 ==> n[b20] == "keyboard multimedia raw"
            &&& b11 == 1 ==> n[b20 + b16] == "software present"
            &&& b9 == 1 ==> n[b20 + b16 + b11] == "ui"
            &&& b8 == 1 ==> n[b20 + b16 + b11 + b9] == "wireless"
            &&& b2 == 1 ==> n[b20 + b16 + b11 + b9 + b8] == "configuration complete"
        }),
{
    assert((bits & 0x100000 == 0x100000) == ((bits / 0x100000) % 2 == 1)) by (bit_vector);
    assert((bits & 0x010000 == 0x010000) == ((bits / 0x10000) % 2 == 1)) by (bit_vector);
    assert((bits & 0x000800 == 0x000800) == ((bits / 0x800) % 2 == 1)) by (bit_vector);
    assert((bits & 0x000200 == 0x000200) == ((bits / 0x200) % 2 == 1)) by (bit_vector);
    assert((bits & 0x000100 == 0x000100) == ((bits / 0x100) % 2 == 1)) by (bit_vector);
    assert((bits & 0x000004 == 0x000004) == ((bits / 0x4) % 2 == 1)) by (bit_vector);
    let p1 = spec_flag_name_if(bits, 0x100000, "battery status");
    let p2 = spec_flag_name_if(bits, 0x010000, "keyboard multimedia raw");
    let p3 = spec_flag_name_if(bits, 0x000800, "software present");
    let p4 = spec_flag_name_if(bits, 0x000200, "ui");
    let p5 = spec_flag_name_if(bits, 0x000100, "wireless");
    let p6 = spec_flag_name_if(bits, 0x000004, "configuration complete");
    let q = p1 + p2 + p3 + p4 + p5;
    assert(spec_flag_names(bits) == q + p6);
    let q4 = p1 + p2 + p3 + p4;
    let q3 = p1 + p2 + p3;
    let q2 = p1 + p2;
    assert(q == q4 + p5);
    assert(q4 == q3 + p4);
    assert(q3 == q2 + p3);
}

} // verus!
