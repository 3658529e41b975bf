//! Device settings: the catalogue of simple settings (toggles, ranges and
//! choices) that live in HID++ 2.0 features or HID++ 1.0 registers, and the
//! coding of their values to and from raw bytes.

use vstd::prelude::*;
use vstd::string::{StrSliceExecFns, StringExecFns};
use crate::base::ProtocolVersion;
use crate::bytes::{append_bytes, copy_range};
use crate::error::Error;
use crate::hidpp10::{opt_view, read_register, write_register, Hidpp10Device};
use crate::hidpp10_constants::Register;
use crate::hidpp20::Hidpp20Device;
use crate::hidpp20_constants::SupportedFeature;
use crate::text::push_decimal;

verus! {

/// How a setting's value is coded in bytes.
#[derive(Debug, Clone)]
pub enum Validator {
    /// A boolean, possibly sharing bits with other settings: only the bits
    /// of `mask` carry it.
    Toggle {
        true_value: Vec<u8>,
        false_value: Vec<u8>,
        mask: Vec<u8>,
        /// Bytes of the reply to skip before the value.
        read_skip: usize,
        /// Bytes written before the value.
        write_prefix: Vec<u8>,
    },
    /// An integer in `min..=max`, big-endian in `byte_count` bytes.
    Range { min: i64, max: i64, byte_count: usize, read_skip: usize, write_prefix: Vec<u8> },
    /// One of several named integers, big-endian in `byte_count` bytes.
    Choice {
        options: Vec<(i64, &'static str)>,
        byte_count: usize,
        read_skip: usize,
        write_prefix: Vec<u8>,
    },
}

/// Where a setting lives on the device.
#[derive(Debug, Clone)]
pub enum Source {
    /// A HID++ 2.0 feature, read and written with the given functions;
    /// `prefix` precedes the read and write parameters, `suffix` follows the
    /// written value.
    Feature {
        feature: SupportedFeature,
        read_fnid: u8,
        write_fnid: u8,
        prefix: &'static [u8],
        suffix: &'static [u8],
    },
    /// A HID++ 1.0 register.
    Register { register: Register },
}

/// Static description of one device setting.
pub struct SettingDef {
    pub name: &'static str,
    pub label: &'static str,
    pub description: &'static str,
    pub source: Source,
    pub validator: Validator,
}

/// The value of a setting.
#[derive(Debug, Clone)]
pub enum SettingValue {
    Toggle(bool),
    Range(i64),
    Choice(String),
}

/// The text of a boolean.
pub open spec fn spec_bool_text(b: bool) -> Seq<char> {
    if b {
        seq!['t', 'r', 'u', 'e']
    } else {
        seq!['f', 'a', 'l', 's', 'e']
    }
}

/// The text of a setting value: `true`/`false`, the integer in decimal, or
/// the choice's label.
pub open spec fn spec_value_text(v: SettingValue) -> Seq<char> {
    match v {
        SettingValue::Toggle(b) => spec_bool_text(b),
        SettingValue::Range(n) => crate::text::spec_signed_decimal(n as int),
        SettingValue::Choice(s) => s@,
    }
}

/// Appends the decimal rendering of a signed integer.
pub fn push_signed_decimal(s: &mut String, n: i64)
    ensures
        final(s)@ == old(s)@ + crate::text::spec_signed_decimal(n as int),
{
    if n < 0 {
        crate::text::push_char(s, '-');
        let m: u64 = (0i128 - (n as i128)) as u64;
        push_decimal(s, m);
    } else {
        push_decimal(s, n as u64);
    }
}

/// Appends the characters of `t`.
fn push_text(s: &mut String, t: &str)
    ensures
        final(s)@ == old(s)@ + t@,
{
    s.append(t);
}

impl SettingValue {
    /// The text of this value: `true`/`false`, the integer in decimal, or
    /// the choice's label.
    pub fn to_display_string(&self) -> (r: String)
        ensures
            r@ == spec_value_text(*self),
    {
        match self {
            SettingValue::Toggle(b) => {
                let mut s = String::new();
                if *b {
                    push_text(&mut s, "true");
                    proof {
                        reveal_strlit("true");
                    }
                } else {
                    push_text(&mut s, "false");
                    proof {
                        reveal_strlit("false");
                    }
                }
                assert(s@ =~= spec_bool_text(*b));
                s
            },
            SettingValue::Range(n) => {
                let mut s = String::new();
                push_signed_decimal(&mut s, *n);
                assert(s@ =~= crate::text::spec_signed_decimal(*n as int));
                s
            },
            SettingValue::Choice(c) => c.clone(),
        }
    }
}

/// The ASCII lower case of a character; other characters are unchanged.
pub open spec fn spec_ascii_lower(c: char) -> char {
    if 'A' <= c && c <= 'Z' {
        ((c as u32) + 32) as char
    } else {
        c
    }
}

/// The ASCII lower case of each character.
pub open spec fn spec_ascii_lower_seq(s: Seq<char>) -> Seq<char> {
    s.map_values(|c: char| spec_ascii_lower(c))
}

/// Whether two texts are equal but for ASCII case.
pub open spec fn spec_eq_ignore_ascii_case(a: Seq<char>, b: Seq<char>) -> bool {
    spec_ascii_lower_seq(a) == spec_ascii_lower_seq(b)
}

fn ascii_lower(c: char) -> (r: char)
    ensures
        r == spec_ascii_lower(c),
{
    if 'A' <= c && c <= 'Z' {
        ((c as u8) + 32) as char
    } else {
        c
    }
}

/// The characters of `s`, lower-cased in ASCII.
fn lower_chars(s: &str) -> (r: Vec<char>)
    ensures
        r@ == spec_ascii_lower_seq(s@),
{
    let n: usize = s.unicode_len();
    let mut out: Vec<char> = Vec::new();
    let mut i: usize = 0;
    while i < n
        invariant
            i <= n,
            n == s@.len(),
            out@ == spec_ascii_lower_seq(s@.take(i as int)),
        decreases n - i,
    {
        let c = s.get_char(i);
        out.push(ascii_lower(c));
        i = i + 1;
        assert(out@ =~= spec_ascii_lower_seq(s@.take(i as int)));
    }
    assert(s@.take(n as int) =~= s@);
    out
}

/// Whether `a` and `b` hold the same characters.
fn chars_eq(a: &Vec<char>, b: &[char]) -> (r: bool)
    ensures
        r == (a@ == b@),
{
    if a.len() != b.len() {
        return false;
    }
    let mut i: usize = 0;
    while i < a.len()
        invariant
            i <= a@.len(),
            a@.len() == b@.len(),
            a@.take(i as int) == b@.take(i as int),
        decreases a@.len() - i,
    {
        if a[i] != b[i] {
            assert(a@[i as int] != b@[i as int]);
            return false;
        }
        i = i + 1;
        assert(a@.take(i as int) =~= b@.take(i as int));
    }
    assert(a@ =~= a@.take(a@.len() as int));
    assert(b@ =~= b@.take(b@.len() as int));
    true
}

/// Whether two texts are equal but for ASCII case.
fn eq_ignore_ascii_case(a: &str, b: &str) -> (r: bool)
    ensures
        r == spec_eq_ignore_ascii_case(a@, b@),
{
    let la = lower_chars(a);
    let lb = lower_chars(b);
    chars_eq(&la, lb.as_slice())
}

/// The boolean a word denotes, ignoring case: true, yes, on, 1, t, y, or
/// false, no, off, 0, f, n. (These words are ASCII, and no other
/// character lower-cases into one of them.)
pub open spec fn spec_parse_bool(s: Seq<char>) -> Option<bool> {
    let l = spec_ascii_lower_seq(s);
    if l == seq!['t', 'r', 'u', 'e'] || l == seq!['y', 'e', 's'] || l == seq!['o', 'n'] || l
        == seq!['1'] || l == seq!['t'] || l == seq!['y'] {
        Some(true)
    } else if l == seq!['f', 'a', 'l', 's', 'e'] || l == seq!['n', 'o'] || l == seq!['o', 'f', 'f']
        || l == seq!['0'] || l == seq!['f'] || l == seq!['n'] {
        Some(false)
    } else {
        None
    }
}

/// The boolean a word denotes, ignoring case.
pub fn parse_bool(s: &str) -> (r: Option<bool>)
    ensures
        r == spec_parse_bool(s@),
{
    let l = lower_chars(s);
    let w_true = ['t', 'r', 'u', 'e'];
    let w_yes = ['y', 'e', 's'];
    let w_on = ['o', 'n'];
    let w_one = ['1'];
    let w_t = ['t'];
    let w_y = ['y'];
    let w_false = ['f', 'a', 'l', 's', 'e'];
    let w_no = ['n', 'o'];
    let w_off = ['o', 'f', 'f'];
    let w_zero = ['0'];
    let w_f = ['f'];
    let w_n = ['n'];
    assert(w_true@ =~= seq!['t', 'r', 'u', 'e']);
    assert(w_yes@ =~= seq!['y', 'e', 's']);
    assert(w_on@ =~= seq!['o', 'n']);
    assert(w_one@ =~= seq!['1']);
    assert(w_t@ =~= seq!['t']);
    assert(w_y@ =~= seq!['y']);
    assert(w_false@ =~= seq!['f', 'a', 'l', 's', 'e']);
    assert(w_no@ =~= seq!['n', 'o']);
    assert(w_off@ =~= seq!['o', 'f', 'f']);
    assert(w_zero@ =~= seq!['0']);
    assert(w_f@ =~= seq!['f']);
    assert(w_n@ =~= seq!['n']);
    if chars_eq(&l, &w_true) || chars_eq(&l, &w_yes) || chars_eq(&l, &w_on) || chars_eq(&l, &w_one)
        || chars_eq(&l, &w_t) || chars_eq(&l, &w_y) {
        Some(true)
    } else if chars_eq(&l, &w_false) || chars_eq(&l, &w_no) || chars_eq(&l, &w_off) || chars_eq(
        &l,
        &w_zero,
    ) || chars_eq(&l, &w_f) || chars_eq(&l, &w_n) {
        Some(false)
    } else {
        None
    }
}

/// Whether a character is an ASCII decimal digit.
pub open spec fn spec_is_digit(c: char) -> bool {
    '0' <= c && c <= '9'
}

/// The value of a string of decimal digits.
pub open spec fn spec_digits_value(d: Seq<char>) -> int
    decreases d.len(),
{
    if d.len() == 0 {
        0
    } else {
        spec_digits_value(d.drop_last()) * 10 + (d.last() as int - '0' as int)
    }
}

/// The part of a number's text after its sign, if any.
pub open spec fn spec_digits_part(s: Seq<char>) -> Seq<char> {
    if s.len() > 0 && (s[0] == '-' || s[0] == '+') {
        s.skip(1)
    } else {
        s
    }
}

/// Whether a text is one or more ASCII digits.
pub open spec fn spec_all_digits(d: Seq<char>) -> bool {
    d.len() > 0 && forall|i: int| 0 <= i < d.len() ==> spec_is_digit(#[trigger] d[i])
}

/// The 64-bit integer a text denotes, as Rust reads it: an optional `+` or
/// `-`, then one or more ASCII digits; `None` when it is not one or does
/// not fit.
pub open spec fn spec_parse_i64(s: Seq<char>) -> Option<i64> {
    let d = spec_digits_part(s);
    if !spec_all_digits(d) {
        None
    } else {
        let v = if s[0] == '-' {
            -spec_digits_value(d)
        } else {
            spec_digits_value(d)
        };
        if i64::MIN <= v && v <= i64::MAX {
            Some(v as i64)
        } else {
            None
        }
    }
}

/// A string of digits is worth at least any of its prefixes.
proof fn lemma_digits_value_mono(d: Seq<char>, k: int)
    requires
        0 <= k <= d.len(),
        forall|i: int| 0 <= i < d.len() ==> spec_is_digit(#[trigger] d[i]),
    ensures
        spec_digits_value(d) >= spec_digits_value(d.take(k)) >= 0,
    decreases d.len(),
{
    if d.len() == 0 {
        assert(d.take(k) =~= d);
    } else if k == d.len() {
        assert(d.take(k) =~= d);
        lemma_digits_value_mono(d.drop_last(), 0);
    } else {
        lemma_digits_value_mono(d.drop_last(), k);
        assert(d.drop_last().take(k) =~= d.take(k));
    }
}

/// The 64-bit integer a text denotes, as Rust reads it.
pub fn parse_i64(s: &str) -> (r: Option<i64>)
    ensures
        r == spec_parse_i64(s@),
{
    let n: usize = s.unicode_len();
    let mut start: usize = 0;
    let mut neg = false;
    if n > 0 {
        let c0 = s.get_char(0);
        if c0 == '-' {
            neg = true;
            start = 1;
        } else if c0 == '+' {
            start = 1;
        }
    }
    let ghost d = s@.skip(start as int);
    assert(neg == (s@.len() > 0 && s@[0] == '-'));
    assert(d =~= spec_digits_part(s@));
    if start == n {
        return None;
    }
    let mut v: i128 = 0;
    let mut i: usize = start;
    while i < n
        invariant
            start <= i <= n,
            n == s@.len(),
            d == s@.skip(start as int),
            d == spec_digits_part(s@),
            d.len() > 0,
            neg == (s@.len() > 0 && s@[0] == '-'),
            forall|j: int| 0 <= j < i - start ==> spec_is_digit(#[trigger] d[j]),
            v == spec_digits_value(d.take(i - start)),
            0 <= v <= 0x8000_0000_0000_0000i128,
        decreases n - i,
    {
        let c = s.get_char(i);
        assert(c == d[i - start]);
        if !('0' <= c && c <= '9') {
            assert(!spec_is_digit(d[i - start]));
            return None;
        }
        let digit: i128 = ((c as u32) - ('0' as u32)) as i128;
        let next: i128 = v * 10 + digit;
        proof {
            let t = d.take(i - start + 1);
            assert(t.drop_last() =~= d.take(i - start));
            assert(t.last() == c);
            assert(next == spec_digits_value(t));
        }
        if next > 0x8000_0000_0000_0000i128 {
            // Too large in magnitude: the answer is no number, unless a later
            // character is not a digit, which gives no number either.
            proof {
                if forall|j: int| 0 <= j < d.len() ==> spec_is_digit(#[trigger] d[j]) {
                    lemma_digits_value_mono(d, i - start + 1);
                }
            }
            return None;
        }
        v = next;
        i = i + 1;
    }
    assert(d.take(n - start) =~= d);
    if neg {
        Some((0i128 - v) as i64)
    } else if v > 0x7FFF_FFFF_FFFF_FFFFi128 {
        None
    } else {
        Some(v as i64)
    }
}

/// Whether a validator's parameters fit together: a toggle's values cover
/// its mask, integers take at most 8 bytes.
pub open spec fn spec_validator_wf(v: Validator) -> bool {
    match v {
        Validator::Toggle { true_value, false_value, mask, .. } => true_value@.len() >= mask@.len()
            && false_value@.len() >= mask@.len(),
        Validator::Range { byte_count, read_skip, .. } => byte_count <= 8 && read_skip + byte_count
            <= usize::MAX,
        Validator::Choice { byte_count, read_skip, .. } => byte_count <= 8 && read_skip + byte_count
            <= usize::MAX,
    }
}

/// Whether user text can be encoded with a validator: an integer is
/// written in at most 8 bytes (its bytes are taken by shifting the 64-bit
/// value); a toggle writes its values as they are.
pub open spec fn spec_encodable(v: Validator) -> bool {
    match v {
        Validator::Toggle { .. } => true,
        Validator::Range { byte_count, .. } => byte_count <= 8,
        Validator::Choice { byte_count, .. } => byte_count <= 8,
    }
}

/// The big-endian value of bytes, kept to 64 bits.
pub open spec fn spec_be_u64(bytes: Seq<u8>) -> u64
    decreases bytes.len(),
{
    if bytes.len() == 0 {
        0
    } else {
        ((spec_be_u64(bytes.drop_last()) << 8u64) | (bytes.last() as u64)) as u64
    }
}

/// The big-endian value of bytes, kept to 64 bits.
fn be_u64(bytes: &[u8], from: usize, to: usize) -> (r: u64)
    requires
        from <= to <= bytes@.len(),
    ensures
        r == spec_be_u64(bytes@.subrange(from as int, to as int)),
{
    let mut v: u64 = 0;
    let mut i: usize = from;
    while i < to
        invariant
            from <= i <= to <= bytes@.len(),
            v == spec_be_u64(bytes@.subrange(from as int, i as int)),
        decreases to - i,
    {
        proof {
            let t = bytes@.subrange(from as int, i + 1);
            assert(t.drop_last() =~= bytes@.subrange(from as int, i as int));
        }
        v = (v << 8u64) | (bytes[i] as u64);
        i = i + 1;
    }
    v
}

/// Whether the first `n` bytes of `a` and `b` agree on the bits of `mask`.
pub open spec fn spec_masked_eq(a: Seq<u8>, b: Seq<u8>, mask: Seq<u8>, n: int) -> bool {
    forall|i: int| 0 <= i < n ==> (#[trigger] a[i] & mask[i]) == (b[i] & mask[i])
}

/// The index of the first option with value `v`, if any.
pub open spec fn spec_first_option(opts: Seq<(i64, &'static str)>, v: i64) -> Option<int> {
    if exists|i: int| 0 <= i < opts.len() && opts[i].0 == v {
        Some(
            choose|i: int|
                0 <= i < opts.len() && opts[i].0 == v && forall|j: int|
                    0 <= j < i ==> #[trigger] opts[j].0 != v,
        )
    } else {
        None
    }
}

/// The message for a reply shorter than the `end` bytes a value needs.
pub open spec fn spec_short_reply_text(len: nat, end: nat) -> Seq<char> {
    "response too short ("@ + crate::text::spec_decimal(len) + " < "@ + crate::text::spec_decimal(end)
        + ")"@
}

/// Whether `r` is what decoding the reply `raw` with `validator` gives: a
/// toggle is true when the masked bytes after `read_skip` match the true
/// value (false otherwise); an integer is read big-endian, and a choice
/// shows the label of the first option with that value, or `unknown (v)`;
/// a reply too short for an integer is an error.
pub open spec fn spec_decode_value(
    validator: Validator,
    raw: Seq<u8>,
    r: Result<SettingValue, String>,
) -> bool {
    match validator {
        Validator::Toggle { true_value, mask, read_skip, .. } => {
            let data = raw.skip(read_skip as int);
            let n = if mask@.len() < data.len() {
                mask@.len() as int
            } else {
                data.len() as int
            };
            r == Ok::<SettingValue, String>(
                SettingValue::Toggle(spec_masked_eq(data, true_value@, mask@, n)),
            )
        },
        Validator::Range { byte_count, read_skip, .. } => {
            let end = read_skip + byte_count;
            if raw.len() < end {
                r matches Err(m) && m@ == spec_short_reply_text(raw.len(), end as nat)
            } else {
                r == Ok::<SettingValue, String>(
                    SettingValue::Range(spec_be_u64(raw.subrange(read_skip as int, end)) as i64),
                )
            }
        },
        Validator::Choice { options, byte_count, read_skip, .. } => {
            let end = read_skip + byte_count;
            if raw.len() < end {
                r matches Err(m) && m@ == spec_short_reply_text(raw.len(), end as nat)
            } else {
                let v = spec_be_u64(raw.subrange(read_skip as int, end)) as i64;
                match spec_first_option(options@, v) {
                    Some(i) => r matches Ok(SettingValue::Choice(l)) && l@ == options@[i].1@,
                    None => r matches Ok(SettingValue::Choice(l)) && l@ == "unknown ("@
                        + crate::text::spec_signed_decimal(v as int) + ")"@,
                }
            }
        },
    }
}

/// The message for a reply shorter than the `end` bytes a value needs.
fn short_reply_text(len: usize, end: usize) -> (r: String)
    ensures
        r@ == spec_short_reply_text(len as nat, end as nat),
{
    let mut m = String::from_str("response too short (");
    push_decimal(&mut m, len as u64);
    push_text(&mut m, " < ");
    push_decimal(&mut m, end as u64);
    push_text(&mut m, ")");
    m
}

/// The index of the first option with value `v`, if any.
fn first_option(opts: &Vec<(i64, &'static str)>, v: i64) -> (r: Option<usize>)
    ensures
        match r {
            Some(i) => i < opts@.len() && opts@[i as int].0 == v && spec_first_option(opts@, v) == Some(
                i as int,
            ),
            None => spec_first_option(opts@, v) is None,
        },
{
    let mut i: usize = 0;
    while i < opts.len()
        invariant
            i <= opts@.len(),
            forall|j: int| 0 <= j < i ==> #[trigger] opts@[j].0 != v,
        decreases opts@.len() - i,
    {
        if opts[i].0 == v {
            proof {
                let k = choose|k: int|
                    0 <= k < opts@.len() && opts@[k].0 == v && forall|j: int|
                        0 <= j < k ==> #[trigger] opts@[j].0 != v;
                assert(0 <= i < opts@.len() && opts@[i as int].0 == v && forall|j: int|
                    0 <= j < i ==> #[trigger] opts@[j].0 != v);
                if k < i {
                    assert(opts@[k].0 != v);
                } else if k > i {
                    assert(opts@[i as int].0 != v);
                }
            }
            return Some(i);
        }
        i = i + 1;
    }
    None
}

/// Whether the reply `raw` can be decoded with `validator`: a toggle reply
/// holds the bytes it skips, and the toggle's values cover the bytes
/// compared (the mask, cut to the reply); an integer's end fits in memory.
pub open spec fn spec_decodable(v: Validator, raw: Seq<u8>) -> bool {
    match v {
        Validator::Toggle { true_value, false_value, mask, read_skip, .. } => {
            let n = if mask@.len() < raw.len() - read_skip {
                mask@.len() as int
            } else {
                raw.len() - read_skip
            };
            read_skip <= raw.len() && true_value@.len() >= n && false_value@.len() >= n
        },
        Validator::Range { byte_count, read_skip, .. } => read_skip + byte_count <= usize::MAX,
        Validator::Choice { byte_count, read_skip, .. } => read_skip + byte_count <= usize::MAX,
    }
}

/// Decode the reply `raw` of a setting with `validator`.
pub fn decode_value(validator: &Validator, raw: &[u8]) -> (r: Result<SettingValue, String>)
    requires
        spec_decodable(*validator, raw@),
    ensures
        spec_decode_value(*validator, raw@, r),
{
    match validator {
        Validator::Toggle { true_value, mask, read_skip, .. } => {
            let data = copy_range(raw, *read_skip, raw.len());
            assert(data@ =~= raw@.skip(*read_skip as int));
            let n: usize = if mask.len() < data.len() {
                mask.len()
            } else {
                data.len()
            };
            let mut i: usize = 0;
            let mut same = true;
            while i < n
                invariant
                    i <= n,
                    n <= mask@.len(),
                    n <= data@.len(),
                    n <= true_value@.len(),
                    same == spec_masked_eq(data@, true_value@, mask@, i as int),
                decreases n - i,
            {
                if (data[i] & mask[i]) != (true_value[i] & mask[i]) {
                    same = false;
                }
                i = i + 1;
            }
            Ok(SettingValue::Toggle(same))
        },
        Validator::Range { byte_count, read_skip, .. } => {
            let start = *read_skip;
            let end: usize = start + *byte_count;
            if raw.len() < end {
                return Err(short_reply_text(raw.len(), end));
            }
            let v: u64 = be_u64(raw, start, end);
            Ok(SettingValue::Range(v as i64))
        },
        Validator::Choice { options, byte_count, read_skip, .. } => {
            let start = *read_skip;
            let end: usize = start + *byte_count;
            if raw.len() < end {
                return Err(short_reply_text(raw.len(), end));
            }
            let v: i64 = be_u64(raw, start, end) as i64;
            match first_option(options, v) {
                Some(i) => Ok(SettingValue::Choice(String::from_str(options[i].1))),
                None => {
                    let mut m = String::from_str("unknown (");
                    push_signed_decimal(&mut m, v);
                    push_text(&mut m, ")");
                    Ok(SettingValue::Choice(m))
                },
            }
        },
    }
}

/// The `bc` low bytes of `n` (two's complement), most significant first.
pub open spec fn spec_be_bytes(n: i64, bc: nat) -> Seq<u8> {
    Seq::new(bc, |j: int| ((((n as u64) >> ((8 * (bc - 1 - j)) as u64)) & 0xFFu64) as u8))
}

/// One option as shown to the user: `label (value)`.
pub open spec fn spec_option_text(o: (i64, &'static str)) -> Seq<char> {
    o.1@ + " ("@ + crate::text::spec_signed_decimal(o.0 as int) + ")"@
}

/// The options as shown to the user, separated by `, `.
pub open spec fn spec_options_text(opts: Seq<(i64, &'static str)>) -> Seq<char>
    decreases opts.len(),
{
    if opts.len() == 0 {
        seq![]
    } else if opts.len() == 1 {
        spec_option_text(opts[0])
    } else {
        spec_options_text(opts.drop_last()) + ", "@ + spec_option_text(opts.last())
    }
}

/// Whether option `o` is what the user's text `s` names: its label, in any
/// ASCII case, or its value as an integer.
pub open spec fn spec_option_named(o: (i64, &'static str), s: Seq<char>) -> bool {
    spec_eq_ignore_ascii_case(o.1@, s) || spec_parse_i64(s) == Some(o.0)
}

/// The index of the first option the text `s` names, if any.
pub open spec fn spec_named_option(opts: Seq<(i64, &'static str)>, s: Seq<char>) -> Option<int> {
    if exists|i: int| 0 <= i < opts.len() && spec_option_named(opts[i], s) {
        Some(
            choose|i: int|
                0 <= i < opts.len() && spec_option_named(opts[i], s) && forall|j: int|
                    0 <= j < i ==> !spec_option_named(#[trigger] opts[j], s),
        )
    } else {
        None
    }
}

/// Whether a mask leaves some bit to other settings, so that a write must
/// read the current value first.
pub open spec fn spec_needs_rmw(mask: Seq<u8>) -> bool {
    exists|i: int| 0 <= i < mask.len() && #[trigger] mask[i] != 0xFF
}

/// Whether `r` is what encoding the user's text `s` with `validator`
/// gives: the bytes to write (the write prefix, then the value) and whether
/// the current value must be read and merged first; or the message that
/// says why the text is refused.
pub open spec fn spec_encode_value(
    validator: Validator,
    s: Seq<char>,
    r: Result<(Vec<u8>, bool), String>,
) -> bool {
    match validator {
        Validator::Toggle { true_value, false_value, mask, write_prefix, .. } => match spec_parse_bool(
            s,
        ) {
            None => r matches Err(m) && m@ == "expected true/false/on/off/1/0, got '"@ + s + "'"@,
            Some(b) => r matches Ok((out, rmw)) && out@ == write_prefix@ + (if b {
                true_value@
            } else {
                false_value@
            }) && rmw == spec_needs_rmw(mask@),
        },
        Validator::Range { min, max, byte_count, write_prefix, .. } => match spec_parse_i64(s) {
            None => r matches Err(m) && m@ == "expected integer, got '"@ + s + "'"@,
            Some(n) => if n < min || n > max {
                r matches Err(m) && m@ == "value "@ + crate::text::spec_signed_decimal(n as int)
                    + " out of range ["@ + crate::text::spec_signed_decimal(min as int) + ", "@
                    + crate::text::spec_signed_decimal(max as int) + "]"@
            } else {
                r matches Ok((out, rmw)) && out@ == write_prefix@ + spec_be_bytes(
                    n,
                    byte_count as nat,
                ) && !rmw
            },
        },
        Validator::Choice { options, byte_count, write_prefix, .. } => match spec_named_option(
            options@,
            s,
        ) {
            None => r matches Err(m) && m@ == "unknown value '"@ + s + "'. Valid options: "@
                + spec_options_text(options@),
            Some(i) => r matches Ok((out, rmw)) && out@ == write_prefix@ + spec_be_bytes(
                options@[i].0,
                byte_count as nat,
            ) && !rmw,
        },
    }
}

/// Appends the `bc` low bytes of `n`, most significant first.
fn push_be_bytes(out: &mut Vec<u8>, n: i64, bc: usize)
    requires
        bc <= 8,
    ensures
        final(out)@ == old(out)@ + spec_be_bytes(n, bc as nat),
{
    let ghost start = out@;
    let mut k: usize = 0;
    while k < bc
        invariant
            k <= bc <= 8,
            out@ == start + spec_be_bytes(n, bc as nat).take(k as int),
        decreases bc - k,
    {
        let i: usize = bc - 1 - k;
        let b: u8 = (((n as u64) >> ((i * 8) as u64)) & 0xFFu64) as u8;
        out.push(b);
        k = k + 1;
        assert(out@ =~= start + spec_be_bytes(n, bc as nat).take(k as int));
    }
    assert(spec_be_bytes(n, bc as nat).take(bc as int) =~= spec_be_bytes(n, bc as nat));
}

/// Appends one option as shown to the user.
fn push_option_text(s: &mut String, o: (i64, &'static str))
    ensures
        final(s)@ == old(s)@ + spec_option_text(o),
{
    push_text(s, o.1);
    push_text(s, " (");
    push_signed_decimal(s, o.0);
    push_text(s, ")");
}

/// The options as shown to the user, separated by `, `.
fn options_text(opts: &Vec<(i64, &'static str)>) -> (r: String)
    ensures
        r@ == spec_options_text(opts@),
{
    let mut s = String::new();
    let mut i: usize = 0;
    while i < opts.len()
        invariant
            i <= opts@.len(),
            s@ == spec_options_text(opts@.take(i as int)),
        decreases opts@.len() - i,
    {
        let ghost before = s@;
        if i > 0 {
            push_text(&mut s, ", ");
        }
        push_option_text(&mut s, opts[i]);
        proof {
            let t = opts@.take(i + 1);
            assert(t.drop_last() =~= opts@.take(i as int));
            assert(t.last() == opts@[i as int]);
            if i == 0 {
                assert(t.len() == 1);
                assert(before =~= Seq::<char>::empty());
                assert(s@ =~= spec_option_text(opts@[0]));
            }
        }
        i = i + 1;
    }
    assert(opts@.take(opts@.len() as int) =~= opts@);
    s
}

/// Whether option `o` is named by the text `s`.
fn option_named(o: (i64, &'static str), s: &str) -> (r: bool)
    ensures
        r == spec_option_named(o, s@),
{
    eq_ignore_ascii_case(o.1, s) || parse_i64(s) == Some(o.0)
}

/// The index of the first option the text `s` names, if any.
fn named_option(opts: &Vec<(i64, &'static str)>, s: &str) -> (r: Option<usize>)
    ensures
        match r {
            Some(i) => i < opts@.len() && spec_named_option(opts@, s@) == Some(i as int),
            None => spec_named_option(opts@, s@) is None,
        },
{
    let mut i: usize = 0;
    while i < opts.len()
        invariant
            i <= opts@.len(),
            forall|j: int| 0 <= j < i ==> !spec_option_named(#[trigger] opts@[j], s@),
        decreases opts@.len() - i,
    {
        if option_named(opts[i], s) {
            proof {
                let k = choose|k: int|
                    0 <= k < opts@.len() && spec_option_named(opts@[k], s@) && forall|j: int|
                        0 <= j < k ==> !spec_option_named(#[trigger] opts@[j], s@);
                assert(0 <= i < opts@.len() && spec_option_named(opts@[i as int], s@) && forall|j: int|
                    0 <= j < i ==> !spec_option_named(#[trigger] opts@[j], s@));
                if k < i {
                    assert(!spec_option_named(opts@[k], s@));
                } else if k > i {
                    assert(!spec_option_named(opts@[i as int], s@));
                }
            }
            return Some(i);
        }
        i = i + 1;
    }
    None
}

/// The text `'s'` between the given words.
fn quoted_text(before: &str, s: &str, after: &str) -> (r: String)
    ensures
        r@ == before@ + s@ + after@,
{
    let mut m = String::from_str(before);
    push_text(&mut m, s);
    push_text(&mut m, after);
    m
}

/// Encode the user's text for a setting: the bytes to write and whether the
/// current value must be read and merged first.
pub fn encode_value(validator: &Validator, value_str: &str) -> (r: Result<(Vec<u8>, bool), String>)
    requires
        spec_encodable(*validator),
    ensures
        spec_encode_value(*validator, value_str@, r),
        r is Ok <==> spec_encoded(*validator, value_str@) is Some,
        r matches Ok((out, rmw)) ==> spec_encoded(*validator, value_str@) == Some((out@, rmw)),
{
    match validator {
        Validator::Toggle { true_value, false_value, mask, write_prefix, .. } => {
            let new_bool = match parse_bool(value_str) {
                Some(b) => b,
                None => {
                    return Err(
                        quoted_text("expected true/false/on/off/1/0, got '", value_str, "'"),
                    );
                },
            };
            let mut needs_rmw = false;
            let mut i: usize = 0;
            while i < mask.len()
                invariant
                    i <= mask@.len(),
                    needs_rmw == exists|j: int| 0 <= j < i && #[trigger] mask@[j] != 0xFF,
                decreases mask@.len() - i,
            {
                if mask[i] != 0xFF {
                    needs_rmw = true;
                }
                i = i + 1;
            }
            let mut out: Vec<u8> = Vec::new();
            append_bytes(&mut out, write_prefix.as_slice());
            if new_bool {
                append_bytes(&mut out, true_value.as_slice());
            } else {
                append_bytes(&mut out, false_value.as_slice());
            }
            Ok((out, needs_rmw))
        },
        Validator::Range { min, max, byte_count, write_prefix, .. } => {
            let n = match parse_i64(value_str) {
                Some(n) => n,
                None => {
                    return Err(quoted_text("expected integer, got '", value_str, "'"));
                },
            };
            if n < *min || n > *max {
                let mut m = String::from_str("value ");
                push_signed_decimal(&mut m, n);
                push_text(&mut m, " out of range [");
                push_signed_decimal(&mut m, *min);
                push_text(&mut m, ", ");
                push_signed_decimal(&mut m, *max);
                push_text(&mut m, "]");
                return Err(m);
            }
            let mut out: Vec<u8> = Vec::new();
            append_bytes(&mut out, write_prefix.as_slice());
            push_be_bytes(&mut out, n, *byte_count);
            Ok((out, false))
        },
        Validator::Choice { options, byte_count, write_prefix, .. } => {
            match named_option(options, value_str) {
                Some(i) => {
                    let mut out: Vec<u8> = Vec::new();
                    append_bytes(&mut out, write_prefix.as_slice());
                    push_be_bytes(&mut out, options[i].0, *byte_count);
                    Ok((out, false))
                },
                None => {
                    let mut m = quoted_text("unknown value '", value_str, "'. Valid options: ");
                    let o = options_text(options);
                    push_text(&mut m, o.as_str());
                    Err(m)
                },
            }
        },
    }
}

/// The smallest of three lengths.
pub open spec fn spec_min3(a: int, b: int, c: int) -> int {
    if a <= b && a <= c {
        a
    } else if b <= c {
        b
    } else {
        c
    }
}

/// The bytes to write for a toggle that shares its register bits: the
/// current value with the bits of the mask taken from the encoded value
/// (after its write prefix), cut to the longer of the merged part and the
/// true value, after the write prefix. Other validators write the encoded
/// bytes as they are.
pub open spec fn spec_merge(validator: Validator, current: Seq<u8>, encoded: Seq<u8>) -> Seq<u8> {
    match validator {
        Validator::Toggle { mask, write_prefix, true_value, .. } => {
            let vp = encoded.skip(write_prefix@.len() as int);
            let n = spec_min3(mask@.len() as int, current.len() as int, vp.len() as int);
            let merged = Seq::new(
                current.len(),
                |i: int|
                    if i < n {
                        (current[i] & !mask@[i]) | (vp[i] & mask@[i])
                    } else {
                        current[i]
                    },
            );
            let keep = if n < true_value@.len() {
                true_value@.len() as int
            } else {
                n
            };
            write_prefix@ + merged.take(keep)
        },
        _ => encoded,
    }
}

/// Merge encoded bytes with the current register value under the
/// validator's mask.
pub fn merge_with_mask(validator: &Validator, current: &[u8], encoded: &[u8]) -> (r: Vec<u8>)
    requires
        validator matches Validator::Toggle { write_prefix, true_value, .. } ==> write_prefix@.len()
            <= encoded@.len() && true_value@.len() <= current@.len(),
    ensures
        r@ == spec_merge(*validator, current@, encoded@),
{
    match validator {
        Validator::Toggle { mask, write_prefix, true_value, .. } => {
            let prefix_len = write_prefix.len();
            let vp = copy_range(encoded, prefix_len, encoded.len());
            let mut n: usize = mask.len();
            if current.len() < n {
                n = current.len();
            }
            if vp.len() < n {
                n = vp.len();
            }
            assert(n == spec_min3(mask@.len() as int, current@.len() as int, vp@.len() as int));
            let mut merged: Vec<u8> = Vec::new();
            let mut i: usize = 0;
            while i < current.len()
                invariant
                    i <= current@.len(),
                    n <= current@.len(),
                    n <= mask@.len(),
                    n <= vp@.len(),
                    merged@ == Seq::new(
                        i as nat,
                        |k: int|
                            if k < n {
                                (current@[k] & !mask@[k]) | (vp@[k] & mask@[k])
                            } else {
                                current@[k]
                            },
                    ),
                decreases current@.len() - i,
            {
                let b: u8 = if i < n {
                    (current[i] & !mask[i]) | (vp[i] & mask[i])
                } else {
                    current[i]
                };
                merged.push(b);
                i = i + 1;
                assert(merged@ =~= Seq::new(
                    i as nat,
                    |k: int|
                        if k < n {
                            (current@[k] & !mask@[k]) | (vp@[k] & mask@[k])
                        } else {
                            current@[k]
                        },
                ));
            }
            let keep: usize = if n < true_value.len() {
                true_value.len()
            } else {
                n
            };
            let mut out: Vec<u8> = Vec::new();
            append_bytes(&mut out, write_prefix.as_slice());
            let kept = copy_range(merged.as_slice(), 0, keep);
            append_bytes(&mut out, kept.as_slice());
            assert(vp@ =~= encoded@.skip(write_prefix@.len() as int));
            assert(kept@ =~= merged@.take(keep as int));
            out
        },
        _ => {
            let out = copy_range(encoded, 0, encoded.len());
            assert(out@ =~= encoded@);
            out
        },
    }
}

/// The kind of a validator, for display.
pub fn validator_kind_str(v: &Validator) -> (r: &'static str)
    ensures
        r@ == (match *v {
            Validator::Toggle { .. } => "toggle"@,
            Validator::Range { .. } => "range"@,
            Validator::Choice { .. } => "choice"@,
        }),
{
    match v {
        Validator::Toggle { .. } => "toggle",
        Validator::Range { .. } => "range",
        Validator::Choice { .. } => "choice",
    }
}

/// The values a validator accepts, for display: `true / false`,
/// `min..max`, or the options as `label (value)` separated by `, `.
pub open spec fn spec_values_text(v: Validator) -> Seq<char> {
    match v {
        Validator::Toggle { .. } => "true / false"@,
        Validator::Range { min, max, .. } => crate::text::spec_signed_decimal(min as int) + ".."@
            + crate::text::spec_signed_decimal(max as int),
        Validator::Choice { options, .. } => spec_options_text(options@),
    }
}

/// The values a validator accepts, for display.
pub fn validator_values_str(v: &Validator) -> (r: String)
    ensures
        r@ == spec_values_text(*v),
{
    match v {
        Validator::Toggle { .. } => String::from_str("true / false"),
        Validator::Range { min, max, .. } => {
            let mut s = String::new();
            push_signed_decimal(&mut s, *min);
            push_text(&mut s, "..");
            push_signed_decimal(&mut s, *max);
            assert(s@ =~= spec_values_text(*v));
            s
        },
        Validator::Choice { options, .. } => options_text(options),
    }
}

/// Whether `src` is `feature`, read with `read_fnid` and written with
/// `write_fnid`, with no parameter prefix or suffix.
pub open spec fn spec_feature_source(src: Source, feature: SupportedFeature, read_fnid: u8, write_fnid: u8) -> bool {
    src matches Source::Feature { feature: f, read_fnid: r, write_fnid: w, prefix, suffix } && f
        == feature && r == read_fnid && w == write_fnid && prefix@.len() == 0 && suffix@.len() == 0
}

/// Whether `v` is the toggle with these parameters.
pub open spec fn spec_toggle(
    v: Validator,
    tv: Seq<u8>,
    fv: Seq<u8>,
    mask: Seq<u8>,
    skip: usize,
    prefix: Seq<u8>,
) -> bool {
    v matches Validator::Toggle { true_value, false_value, mask: m, read_skip, write_prefix }
        && true_value@ == tv && false_value@ == fv && m@ == mask && read_skip == skip
        && write_prefix@ == prefix
}

/// Whether `v` is the integer range with these parameters.
pub open spec fn spec_range(v: Validator, lo: i64, hi: i64, bc: usize, skip: usize, prefix: Seq<u8>) -> bool {
    v matches Validator::Range { min, max, byte_count, read_skip, write_prefix } && min == lo && max
        == hi && byte_count == bc && read_skip == skip && write_prefix@ == prefix
}

/// A feature source with no parameter prefix or suffix.
fn feature_source(feature: SupportedFeature, read_fnid: u8, write_fnid: u8) -> (r: Source)
    ensures
        spec_feature_source(r, feature, read_fnid, write_fnid),
{
    Source::Feature { feature, read_fnid, write_fnid, prefix: &[], suffix: &[] }
}

/// No byte.
fn no_bytes() -> (r: Vec<u8>)
    ensures
        r@ == Seq::<u8>::empty(),
{
    Vec::new()
}

/// One byte.
fn bytes_1(a: u8) -> (r: Vec<u8>)
    ensures
        r@ == seq![a],
{
    let mut v: Vec<u8> = Vec::new();
    v.push(a);
    assert(v@ =~= seq![a]);
    v
}

/// Two bytes.
fn bytes_2(a: u8, b: u8) -> (r: Vec<u8>)
    ensures
        r@ == seq![a, b],
{
    let mut v: Vec<u8> = Vec::new();
    v.push(a);
    v.push(b);
    assert(v@ =~= seq![a, b]);
    v
}

/// Three bytes.
fn bytes_3(a: u8, b: u8, c: u8) -> (r: Vec<u8>)
    ensures
        r@ == seq![a, b, c],
{
    let mut v: Vec<u8> = Vec::new();
    v.push(a);
    v.push(b);
    v.push(c);
    assert(v@ =~= seq![a, b, c]);
    v
}

/// Whether `d` is entry `i` of the settings catalogue.
pub open spec fn spec_catalogue_entry(i: int, d: SettingDef) -> bool {
    if i == 0 {
        d.name@ == "fn-swap"@
            && d.label@ == "Swap Fx function"@
            && d.description@ == "When set, the F1..F12 keys activate their special function and FN activates standard."@
            && spec_feature_source(d.source, SupportedFeature::FnInversion, 0x00, 0x10)
            && spec_toggle(d.validator, seq![0x01u8], seq![0x00u8], seq![0x01u8], 0, Seq::<u8>::empty())
    } else if i == 1 {
        d.name@ == "fn-swap"@
            && d.label@ == "Swap Fx function (new)"@
            && d.description@ == "When set, the F1..F12 keys activate their special function and FN activates standard."@
            && spec_feature_source(d.source, SupportedFeature::NewFnInversion, 0x00, 0x10)
            && spec_toggle(d.validator, seq![0x01u8], seq![0x00u8], seq![0x01u8], 0, Seq::<u8>::empty())
    } else if i == 2 {
        d.name@ == "hi-res-scroll"@
            && d.label@ == "Scroll Wheel High Resolution"@
            && d.description@ == "High-sensitivity mode for vertical scroll with the wheel."@
            && spec_feature_source(d.source, SupportedFeature::HiResScrolling, 0x00, 0x10)
            && spec_toggle(d.validator, seq![0x01u8], seq![0x00u8], seq![0x01u8], 0, Seq::<u8>::empty())
    } else if i == 3 {
        d.name@ == "lowres-scroll-mode"@
            && d.label@ == "Scroll Wheel Diversion (low-res)"@
            && d.description@ == "Make scroll wheel send LOWRES_WHEEL HID++ notifications."@
            && spec_feature_source(d.source, SupportedFeature::LowresWheel, 0x00, 0x10)
            && spec_toggle(d.validator, seq![0x01u8], seq![0x00u8], seq![0x01u8], 0, Seq::<u8>::empty())
    } else if i == 4 {
        d.name@ == "hires-smooth-invert"@
            && d.label@ == "Scroll Wheel Direction"@
            && d.description@ == "Invert direction for vertical scroll with wheel."@
            && spec_feature_source(d.source, SupportedFeature::HiresWheel, 0x10, 0x20)
            && spec_toggle(d.validator, seq![0x04u8], seq![0x00u8], seq![0x04u8], 0, Seq::<u8>::empty())
    } else if i == 5 {
        d.name@ == "hires-smooth-resolution"@
            && d.label@ == "Scroll Wheel Resolution"@
            && d.description@ == "High-sensitivity mode for vertical scroll with the wheel."@
            && spec_feature_source(d.source, SupportedFeature::HiresWheel, 0x10, 0x20)
            && spec_toggle(d.validator, seq![0x02u8], seq![0x00u8], seq![0x02u8], 0, Seq::<u8>::empty())
    } else if i == 6 {
        d.name@ == "hires-scroll-mode"@
            && d.label@ == "Scroll Wheel Diversion (hi-res)"@
            && d.description@ == "Make scroll wheel send HIRES_WHEEL HID++ notifications."@
            && spec_feature_source(d.source, SupportedFeature::HiresWheel, 0x10, 0x20)
            && spec_toggle(d.validator, seq![0x01u8], seq![0x00u8], seq![0x01u8], 0, Seq::<u8>::empty())
    } else if i == 7 {
        d.name@ == "thumb-scroll-mode"@
            && d.label@ == "Thumb Wheel Diversion"@
            && d.description@ == "Make thumb wheel send THUMB_WHEEL HID++ notifications."@
            && spec_feature_source(d.source, SupportedFeature::ThumbWheel, 0x10, 0x20)
            && spec_toggle(d.validator, seq![0x01u8, 0x00u8], seq![0x00u8, 0x00u8], seq![0x01u8, 0x00u8], 0, Seq::<u8>::empty())
    } else if i == 8 {
        d.name@ == "thumb-scroll-invert"@
            && d.label@ == "Thumb Wheel Direction"@
            && d.description@ == "Invert thumb wheel scroll direction."@
            && spec_feature_source(d.source, SupportedFeature::ThumbWheel, 0x10, 0x20)
            && spec_toggle(d.validator, seq![0x00u8, 0x01u8], seq![0x00u8, 0x00u8], seq![0x00u8, 0x01u8], 0, Seq::<u8>::empty())
    } else if i == 9 {
        d.name@ == "scroll-ratchet"@
            && d.label@ == "Scroll Wheel Ratcheted"@
            && d.description@ == "Switch the mouse wheel between speed-controlled ratcheting and always freespin."@
            && spec_feature_source(d.source, SupportedFeature::SmartShift, 0x00, 0x10)
            && (d.validator matches Validator::Choice { options, byte_count, read_skip, write_prefix } && options@.len() == 2 && options@[0].0 == 1 && options@[0].1@ == "Freespinning"@ && options@[1].0 == 2 && options@[1].1@ == "Ratcheted"@ && byte_count == 1 && read_skip == 0 && write_prefix@ == Seq::<u8>::empty())
    } else if i == 10 {
        d.name@ == "smart-shift"@
            && d.label@ == "Scroll Wheel Ratchet Speed"@
            && d.description@ == "Use the mouse wheel speed to switch between ratcheted and freespinning (1-50)."@
            && spec_feature_source(d.source, SupportedFeature::SmartShift, 0x00, 0x10)
            && spec_range(d.validator, 1, 50, 1, 1, seq![0x02u8])
    } else if i == 11 {
        d.name@ == "scroll-ratchet-enhanced"@
            && d.label@ == "Scroll Wheel Ratcheted (Enhanced Smart Shift)"@
            && d.description@ == "Switch the mouse wheel between speed-controlled ratcheting and always freespin."@
            && spec_feature_source(d.source, SupportedFeature::SmartShiftEnhanced, 0x10, 0x20)
            && (d.validator matches Validator::Choice { options, byte_count, read_skip, write_prefix } && options@.len() == 2 && options@[0].0 == 1 && options@[0].1@ == "Freespinning"@ && options@[1].0 == 2 && options@[1].1@ == "Ratcheted"@ && byte_count == 1 && read_skip == 0 && write_prefix@ == Seq::<u8>::empty())
    } else if i == 12 {
        d.name@ == "smart-shift-enhanced"@
            && d.label@ == "Scroll Wheel Ratchet Speed (Enhanced)"@
            && d.description@ == "Use the mouse wheel speed to switch between ratcheted and freespinning (1-50)."@
            && spec_feature_source(d.source, SupportedFeature::SmartShiftEnhanced, 0x10, 0x20)
            && spec_range(d.validator, 1, 50, 1, 1, seq![0x02u8])
    } else if i == 13 {
        d.name@ == "pointer-speed"@
            && d.label@ == "Sensitivity (Pointer Speed)"@
            && d.description@ == "Speed multiplier for mouse (256 = normal). Range: 46–511."@
            && spec_feature_source(d.source, SupportedFeature::PointerSpeed, 0x00, 0x10)
            && spec_range(d.validator, 46, 511, 2, 0, Seq::<u8>::empty())
    } else if i == 14 {
        d.name@ == "dpi"@
            && d.label@ == "Sensitivity (DPI)"@
            && d.description@ == "Mouse movement sensitivity. May need Onboard Profiles disabled to take effect."@
            && spec_feature_source(d.source, SupportedFeature::AdjustableDpi, 0x20, 0x30)
            && spec_range(d.validator, 100, 25600, 2, 1, seq![0x00u8])
    } else if i == 15 {
        d.name@ == "sidetone"@
            && d.label@ == "Sidetone"@
            && d.description@ == "Microphone sidetone level (0–100)."@
            && spec_feature_source(d.source, SupportedFeature::Sidetone, 0x00, 0x10)
            && spec_range(d.validator, 0, 100, 1, 0, Seq::<u8>::empty())
    } else if i == 16 {
        d.name@ == "report-rate"@
            && d.label@ == "Report Rate"@
            && d.description@ == "USB report rate in ms (1 = 1000 Hz, 2 = 500 Hz, …, 8 = 125 Hz)."@
            && spec_feature_source(d.source, SupportedFeature::ReportRate, 0x10, 0x20)
            && (d.validator matches Validator::Choice { options, byte_count, read_skip, write_prefix } && options@.len() == 4 && options@[0].0 == 1 && options@[0].1@ == "1ms (1000 Hz)"@ && options@[1].0 == 2 && options@[1].1@ == "2ms (500 Hz)"@ && options@[2].0 == 4 && options@[2].1@ == "4ms (250 Hz)"@ && options@[3].0 == 8 && options@[3].1@ == "8ms (125 Hz)"@ && byte_count == 1 && read_skip == 0 && write_prefix@ == Seq::<u8>::empty())
    } else if i == 17 {
        d.name@ == "smooth-scroll"@
            && d.label@ == "Scroll Wheel Smooth Scrolling"@
            && d.description@ == "High-sensitivity mode for vertical scroll with the wheel."@
            && d.source == Source::Register { register: Register::MouseButtonFlags }
            && spec_toggle(d.validator, seq![0x40u8], seq![0x00u8], seq![0x40u8], 0, Seq::<u8>::empty())
    } else if i == 18 {
        d.name@ == "side-scroll"@
            && d.label@ == "Side Scrolling"@
            && d.description@ == "When disabled, pushing the wheel sideways sends custom button events."@
            && d.source == Source::Register { register: Register::MouseButtonFlags }
            && spec_toggle(d.validator, seq![0x02u8], seq![0x00u8], seq![0x02u8], 0, Seq::<u8>::empty())
    } else if i == 19 {
        d.name@ == "hand-detection"@
            && d.label@ == "Hand Detection"@
            && d.description@ == "Turn on illumination when the hands hover over the keyboard."@
            && d.source == Source::Register { register: Register::MouseButtonFlags }
            && spec_toggle(d.validator, seq![0x00u8, 0x00u8, 0x00u8], seq![0x00u8, 0x00u8, 0x30u8], seq![0x00u8, 0x00u8, 0xFFu8], 0, Seq::<u8>::empty())
    } else if i == 20 {
        d.name@ == "fn-swap-old"@
            && d.label@ == "Swap Fx function (register-based)"@
            && d.description@ == "When set, the F1..F12 keys activate their special function."@
            && d.source == Source::Register { register: Register::KeyboardFnSwap }
            && spec_toggle(d.validator, seq![0x00u8, 0x01u8], seq![0x00u8, 0x00u8], seq![0x00u8, 0x01u8], 0, Seq::<u8>::empty())
    } else {
        false
    }
}

/// The catalogue of settings, in the order the CLI lists them: HID++ 2.0
/// feature settings first, then HID++ 1.0 register settings.
pub fn all_settings() -> (r: Vec<SettingDef>)
    ensures
        r@.len() == 21,
        forall|i: int| 0 <= i < r@.len() ==> spec_catalogue_entry(i, #[trigger] r@[i]),
        forall|i: int| 0 <= i < r@.len() ==> spec_validator_wf(#[trigger] r@[i].validator),
{
    let mut v: Vec<SettingDef> = Vec::new();
    v.push(
        SettingDef {
            name: "fn-swap",
            label: "Swap Fx function",
            description: "When set, the F1..F12 keys activate their special function and FN activates standard.",
            source: feature_source(SupportedFeature::FnInversion, 0x00, 0x10),
            validator: Validator::Toggle {
                true_value: bytes_1(0x01),
                false_value: bytes_1(0x00),
                mask: bytes_1(0x01),
                read_skip: 0,
                write_prefix: no_bytes(),
            },
        },
    );
    assert(spec_catalogue_entry(0, v@[0]));
    v.push(
        SettingDef {
            name: "fn-swap",
            label: "Swap Fx function (new)",
            description: "When set, the F1..F12 keys activate their special function and FN activates standard.",
            source: feature_source(SupportedFeature::NewFnInversion, 0x00, 0x10),
            validator: Validator::Toggle {
                true_value: bytes_1(0x01),
                false_value: bytes_1(0x00),
                mask: bytes_1(0x01),
                read_skip: 0,
                write_prefix: no_bytes(),
            },
        },
    );
    assert(spec_catalogue_entry(1, v@[1]));
    v.push(
        SettingDef {
            name: "hi-res-scroll",
            label: "Scroll Wheel High Resolution",
            description: "High-sensitivity mode for vertical scroll with the wheel.",
            source: feature_source(SupportedFeature::HiResScrolling, 0x00, 0x10),
            validator: Validator::Toggle {
                true_value: bytes_1(0x01),
                false_value: bytes_1(0x00),
                mask: bytes_1(0x01),
                read_skip: 0,
                write_prefix: no_bytes(),
            },
        },
    );
    assert(spec_catalogue_entry(2, v@[2]));
    v.push(
        SettingDef {
            name: "lowres-scroll-mode",
            label: "Scroll Wheel Diversion (low-res)",
            description: "Make scroll wheel send LOWRES_WHEEL HID++ notifications.",
            source: feature_source(SupportedFeature::LowresWheel, 0x00, 0x10),
            validator: Validator::Toggle {
                true_value: bytes_1(0x01),
                false_value: bytes_1(0x00),
                mask: bytes_1(0x01),
                read_skip: 0,
                write_prefix: no_bytes(),
            },
        },
    );
    assert(spec_catalogue_entry(3, v@[3]));
    v.push(
        SettingDef {
            name: "hires-smooth-invert",
            label: "Scroll Wheel Direction",
            description: "Invert direction for vertical scroll with wheel.",
            source: feature_source(SupportedFeature::HiresWheel, 0x10, 0x20),
            validator: Validator::Toggle {
                true_value: bytes_1(0x04),
                false_value: bytes_1(0x00),
                mask: bytes_1(0x04),
                read_skip: 0,
                write_prefix: no_bytes(),
            },
        },
    );
    assert(spec_catalogue_entry(4, v@[4]));
    v.push(
        SettingDef {
            name: "hires-smooth-resolution",
            label: "Scroll Wheel Resolution",
            description: "High-sensitivity mode for vertical scroll with the wheel.",
            source: feature_source(SupportedFeature::HiresWheel, 0x10, 0x20),
            validator: Validator::Toggle {
                true_value: bytes_1(0x02),
                false_value: bytes_1(0x00),
                mask: bytes_1(0x02),
                read_skip: 0,
                write_prefix: no_bytes(),
            },
        },
    );
    assert(spec_catalogue_entry(5, v@[5]));
    v.push(
        SettingDef {
            name: "hires-scroll-mode",
            label: "Scroll Wheel Diversion (hi-res)",
            description: "Make scroll wheel send HIRES_WHEEL HID++ notifications.",
            source: feature_source(SupportedFeature::HiresWheel, 0x10, 0x20),
            validator: Validator::Toggle {
                true_value: bytes_1(0x01),
                false_value: bytes_1(0x00),
                mask: bytes_1(0x01),
                read_skip: 0,
                write_prefix: no_bytes(),
            },
        },
    );
    assert(spec_catalogue_entry(6, v@[6]));
    v.push(
        SettingDef {
            name: "thumb-scroll-mode",
            label: "Thumb Wheel Diversion",
            description: "Make thumb wheel send THUMB_WHEEL HID++ notifications.",
            source: feature_source(SupportedFeature::ThumbWheel, 0x10, 0x20),
            validator: Validator::Toggle {
                true_value: bytes_2(0x01, 0x00),
                false_value: bytes_2(0x00, 0x00),
                mask: bytes_2(0x01, 0x00),
                read_skip: 0,
                write_prefix: no_bytes(),
            },
        },
    );
    assert(spec_catalogue_entry(7, v@[7]));
    v.push(
        SettingDef {
            name: "thumb-scroll-invert",
            label: "Thumb Wheel Direction",
            description: "Invert thumb wheel scroll direction.",
            source: feature_source(SupportedFeature::ThumbWheel, 0x10, 0x20),
            validator: Validator::Toggle {
                true_value: bytes_2(0x00, 0x01),
                false_value: bytes_2(0x00, 0x00),
                mask: bytes_2(0x00, 0x01),
                read_skip: 0,
                write_prefix: no_bytes(),
            },
        },
    );
    assert(spec_catalogue_entry(8, v@[8]));
    let mut options: Vec<(i64, &'static str)> = Vec::new();
    options.push((1, "Freespinning"));
    options.push((2, "Ratcheted"));
    v.push(
        SettingDef {
            name: "scroll-ratchet",
            label: "Scroll Wheel Ratcheted",
            description: "Switch the mouse wheel between speed-controlled ratcheting and always freespin.",
            source: feature_source(SupportedFeature::SmartShift, 0x00, 0x10),
            validator: Validator::Choice {
                options,
                byte_count: 1,
                read_skip: 0,
                write_prefix: no_bytes(),
            },
        },
    );
    assert(spec_catalogue_entry(9, v@[9]));
    v.push(
        SettingDef {
            name: "smart-shift",
            label: "Scroll Wheel Ratchet Speed",
            description: "Use the mouse wheel speed to switch between ratcheted and freespinning (1-50).",
            source: feature_source(SupportedFeature::SmartShift, 0x00, 0x10),
            validator: Validator::Range {
                min: 1,
                max: 50,
                byte_count: 1,
                read_skip: 1,
                write_prefix: bytes_1(0x02),
            },
        },
    );
    assert(spec_catalogue_entry(10, v@[10]));
    let mut options: Vec<(i64, &'static str)> = Vec::new();
    options.push((1, "Freespinning"));
    options.push((2, "Ratcheted"));
    v.push(
        SettingDef {
            name: "scroll-ratchet-enhanced",
            label: "Scroll Wheel Ratcheted (Enhanced Smart Shift)",
            description: "Switch the mouse wheel between speed-controlled ratcheting and always freespin.",
            source: feature_source(SupportedFeature::SmartShiftEnhanced, 0x10, 0x20),
            validator: Validator::Choice {
                options,
                byte_count: 1,
                read_skip: 0,
                write_prefix: no_bytes(),
            },
        },
    );
    assert(spec_catalogue_entry(11, v@[11]));
    v.push(
        SettingDef {
            name: "smart-shift-enhanced",
            label: "Scroll Wheel Ratchet Speed (Enhanced)",
            description: "Use the mouse wheel speed to switch between ratcheted and freespinning (1-50).",
            source: feature_source(SupportedFeature::SmartShiftEnhanced, 0x10, 0x20),
            validator: Validator::Range {
                min: 1,
                max: 50,
                byte_count: 1,
                read_skip: 1,
                write_prefix: bytes_1(0x02),
            },
        },
    );
    assert(spec_catalogue_entry(12, v@[12]));
    v.push(
        SettingDef {
            name: "pointer-speed",
            label: "Sensitivity (Pointer Speed)",
            description: "Speed multiplier for mouse (256 = normal). Range: 46–511.",
            source: feature_source(SupportedFeature::PointerSpeed, 0x00, 0x10),
            validator: Validator::Range {
                min: 46,
                max: 511,
                byte_count: 2,
                read_skip: 0,
                write_prefix: no_bytes(),
            },
        },
    );
    assert(spec_catalogue_entry(13, v@[13]));
    v.push(
        SettingDef {
            name: "dpi",
            label: "Sensitivity (DPI)",
            description: "Mouse movement sensitivity. May need Onboard Profiles disabled to take effect.",
            source: feature_source(SupportedFeature::AdjustableDpi, 0x20, 0x30),
            validator: Validator::Range {
                min: 100,
                max: 25600,
                byte_count: 2,
                read_skip: 1,
                write_prefix: bytes_1(0x00),
            },
        },
    );
    assert(spec_catalogue_entry(14, v@[14]));
    v.push(
        SettingDef {
            name: "sidetone",
            label: "Sidetone",
            description: "Microphone sidetone level (0–100).",
            source: feature_source(SupportedFeature::Sidetone, 0x00, 0x10),
            validator: Validator::Range {
                min: 0,
                max: 100,
                byte_count: 1,
                read_skip: 0,
                write_prefix: no_bytes(),
            },
        },
    );
    assert(spec_catalogue_entry(15, v@[15]));
    let mut options: Vec<(i64, &'static str)> = Vec::new();
    options.push((1, "1ms (1000 Hz)"));
    options.push((2, "2ms (500 Hz)"));
    options.push((4, "4ms (250 Hz)"));
    options.push((8, "8ms (125 Hz)"));
    v.push(
        SettingDef {
            name: "report-rate",
            label: "Report Rate",
            description: "USB report rate in ms (1 = 1000 Hz, 2 = 500 Hz, …, 8 = 125 Hz).",
            source: feature_source(SupportedFeature::ReportRate, 0x10, 0x20),
            validator: Validator::Choice {
                options,
                byte_count: 1,
                read_skip: 0,
                write_prefix: no_bytes(),
            },
        },
    );
    assert(spec_catalogue_entry(16, v@[16]));
    v.push(
        SettingDef {
            name: "smooth-scroll",
            label: "Scroll Wheel Smooth Scrolling",
            description: "High-sensitivity mode for vertical scroll with the wheel.",
            source: Source::Register { register: Register::MouseButtonFlags },
            validator: Validator::Toggle {
                true_value: bytes_1(0x40),
                false_value: bytes_1(0x00),
                mask: bytes_1(0x40),
                read_skip: 0,
                write_prefix: no_bytes(),
            },
        },
    );
    assert(spec_catalogue_entry(17, v@[17]));
    v.push(
        SettingDef {
            name: "side-scroll",
            label: "Side Scrolling",
            description: "When disabled, pushing the wheel sideways sends custom button events.",
            source: Source::Register { register: Register::MouseButtonFlags },
            validator: Validator::Toggle {
                true_value: bytes_1(0x02),
                false_value: bytes_1(0x00),
                mask: bytes_1(0x02),
                read_skip: 0,
                write_prefix: no_bytes(),
            },
        },
    );
    assert(spec_catalogue_entry(18, v@[18]));
    v.push(
        SettingDef {
            name: "hand-detection",
            label: "Hand Detection",
            description: "Turn on illumination when the hands hover over the keyboard.",
            source: Source::Register { register: Register::MouseButtonFlags },
            validator: Validator::Toggle {
                true_value: bytes_3(0x00, 0x00, 0x00),
                false_value: bytes_3(0x00, 0x00, 0x30),
                mask: bytes_3(0x00, 0x00, 0xFF),
                read_skip: 0,
                write_prefix: no_bytes(),
            },
        },
    );
    assert(spec_catalogue_entry(19, v@[19]));
    v.push(
        SettingDef {
            name: "fn-swap-old",
            label: "Swap Fx function (register-based)",
            description: "When set, the F1..F12 keys activate their special function.",
            source: Source::Register { register: Register::KeyboardFnSwap },
            validator: Validator::Toggle {
                true_value: bytes_2(0x00, 0x01),
                false_value: bytes_2(0x00, 0x00),
                mask: bytes_2(0x00, 0x01),
                read_skip: 0,
                write_prefix: no_bytes(),
            },
        },
    );
    assert(spec_catalogue_entry(20, v@[20]));
    assert forall|i: int| 0 <= i < v@.len() implies spec_catalogue_entry(i, #[trigger] v@[i]) by {
    }
    v
}

/// The bytes to write for the user's text `s`, and whether the current
/// value must be merged first; `None` when the text is refused.
pub open spec fn spec_encoded(validator: Validator, s: Seq<char>) -> Option<(Seq<u8>, bool)> {
    match validator {
        Validator::Toggle { true_value, false_value, mask, write_prefix, .. } => match spec_parse_bool(
            s,
        ) {
            None => None,
            Some(b) => Some(
                (write_prefix@ + (if b {
                    true_value@
                } else {
                    false_value@
                }), spec_needs_rmw(mask@)),
            ),
        },
        Validator::Range { min, max, byte_count, write_prefix, .. } => match spec_parse_i64(s) {
            None => None,
            Some(n) => if n < min || n > max {
                None
            } else {
                Some((write_prefix@ + spec_be_bytes(n, byte_count as nat), false))
            },
        },
        Validator::Choice { options, byte_count, write_prefix, .. } => match spec_named_option(
            options@,
            s,
        ) {
            None => None,
            Some(i) => Some((write_prefix@ + spec_be_bytes(options@[i].0, byte_count as nat), false)),
        },
    }
}

/// Why reading or writing a setting failed.
#[derive(Debug)]
pub enum SettingError {
    /// The device call failed.
    Device(Error),
    /// The value is not one the setting accepts, or the device's reply
    /// cannot be decoded.
    Invalid(String),
}

/// Whether `reply` is what the device may answer to reading the setting
/// at `src`.
pub open spec fn spec_setting_read<D: Hidpp10Device + Hidpp20Device>(
    device: &D,
    src: Source,
    reply: Option<Seq<u8>>,
) -> bool {
    match src {
        Source::Feature { feature, read_fnid, prefix, .. } => device.answers_feature(
            feature,
            read_fnid,
            prefix@,
            reply,
        ),
        Source::Register { register } => device.answers_request(
            crate::hidpp10::spec_read_id(register),
            Seq::<u8>::empty(),
            reply,
        ),
    }
}

/// Whether writing `payload` to the setting at `src` may report `ok`: the
/// device answered the write (feature parameters: prefix, payload,
/// suffix), and `ok` says whether there was a reply.
pub open spec fn spec_setting_written<D: Hidpp10Device + Hidpp20Device>(
    device: &D,
    src: Source,
    payload: Seq<u8>,
    ok: bool,
) -> bool {
    match src {
        Source::Feature { feature, write_fnid, prefix, suffix, .. } => exists|reply: Option<Seq<u8>>|
            #[trigger] device.answers_feature(feature, write_fnid, prefix@ + payload + suffix@, reply)
                && ok == reply is Some,
        Source::Register { register } => exists|reply: Option<Seq<u8>>|
            #[trigger] device.answers_request(crate::hidpp10::spec_write_id(register), payload, reply)
                && ok == reply is Some,
    }
}

/// Whether the device may fail the read of the setting at `src` with
/// error `e`.
pub open spec fn spec_setting_read_rejected<D: Hidpp10Device + Hidpp20Device>(
    device: &D,
    src: Source,
    e: Error,
) -> bool {
    match src {
        Source::Feature { feature, read_fnid, prefix, .. } => device.rejects_feature(
            feature,
            read_fnid,
            prefix@,
            e,
        ),
        Source::Register { register } => device.rejects_request(
            crate::hidpp10::spec_read_id(register),
            Seq::<u8>::empty(),
            e,
        ),
    }
}

/// Whether `m` is why the reply `raw` of a setting read is refused: a
/// toggle reply shorter than the bytes it skips, or a reply the
/// validator cannot decode.
pub open spec fn spec_read_refused(validator: Validator, raw: Seq<u8>, m: String) -> bool {
    match validator {
        Validator::Toggle { read_skip, .. } => raw.len() < read_skip && m@ == spec_short_reply_text(
            raw.len(),
            read_skip as nat,
        ),
        _ => spec_decode_value(validator, raw, Err(m)),
    }
}

/// Read the raw value of the setting at `src`.
fn read_raw<D: Hidpp10Device + Hidpp20Device>(device: &D, src: &Source) -> (r: Result<
    Option<Vec<u8>>,
    SettingError,
>)
    ensures
        r matches Ok(o) ==> spec_setting_read(device, *src, opt_view(o)),
        r matches Err(e) ==> e matches SettingError::Device(d) && spec_setting_read_rejected(device, *src, d),
{
    let res = match src {
        Source::Feature { feature, read_fnid, prefix, .. } => device.feature_request(
            *feature,
            *read_fnid,
            prefix,
        ),
        Source::Register { register } => {
            let none: Vec<u8> = Vec::new();
            assert(none@ =~= Seq::<u8>::empty());
            read_register(device, *register, none.as_slice())
        },
    };
    match res {
        Ok(o) => Ok(o),
        Err(e) => Err(SettingError::Device(e)),
    }
}

/// Read the current value of a setting: `None` when the device does not
/// answer (feature or register not supported). A reply too short for the
/// value is refused.
pub fn read_setting<D: Hidpp10Device + Hidpp20Device>(device: &D, def: &SettingDef) -> (r: Result<
    Option<SettingValue>,
    SettingError,
>)
    requires
        spec_validator_wf(def.validator),
    ensures
        r matches Ok(None) ==> spec_setting_read(device, def.source, None),
        r matches Ok(Some(v)) ==> exists|raw: Seq<u8>|
            #[trigger] spec_setting_read(device, def.source, Some(raw)) && spec_decode_value(
                def.validator,
                raw,
                Ok(v),
            ),
        r matches Err(SettingError::Device(d)) ==> spec_setting_read_rejected(device, def.source, d),
        r matches Err(SettingError::Invalid(m)) ==> exists|raw: Seq<u8>|
            #[trigger] spec_setting_read(device, def.source, Some(raw)) && spec_read_refused(
                def.validator,
                raw,
                m,
            ),
{
    let raw = match read_raw(device, &def.source)? {
        Some(r) => r,
        None => return Ok(None),
    };
    assert(spec_setting_read(device, def.source, Some(raw@)));
    if let Validator::Toggle { read_skip, .. } = &def.validator {
        if raw.len() < *read_skip {
            let m = short_reply_text(raw.len(), *read_skip);
            assert(spec_read_refused(def.validator, raw@, m));
            return Err(SettingError::Invalid(m));
        }
    }
    match decode_value(&def.validator, raw.as_slice()) {
        Ok(v) => Ok(Some(v)),
        Err(m) => {
            assert(spec_read_refused(def.validator, raw@, m));
            Err(SettingError::Invalid(m))
        },
    }
}

/// Whether the device may fail the write of `payload` to the setting at
/// `src` with error `e` (feature parameters: prefix, payload, suffix).
pub open spec fn spec_setting_write_rejected<D: Hidpp10Device + Hidpp20Device>(
    device: &D,
    src: Source,
    payload: Seq<u8>,
    e: Error,
) -> bool {
    match src {
        Source::Feature { feature, write_fnid, prefix, suffix, .. } => device.rejects_feature(
            feature,
            write_fnid,
            prefix@ + payload + suffix@,
            e,
        ),
        Source::Register { register } => device.rejects_request(crate::hidpp10::spec_write_id(register), payload, e),
    }
}

/// Whether `m` is why writing the user's text `s` to a setting is refused
/// before anything is written: the text does not encode (`m` is the
/// encoding's message), or the toggle's current value, read for the merge,
/// is shorter than its true value.
pub open spec fn spec_write_refused<D: Hidpp10Device + Hidpp20Device>(
    device: &D,
    def: SettingDef,
    s: Seq<char>,
    m: String,
) -> bool {
    ||| spec_encoded(def.validator, s) is None && spec_encode_value(def.validator, s, Err(m))
    ||| (spec_encoded(def.validator, s) matches Some((_, rmw)) && rmw && spec_toggle_short(device, def, m))
}

/// Whether `m` reports the toggle's current value, read for the merge, as
/// shorter than its true value.
pub open spec fn spec_toggle_short<D: Hidpp10Device + Hidpp20Device>(device: &D, def: SettingDef, m: String) -> bool {
    match def.validator {
        Validator::Toggle { true_value, .. } => exists|cur: Seq<u8>|
            #[trigger] spec_setting_read(device, def.source, Some(cur)) && cur.len() < true_value@.len() && m@
                == spec_short_reply_text(cur.len(), true_value@.len()),
        _ => false,
    }
}

/// Whether writing the user's text `s` to a setting may fail with device
/// error `e`: the merge read is refused with `e`, or the write of the
/// encoded (or merged) value is.
pub open spec fn spec_write_failed<D: Hidpp10Device + Hidpp20Device>(
    device: &D,
    def: SettingDef,
    s: Seq<char>,
    e: Error,
) -> bool {
    spec_encoded(def.validator, s) matches Some((enc, rmw)) && if rmw {
        spec_setting_read_rejected(device, def.source, e) || exists|cur: Seq<u8>|
            #[trigger] spec_setting_read(device, def.source, Some(cur)) && spec_setting_write_rejected(
                device,
                def.source,
                spec_merge(def.validator, cur, enc),
                e,
            )
    } else {
        spec_setting_write_rejected(device, def.source, enc, e)
    }
}

/// Write the value the user's text names to a setting. A toggle that
/// shares register bits is read first and merged. Returns whether the
/// device answered the write; `false` also when the merge read got no
/// answer. A current value shorter than the toggle's value is refused.
pub fn write_setting<D: Hidpp10Device + Hidpp20Device>(
    device: &D,
    def: &SettingDef,
    value_str: &str,
) -> (r: Result<bool, SettingError>)
    requires
        spec_encodable(def.validator),
    ensures
        spec_encoded(def.validator, value_str@) is None ==> r matches Err(SettingError::Invalid(_)),
        r matches Ok(ok) ==> (spec_encoded(def.validator, value_str@) matches Some((e, rmw)) && (if rmw {
            (spec_setting_read(device, def.source, None) && !ok) || exists|cur: Seq<u8>|
                #[trigger] spec_setting_read(device, def.source, Some(cur)) && spec_setting_written(
                    device,
                    def.source,
                    spec_merge(def.validator, cur, e),
                    ok,
                )
        } else {
            spec_setting_written(device, def.source, e, ok)
        })),
        r matches Err(SettingError::Invalid(m)) ==> spec_write_refused(device, *def, value_str@, m),
        r matches Err(SettingError::Device(e)) ==> spec_write_failed(device, *def, value_str@, e),
{
    let (encoded, needs_rmw) = match encode_value(&def.validator, value_str) {
        Ok(x) => x,
        Err(m) => return Err(SettingError::Invalid(m)),
    };
    let payload: Vec<u8> = if needs_rmw {
        match read_raw(device, &def.source)? {
            Some(cur) => {
                if let Validator::Toggle { true_value, .. } = &def.validator {
                    if cur.len() < true_value.len() {
                        return Err(SettingError::Invalid(short_reply_text(cur.len(), true_value.len())));
                    }
                }
                assert(spec_setting_read(device, def.source, Some(cur@)));
                merge_with_mask(&def.validator, cur.as_slice(), encoded.as_slice())
            },
            None => return Ok(false),
        }
    } else {
        encoded
    };
    match &def.source {
        Source::Feature { feature, write_fnid, prefix, suffix, .. } => {
            let mut params: Vec<u8> = Vec::new();
            append_bytes(&mut params, prefix);
            append_bytes(&mut params, payload.as_slice());
            append_bytes(&mut params, suffix);
            let result = match device.feature_request(*feature, *write_fnid, params.as_slice()) {
                Ok(x) => x,
                Err(e) => return Err(SettingError::Device(e)),
            };
            assert(device.answers_feature(*feature, *write_fnid, params@, opt_view(result)));
            Ok(result.is_some())
        },
        Source::Register { register } => {
            let result = match write_register(device, *register, payload.as_slice()) {
                Ok(x) => x,
                Err(e) => return Err(SettingError::Device(e)),
            };
            assert(device.answers_request(crate::hidpp10::spec_write_id(*register), payload@, opt_view(result)));
            Ok(result.is_some())
        },
    }
}

/// Whether a setting at `src` can exist on a device speaking `protocol`:
/// features from HID++ 2.0 on, registers before; nothing when the protocol
/// is unknown.
pub open spec fn spec_source_supported(src: Source, protocol: Option<ProtocolVersion>) -> bool {
    match src {
        Source::Feature { .. } => protocol matches Some(p) && crate::base::spec_hidpp20(p),
        Source::Register { .. } => protocol matches Some(p) && !crate::base::spec_hidpp20(p),
    }
}

/// The settings of `defs` that a device speaking `protocol` can have, in
/// order.
pub open spec fn spec_supported(defs: Seq<SettingDef>, protocol: Option<ProtocolVersion>) -> Seq<SettingDef>
    decreases defs.len(),
{
    if defs.len() == 0 {
        seq![]
    } else {
        spec_supported(defs.drop_last(), protocol) + if spec_source_supported(defs.last().source, protocol) {
            seq![defs.last()]
        } else {
            seq![]
        }
    }
}

/// The settings of `defs` whose source a device speaking `protocol` can
/// have: HID++ 2.0 features from protocol 2.0 on, HID++ 1.0 registers
/// below it.
pub fn supported_settings<'a>(protocol: Option<ProtocolVersion>, defs: &'a [SettingDef]) -> (r: Vec<
    &'a SettingDef,
>)
    ensures
        r@.map_values(|d: &SettingDef| *d) == spec_supported(defs@, protocol),
{
    let is_hidpp2 = match protocol {
        Some(p) => p.is_hidpp20(),
        None => false,
    };
    let is_hidpp1 = match protocol {
        Some(p) => !p.is_hidpp20(),
        None => false,
    };
    let mut out: Vec<&'a SettingDef> = Vec::new();
    let mut i: usize = 0;
    while i < defs.len()
        invariant
            i <= defs@.len(),
            is_hidpp2 == (protocol matches Some(p) && crate::base::spec_hidpp20(p)),
            is_hidpp1 == (protocol matches Some(p) && !crate::base::spec_hidpp20(p)),
            out@.map_values(|d: &SettingDef| *d) == spec_supported(defs@.take(i as int), protocol),
        decreases defs@.len() - i,
    {
        let d = &defs[i];
        let keep = match &d.source {
            Source::Feature { .. } => is_hidpp2,
            Source::Register { .. } => is_hidpp1,
        };
        let ghost before = out@;
        if keep {
            out.push(d);
        }
        proof {
            let t = defs@.take(i + 1);
            assert(t.drop_last() =~= defs@.take(i as int));
            assert(t.last() == defs@[i as int]);
            assert(out@.map_values(|d: &SettingDef| *d) =~= spec_supported(t, protocol));
        }
        i = i + 1;
    }
    assert(defs@.take(defs@.len() as int) =~= defs@);
    out
}

/// The bytes a validator skips when reading.
pub open spec fn spec_read_skip(v: Validator) -> usize {
    match v {
        Validator::Toggle { read_skip, .. } => read_skip,
        Validator::Range { read_skip, .. } => read_skip,
        Validator::Choice { read_skip, .. } => read_skip,
    }
}

/// The bytes a validator writes before the value.
pub open spec fn spec_write_prefix(v: Validator) -> Seq<u8> {
    match v {
        Validator::Toggle { write_prefix, .. } => write_prefix@,
        Validator::Range { write_prefix, .. } => write_prefix@,
        Validator::Choice { write_prefix, .. } => write_prefix@,
    }
}

/// Whether the value `x` fits in `bc` bytes.
pub open spec fn spec_fits(x: u64, bc: nat) -> bool {
    bc == 8 || (bc < 8 && (x >> ((8 * bc) as u64)) == 0)
}

/// Shifting in the next lower byte of `x` extends the value read so far.
proof fn lemma_shift_in_byte(x: u64, s: u64)
    requires
        s <= 56,
    ensures
        (((x >> ((s + 8) as u64)) << 8u64) | ((x >> s) & 0xFFu64)) == x >> s,
{
    assert((((x >> ((s + 8) as u64)) << 8u64) | ((x >> s) & 0xFFu64)) == x >> s) by (bit_vector)
        requires
            s <= 56,
    ;
}

/// The top byte of a value that fits is the value shifted down.
proof fn lemma_top_byte(x: u64, s: u64)
    requires
        s <= 56,
        s == 56 || (x >> ((s + 8) as u64)) == 0,
    ensures
        (x >> s) & 0xFFu64 == x >> s,
{
    assert((x >> s) & 0xFFu64 == x >> s) by (bit_vector)
        requires
            s <= 56,
            s == 56 || (x >> ((s + 8) as u64)) == 0,
    ;
}

/// Reading back the first `k` of the `bc` bytes written for `n` gives the
/// value shifted down by the bytes not yet read.
proof fn lemma_be_prefix(n: i64, bc: nat, k: nat)
    requires
        1 <= k <= bc <= 8,
        spec_fits(n as u64, bc),
    ensures
        spec_be_u64(spec_be_bytes(n, bc).take(k as int)) == (n as u64) >> ((8 * (bc - k)) as u64),
    decreases k,
{
    let x = n as u64;
    let bytes = spec_be_bytes(n, bc);
    let t = bytes.take(k as int);
    let s = (8 * (bc - k)) as u64;
    assert((x >> s) & 0xFFu64 <= 0xFFu64) by (bit_vector);
    assert(t.last() == bytes[k - 1]);
    assert(bytes[k - 1] == (((x >> s) & 0xFFu64) as u8));
    if k == 1 {
        assert(t.drop_last() =~= Seq::<u8>::empty());
        assert(spec_be_u64(Seq::<u8>::empty()) == 0);
        lemma_top_byte(x, s);
        assert(spec_be_u64(t) == ((0u64 << 8u64) | (t.last() as u64)) as u64);
        assert((0u64 << 8u64) == 0u64) by (bit_vector);
        assert(t.last() as u64 == (x >> s) & 0xFFu64);
        assert(((0u64 | ((x >> s) & 0xFFu64)) as u64) == (x >> s) & 0xFFu64) by (bit_vector);
    } else {
        lemma_be_prefix(n, bc, (k - 1) as nat);
        assert(t.drop_last() =~= bytes.take(k - 1));
        lemma_shift_in_byte(x, s);
        assert(t.last() as u64 == (x >> s) & 0xFFu64);
    }
}

/// Reading back the bytes written for a value that fits gives the value.
pub proof fn lemma_be_roundtrip(n: i64, bc: nat)
    requires
        bc <= 8,
        spec_fits(n as u64, bc),
    ensures
        spec_be_u64(spec_be_bytes(n, bc)) == n as u64,
{
    assert((n as u64) >> 0u64 == n as u64) by (bit_vector);
    if bc == 0 {
        assert(spec_be_bytes(n, 0) =~= Seq::<u8>::empty());
    } else {
        lemma_be_prefix(n, bc, bc);
        assert(spec_be_bytes(n, bc).take(bc as int) =~= spec_be_bytes(n, bc));
    }
}

/// A toggle whose values differ under its mask reads back, from the bytes
/// written for the user's text after the same prefix, the boolean the text
/// names.
proof fn lemma_toggle_roundtrip(v: Validator, s: Seq<char>, e: Seq<u8>, rmw: bool, r: Result<SettingValue, String>)
    requires
        v is Toggle,
        spec_validator_wf(v),
        spec_read_skip(v) == spec_write_prefix(v).len(),
        spec_encoded(v, s) == Some((e, rmw)),
        spec_decode_value(v, e, r),
        v matches Validator::Toggle { true_value, false_value, mask, .. } ==> exists|i: int|
            0 <= i < mask@.len() && (#[trigger] true_value@[i] & mask@[i]) != (false_value@[i] & mask@[i]),
    ensures
        r == Ok::<SettingValue, String>(SettingValue::Toggle(spec_parse_bool(s)->0)),
{
    match v {
        Validator::Toggle { true_value, false_value, mask, read_skip, write_prefix } => {
            let b = spec_parse_bool(s)->0;
            let data = e.skip(read_skip as int);
            assert(data =~= if b { true_value@ } else { false_value@ });
            if !b {
                let i = choose|i: int|
                    0 <= i < mask@.len() && (#[trigger] true_value@[i] & mask@[i]) != (false_value@[i] & mask@[i]);
                assert(data[i] & mask@[i] != true_value@[i] & mask@[i]);
            }
        },
        _ => {},
    }
}

/// An integer that fits its bytes reads back, from the bytes written for
/// the user's text after the same prefix, as the integer the text names.
proof fn lemma_range_roundtrip(v: Validator, s: Seq<char>, e: Seq<u8>, rmw: bool, r: Result<SettingValue, String>)
    requires
        v is Range,
        spec_validator_wf(v),
        spec_read_skip(v) == spec_write_prefix(v).len(),
        spec_encoded(v, s) == Some((e, rmw)),
        spec_decode_value(v, e, r),
        v matches Validator::Range { byte_count, .. } ==> (spec_parse_i64(s) matches Some(n) && spec_fits(n as u64, byte_count as nat)),
    ensures
        r == Ok::<SettingValue, String>(SettingValue::Range(spec_parse_i64(s)->0)),
{
    match v {
        Validator::Range { byte_count, read_skip, write_prefix, .. } => {
            let n = spec_parse_i64(s)->0;
            lemma_be_roundtrip(n, byte_count as nat);
            assert(e.subrange(read_skip as int, read_skip + byte_count) =~= spec_be_bytes(n, byte_count as nat));
            assert((n as u64) as i64 == n) by (bit_vector);
        },
        _ => {},
    }
}

/// A choice among distinct values that fit reads back, from the bytes
/// written for the user's text after the same prefix, the label of the
/// option the text names.
#[verifier::spinoff_prover]
#[verifier::rlimit(60)]
proof fn lemma_choice_roundtrip(v: Validator, s: Seq<char>, e: Seq<u8>, rmw: bool, r: Result<SettingValue, String>)
    requires
        v is Choice,
        spec_validator_wf(v),
        spec_read_skip(v) == spec_write_prefix(v).len(),
        spec_encoded(v, s) == Some((e, rmw)),
        spec_decode_value(v, e, r),
        v matches Validator::Choice { options, byte_count, .. } ==> (forall|i: int, j: int|
            0 <= i < j < options@.len() ==> #[trigger] options@[i].0 != #[trigger] options@[j].0) && (forall|i: int|
            0 <= i < options@.len() ==> spec_fits(#[trigger] options@[i].0 as u64, byte_count as nat)),
    ensures
        v matches Validator::Choice { options, .. } ==> (r matches Ok(SettingValue::Choice(l)) && l@
            == options@[spec_named_option(options@, s)->0].1@),
{
    match v {
        Validator::Choice { options, byte_count, read_skip, write_prefix } => {
            lemma_named_option_found(options@, s);
            let i = spec_named_option(options@, s)->0;
            let k = options@[i].0;
            lemma_be_roundtrip(k, byte_count as nat);
            assert(e.subrange(read_skip as int, read_skip + byte_count) =~= spec_be_bytes(k, byte_count as nat));
            assert((k as u64) as i64 == k) by (bit_vector);
            lemma_first_option_distinct(options@, i);
        },
        _ => {},
    }
}

/// The option a text names is one of the options, and the text names it.
proof fn lemma_named_option_found(opts: Seq<(i64, &'static str)>, s: Seq<char>)
    requires
        spec_named_option(opts, s) is Some,
    ensures
        0 <= spec_named_option(opts, s)->0 < opts.len(),
        spec_option_named(opts[spec_named_option(opts, s)->0], s),
{
    let w = choose|i: int| 0 <= i < opts.len() && spec_option_named(opts[i], s);
    lemma_first_named_exists(opts, s, w);
}

/// Some first option is named, when any is.
proof fn lemma_first_named_exists(opts: Seq<(i64, &'static str)>, s: Seq<char>, w: int)
    requires
        0 <= w < opts.len(),
        spec_option_named(opts[w], s),
    ensures
        exists|i: int|
            0 <= i < opts.len() && spec_option_named(opts[i], s) && forall|j: int|
                0 <= j < i ==> !spec_option_named(#[trigger] opts[j], s),
    decreases w,
{
    if exists|j: int| 0 <= j < w && spec_option_named(opts[j], s) {
        let j = choose|j: int| 0 <= j < w && spec_option_named(opts[j], s);
        lemma_first_named_exists(opts, s, j);
    } else {
        assert(forall|j: int| 0 <= j < w ==> !spec_option_named(#[trigger] opts[j], s));
    }
}

/// Among options with distinct values, the first with the value of option
/// `i` is option `i`.
proof fn lemma_first_option_distinct(opts: Seq<(i64, &'static str)>, i: int)
    requires
        0 <= i < opts.len(),
        forall|a: int, b: int| 0 <= a < b < opts.len() ==> #[trigger] opts[a].0 != #[trigger] opts[b].0,
    ensures
        spec_first_option(opts, opts[i].0) == Some(i),
{
    let k = opts[i].0;
    assert forall|j: int| 0 <= j < i implies #[trigger] opts[j].0 != k by {
        assert(opts[j].0 != opts[i].0);
    }
    assert(0 <= i < opts.len() && opts[i].0 == k && forall|m: int| 0 <= m < i ==> #[trigger] opts[m].0 != k);
    let f = choose|j: int|
        0 <= j < opts.len() && opts[j].0 == k && forall|m: int| 0 <= m < j ==> #[trigger] opts[m].0 != k;
    if f < i {
        assert(opts[f].0 != opts[i].0);
    } else if f > i {
        assert(opts[i].0 != k);
    }
}

/// What a setting reads back from the bytes written for the user's text,
/// when the reply holds them after the same prefix: a toggle whose values
/// differ under its mask gives the boolean the text names; an integer that
/// fits its bytes gives the integer; a choice among distinct values that fit
/// gives the label of the option the text names.
pub proof fn lemma_setting_roundtrip(v: Validator, s: Seq<char>, e: Seq<u8>, rmw: bool, r: Result<SettingValue, String>)
    requires
        spec_validator_wf(v),
        spec_read_skip(v) == spec_write_prefix(v).len(),
        spec_encoded(v, s) == Some((e, rmw)),
        spec_decode_value(v, e, r),
        v matches Validator::Toggle { true_value, false_value, mask, .. } ==> exists|i: int|
            0 <= i < mask@.len() && (#[trigger] true_value@[i] & mask@[i]) != (false_value@[i] & mask@[i]),
        v matches Validator::Range { byte_count, .. } ==> (spec_parse_i64(s) matches Some(n) && spec_fits(n as u64, byte_count as nat)),
        v matches Validator::Choice { options, byte_count, .. } ==> (forall|i: int, j: int|
            0 <= i < j < options@.len() ==> #[trigger] options@[i].0 != #[trigger] options@[j].0) && (forall|i: int|
            0 <= i < options@.len() ==> spec_fits(#[trigger] options@[i].0 as u64, byte_count as nat)),
    ensures
        v is Toggle ==> r == Ok::<SettingValue, String>(SettingValue::Toggle(spec_parse_bool(s)->0)),
        v is Range ==> r == Ok::<SettingValue, String>(SettingValue::Range(spec_parse_i64(s)->0)),
        v matches Validator::Choice { options, .. } ==> (r matches Ok(SettingValue::Choice(l)) && l@
            == options@[spec_named_option(options@, s)->0].1@),
{
    if v is Toggle {
        lemma_toggle_roundtrip(v, s, e, rmw, r);
    } else if v is Range {
        lemma_range_roundtrip(v, s, e, rmw, r);
    } else {
        lemma_choice_roundtrip(v, s, e, rmw, r);
    }
}

/// The decimal rendering of a natural number is a non-empty run of digits
/// worth that number.
proof fn lemma_decimal_digits(m: nat)
    ensures
        crate::text::spec_decimal(m).len() > 0,
        spec_all_digits(crate::text::spec_decimal(m)),
        spec_digits_value(crate::text::spec_decimal(m)) == m,
    decreases m,
{
    let d = crate::text::spec_decimal(m);
    let v: int = (m % 10) as int;
    assert(0 <= v < 10);
    assert(crate::text::spec_dec_digit(v) as int == '0' as int + v);
    if m < 10 {
        assert(d.drop_last() =~= Seq::<char>::empty());
        assert(v == m);
        assert(d.last() == crate::text::spec_dec_digit(v));
        assert(spec_digits_value(d) == spec_digits_value(d.drop_last()) * 10 + (d.last() as int - '0' as int));
    } else {
        lemma_decimal_digits(m / 10);
        assert(d.drop_last() =~= crate::text::spec_decimal(m / 10));
        assert(m == (m / 10) * 10 + v);
        assert(d.last() == crate::text::spec_dec_digit(v));
        assert(spec_digits_value(d) == spec_digits_value(d.drop_last()) * 10 + (d.last() as int - '0' as int));
        assert forall|i: int| 0 <= i < d.len() implies spec_is_digit(#[trigger] d[i]) by {
            if i < d.len() - 1 {
                assert(d[i] == crate::text::spec_decimal(m / 10)[i]);
            }
        }
    }
}

/// The decimal text of a 64-bit integer reads back as that integer.
pub proof fn lemma_parse_decimal(n: i64)
    ensures
        spec_parse_i64(crate::text::spec_signed_decimal(n as int)) == Some(n),
{
    let s = crate::text::spec_signed_decimal(n as int);
    if n < 0 {
        let m = (-n) as nat;
        lemma_decimal_digits(m);
        assert(s.skip(1) =~= crate::text::spec_decimal(m));
        assert(spec_digits_part(s) == crate::text::spec_decimal(m));
    } else {
        lemma_decimal_digits(n as nat);
        let d = crate::text::spec_decimal(n as nat);
        assert(spec_is_digit(d[0]));
        assert(spec_digits_part(s) == d);
    }
}

/// A value no larger than one that fits a byte count fits it too.
proof fn lemma_fits_below(n: u64, max: u64, bc: nat)
    requires
        n <= max,
        spec_fits(max, bc),
    ensures
        spec_fits(n, bc),
{
    if bc < 8 {
        let sh: u64 = (8 * bc) as u64;
        assert(sh < 64);
        assert((max >> sh) == 0 && n <= max && sh < 64 ==> (n >> sh) == 0) by (bit_vector);
    }
}

/// An integer setting reads back the number written as decimal text: for a
/// setting with `0 <= min <= n <= max` and `max` fitting its byte count,
/// the decimal text of `n` is accepted, and the bytes written for it, read
/// back after the same prefix, give `n`.
pub proof fn lemma_decimal_setting_roundtrip(v: Validator, n: i64, r: Result<SettingValue, String>)
    requires
        spec_validator_wf(v),
        spec_read_skip(v) == spec_write_prefix(v).len(),
        v matches Validator::Range { min, max, byte_count, .. } && 0 <= min <= n <= max && spec_fits(
            max as u64,
            byte_count as nat,
        ),
        spec_decode_value(v, spec_encoded(v, crate::text::spec_signed_decimal(n as int)).unwrap().0, r),
    ensures
        spec_encoded(v, crate::text::spec_signed_decimal(n as int)) is Some,
        r == Ok::<SettingValue, String>(SettingValue::Range(n)),
{
    let s = crate::text::spec_signed_decimal(n as int);
    lemma_parse_decimal(n);
    match v {
        Validator::Range { max, byte_count, .. } => {
            lemma_fits_below(n as u64, max as u64, byte_count as nat);
            let (e, rmw) = spec_encoded(v, s).unwrap();
            lemma_range_roundtrip(v, s, e, rmw, r);
        },
        _ => {},
    }
}

/// A toggle reads back the word written: for a toggle whose two values
/// differ under its mask, the bytes written for `true` or `false`, read back
/// after the same prefix, give that boolean.
pub proof fn lemma_toggle_word_roundtrip(v: Validator, b: bool, r: Result<SettingValue, String>)
    requires
        spec_validator_wf(v),
        spec_read_skip(v) == spec_write_prefix(v).len(),
        v matches Validator::Toggle { true_value, false_value, mask, .. } && exists|i: int|
            0 <= i < mask@.len() && (#[trigger] true_value@[i] & mask@[i]) != (false_value@[i] & mask@[i]),
        spec_decode_value(
            v,
            spec_encoded(
                v,
                if b {
                    seq!['t', 'r', 'u', 'e']
                } else {
                    seq!['f', 'a', 'l', 's', 'e']
                },
            ).unwrap().0,
            r,
        ),
    ensures
        r == Ok::<SettingValue, String>(SettingValue::Toggle(b)),
{
    let s = if b {
        seq!['t', 'r', 'u', 'e']
    } else {
        seq!['f', 'a', 'l', 's', 'e']
    };
    assert(spec_ascii_lower_seq(s) =~= s);
    assert(spec_parse_bool(s) == Some(b));
    let (e, rmw) = spec_encoded(v, s).unwrap();
    lemma_toggle_roundtrip(v, s, e, rmw, r);
}

/// A value is written big-endian: its low byte last, the byte above it
/// just before, and the first byte the highest one kept.
pub proof fn lemma_be_bytes_order(n: i64, bc: nat)
    requires
        1 <= bc <= 8,
    ensures
        spec_be_bytes(n, bc).len() == bc,
        spec_be_bytes(n, bc)[bc - 1] as int == (n as u64) as int % 256,
        bc >= 2 ==> spec_be_bytes(n, bc)[bc - 2] as int == ((n as u64) as int / 256) % 256,
{
    let x = n as u64;
    assert((x >> 0u64) & 0xFF == x % 256) by (bit_vector);
    assert((x >> 8u64) & 0xFF == (x / 256) % 256) by (bit_vector);
    assert(spec_be_bytes(n, bc)[bc - 1] == ((x >> ((8 * (bc - 1 - (bc - 1))) as u64)) & 0xFFu64) as u8);
    if bc >= 2 {
        assert(spec_be_bytes(n, bc)[bc - 2] == ((x >> ((8 * (bc - 1 - (bc - 2))) as u64)) & 0xFFu64) as u8);
    }
}

} // verus!
