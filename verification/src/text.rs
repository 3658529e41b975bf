//! Text building blocks: hexadecimal and decimal renderings of numbers and
//! byte strings, with their specifications.

use vstd::prelude::*;
use vstd::string::StrSliceExecFns;

verus! {

/// Appends one character to a string.
///
/// Trusted: calls `String::push`, which std documents as appending the
/// character to the end of the string.
#[verifier::external_body]
pub(crate) fn push_char(s: &mut String, c: char)
    ensures
        final(s)@ == old(s)@.push(c),
{
    s.push(c);
}

/// The hexadecimal digit of a value below 16, upper or lower case.
pub open spec fn spec_hex_digit(v: int, upper: bool) -> char {
    if v < 10 {
        (('0' as int) + v) as char
    } else if upper {
        (('A' as int) + v - 10) as char
    } else {
        (('a' as int) + v - 10) as char
    }
}

/// The two hexadecimal digits of a byte, high nibble first.
pub open spec fn spec_hex_byte(b: u8, upper: bool) -> Seq<char> {
    seq![spec_hex_digit(b as int / 16, upper), spec_hex_digit(b as int % 16, upper)]
}

/// The hexadecimal rendering of a byte string, two digits per byte, with
/// `sep` between consecutive bytes.
pub open spec fn spec_hex_bytes(s: Seq<u8>, upper: bool, sep: Seq<char>) -> Seq<char>
    decreases s.len(),
{
    if s.len() == 0 {
        seq![]
    } else if s.len() == 1 {
        spec_hex_byte(s[0], upper)
    } else {
        spec_hex_bytes(s.drop_last(), upper, sep) + sep + spec_hex_byte(s.last(), upper)
    }
}

/// The decimal digit of a value below 10.
pub open spec fn spec_dec_digit(v: int) -> char {
    (('0' as int) + v) as char
}

/// The decimal rendering of a natural number, without leading zeros.
pub open spec fn spec_decimal(n: nat) -> Seq<char>
    decreases n,
{
    if n < 10 {
        seq![spec_dec_digit(n as int)]
    } else {
        spec_decimal(n / 10).push(spec_dec_digit((n % 10) as int))
    }
}

/// The decimal rendering of an integer, with a leading `-` when negative.
pub open spec fn spec_signed_decimal(n: int) -> Seq<char> {
    if n < 0 {
        seq!['-'] + spec_decimal((-n) as nat)
    } else {
        spec_decimal(n as nat)
    }
}

/// A list of numbers written as `[a, b, c]` in decimal.
pub open spec fn spec_debug_bytes(s: Seq<u8>) -> Seq<char> {
    seq!['['] + spec_decimal_list(s) + seq![']']
}

/// Numbers in decimal, separated by `, `.
pub open spec fn spec_decimal_list(s: Seq<u8>) -> Seq<char>
    decreases s.len(),
{
    if s.len() == 0 {
        seq![]
    } else if s.len() == 1 {
        spec_decimal(s[0] as nat)
    } else {
        spec_decimal_list(s.drop_last()) + seq![',', ' '] + spec_decimal(s.last() as nat)
    }
}

/// The hexadecimal digit of `v`.
pub fn hex_digit(v: u8, upper: bool) -> (c: char)
    requires
        v < 16,
    ensures
        c == spec_hex_digit(v as int, upper),
{
    if v < 10 {
        ('0' as u8 + v) as char
    } else if upper {
        ('A' as u8 + v - 10) as char
    } else {
        ('a' as u8 + v - 10) as char
    }
}

/// Appends the two hexadecimal digits of `b`.
pub fn push_hex_byte(s: &mut String, b: u8, upper: bool)
    ensures
        final(s)@ == old(s)@ + spec_hex_byte(b, upper),
{
    push_char(s, hex_digit(b / 16, upper));
    push_char(s, hex_digit(b % 16, upper));
}

/// Appends the decimal rendering of `n`.
pub fn push_decimal(s: &mut String, n: u64)
    ensures
        final(s)@ == old(s)@ + spec_decimal(n as nat),
    decreases n,
{
    if n >= 10 {
        push_decimal(s, n / 10);
    }
    let d: u8 = (n % 10) as u8;
    push_char(s, ('0' as u8 + d) as char);
}

/// Appends `sep`, one character at a time.
pub fn push_str(s: &mut String, sep: &Vec<char>)
    ensures
        final(s)@ == old(s)@ + sep@,
{
    let ghost start = s@;
    let mut i: usize = 0;
    while i < sep.len()
        invariant
            i <= sep.len(),
            s@ == start + sep@.take(i as int),
        decreases sep.len() - i,
    {
        push_char(s, sep[i]);
        i = i + 1;
        assert(sep@.take(i as int) =~= sep@.take(i - 1).push(sep@[i - 1]));
    }
    assert(sep@.take(sep.len() as int) =~= sep@);
}

/// The hexadecimal rendering of `bytes` with `sep` between bytes.
pub fn hex_bytes(bytes: &[u8], upper: bool, sep: &Vec<char>) -> (r: String)
    ensures
        r@ == spec_hex_bytes(bytes@, upper, sep@),
{
    let mut r = String::new();
    let mut i: usize = 0;
    while i < bytes.len()
        invariant
            i <= bytes.len(),
            r@ == spec_hex_bytes(bytes@.take(i as int), upper, sep@),
        decreases bytes.len() - i,
    {
        let ghost before = r@;
        if i > 0 {
            push_str(&mut r, sep);
        }
        push_hex_byte(&mut r, bytes[i], upper);
        proof {
            let t = bytes@.take(i + 1);
            assert(t.drop_last() =~= bytes@.take(i as int));
            assert(t.last() == bytes@[i as int]);
            if i == 0 {
                assert(t.len() == 1);
                assert(before =~= Seq::<char>::empty());
                assert(r@ =~= spec_hex_byte(bytes@[0], upper));
            }
        }
        i = i + 1;
    }
    assert(bytes@.take(bytes.len() as int) =~= bytes@);
    r
}

/// Appends the numbers of `bytes` in decimal, separated by `, `, in
/// brackets.
pub fn push_debug_bytes(s: &mut String, bytes: &[u8])
    ensures
        final(s)@ == old(s)@ + spec_debug_bytes(bytes@),
{
    let ghost start = s@;
    push_char(s, '[');
    let mut i: usize = 0;
    while i < bytes.len()
        invariant
            i <= bytes.len(),
            s@ == start + seq!['['] + spec_decimal_list(bytes@.take(i as int)),
        decreases bytes.len() - i,
    {
        if i > 0 {
            push_char(s, ',');
            push_char(s, ' ');
        }
        push_decimal(s, bytes[i] as u64);
        proof {
            let t = bytes@.take(i + 1);
            assert(t.drop_last() =~= bytes@.take(i as int));
            if i == 0 {
                assert(bytes@.take(0) =~= Seq::<u8>::empty());
            }
        }
        i = i + 1;
        assert(s@ =~= start + seq!['['] + spec_decimal_list(bytes@.take(i as int)));
    }
    push_char(s, ']');
    assert(bytes@.take(bytes.len() as int) =~= bytes@);
    assert(s@ =~= start + spec_debug_bytes(bytes@));
}

/// The lower case of a text as Unicode defines it.
pub uninterp spec fn unicode_lower(s: Seq<char>) -> Seq<char>;

/// The ASCII lower case of a character.
pub open spec fn spec_ascii_lower_char(c: char) -> char {
    if 'A' <= c && c <= 'Z' {
        ((c as u32) + 32) as char
    } else {
        c
    }
}

/// Whether a text is ASCII.
pub open spec fn spec_is_ascii(s: Seq<char>) -> bool {
    forall|i: int| 0 <= i < s.len() ==> (#[trigger] s[i] as u32) < 128
}

/// The lower case of a text.
///
/// Trusted: calls `str::to_lowercase`, which std documents as mapping each
/// character to its Unicode lower case; the result depends on the text
/// alone, and an ASCII text is lower-cased letter by letter.
#[verifier::external_body]
pub(crate) fn to_lowercase(s: &str) -> (r: String)
    ensures
        r@ == unicode_lower(s@),
        spec_is_ascii(s@) ==> r@ == s@.map_values(|c: char| spec_ascii_lower_char(c)),
{
    s.to_lowercase()
}

/// Whether `needle` occurs in `hay` as a run of consecutive characters.
pub open spec fn spec_contains(hay: Seq<char>, needle: Seq<char>) -> bool {
    exists|i: int| 0 <= i && i + needle.len() <= hay.len() && #[trigger] hay.subrange(i, i + needle.len()) == needle
}

/// Whether `needle` occurs in `hay`.
pub fn contains(hay: &str, needle: &str) -> (r: bool)
    ensures
        r == spec_contains(hay@, needle@),
{
    let n: usize = hay.unicode_len();
    let m: usize = needle.unicode_len();
    if m > n {
        proof {
            assert forall|i: int| 0 <= i && i + needle@.len() <= hay@.len() implies #[trigger] hay@.subrange(i, i + needle@.len()) != needle@ by {
            }
        }
        return false;
    }
    if m == 0 {
        assert(hay@.subrange(0, 0 + needle@.len() as int) =~= needle@);
        return true;
    }
    let mut i: usize = 0;
    while i < n - m + 1
        invariant
            n == hay@.len(),
            m == needle@.len(),
            1 <= m <= n,
            i <= n - m + 1,
            forall|k: int| 0 <= k < i ==> #[trigger] hay@.subrange(k, k + m) != needle@,
        decreases n - m + 1 - i,
    {
        assert(hay@.subrange(i as int, i as int) =~= needle@.take(0));
        let mut j: usize = 0;
        let mut same = true;
        while j < m
            invariant
                n == hay@.len(),
                m == needle@.len(),
                i + m <= n,
                j <= m,
                same == (hay@.subrange(i as int, i + j) == needle@.take(j as int)),
            decreases m - j,
        {
            let a = hay.get_char(i + j);
            let b = needle.get_char(j);
            if a != b {
                assert(hay@.subrange(i as int, i + j + 1)[j as int] != needle@.take(j + 1)[j as int]);
                same = false;
            } else if same {
                assert(hay@.subrange(i as int, i + j + 1) =~= hay@.subrange(i as int, i + j).push(a));
                assert(needle@.take(j + 1) =~= needle@.take(j as int).push(b));
            }
            if !same {
                proof {
                    if hay@.subrange(i as int, i + j + 1) == needle@.take(j + 1) {
                        assert(hay@.subrange(i as int, i + j) =~= hay@.subrange(i as int, i + j + 1).take(j as int));
                        assert(needle@.take(j as int) =~= needle@.take(j + 1).take(j as int));
                    }
                }
            }
            j = j + 1;
        }
        assert(needle@.take(m as int) =~= needle@);
        if same {
            return true;
        }
        i = i + 1;
    }
    proof {
        assert forall|k: int| 0 <= k && k + needle@.len() <= hay@.len() implies #[trigger] hay@.subrange(k, k + needle@.len()) != needle@ by {
        }
    }
    false
}

/// Whether two texts hold the same characters.
pub fn text_eq(a: &str, b: &str) -> (r: bool)
    ensures
        r == (a@ == b@),
{
    let n: usize = a.unicode_len();
    if n != b.unicode_len() {
        return false;
    }
    let mut i: usize = 0;
    while i < n
        invariant
            n == a@.len(),
            n == b@.len(),
            i <= n,
            a@.take(i as int) == b@.take(i as int),
        decreases n - i,
    {
        if a.get_char(i) != b.get_char(i) {
            assert(a@[i as int] != b@[i as int]);
            return false;
        }
        i = i + 1;
        assert(a@.take(i as int) =~= b@.take(i as int));
    }
    assert(a@ =~= a@.take(n as int));
    assert(b@ =~= b@.take(n as int));
    true
}

/// Whether character `c` is the upper-case hexadecimal digit of `v`.
pub open spec fn spec_is_upper_hex_digit(c: char, v: int) -> bool {
    c as int == if v < 10 {
        '0' as int + v
    } else {
        'A' as int + v - 10
    }
}

/// Whether `t` shows byte `b` at `at` as two upper-case hexadecimal digits,
/// high nibble first.
pub open spec fn spec_shows_byte(t: Seq<char>, at: int, b: u8) -> bool {
    spec_is_upper_hex_digit(t[at], b as int / 16) && spec_is_upper_hex_digit(t[at + 1], b as int % 16)
}

/// A byte in upper-case hexadecimal is its two digits, high nibble first.
pub proof fn lemma_hex_byte_digits(b: u8)
    ensures
        spec_hex_byte(b, true).len() == 2,
        spec_shows_byte(spec_hex_byte(b, true), 0, b),
{
}

/// A byte string in upper-case hexadecimal shows each byte, in order, as
/// its two digits, with the separator between consecutive bytes and
/// nowhere else.
pub proof fn lemma_hex_bytes_digits(s: Seq<u8>, sep: Seq<char>)
    ensures
        s.len() > 0 ==> spec_hex_bytes(s, true, sep).len() == 2 * s.len() + (s.len() - 1) * sep.len(),
        s.len() == 0 ==> spec_hex_bytes(s, true, sep).len() == 0,
        forall|i: int|
            0 <= i < s.len() ==> spec_shows_byte(spec_hex_bytes(s, true, sep), i * (2 + sep.len()), #[trigger] s[i]),
        forall|i: int, j: int|
            0 <= i < s.len() - 1 && 0 <= j < sep.len() ==> #[trigger] spec_hex_bytes(s, true, sep)[i * (2 + sep.len())
                + 2 + j] == #[trigger] sep[j],
    decreases s.len(),
{
    if s.len() > 1 {
        let front = s.drop_last();
        lemma_hex_bytes_digits(front, sep);
        let t = spec_hex_bytes(s, true, sep);
        let tf = spec_hex_bytes(front, true, sep);
        let w = 2 + sep.len();
        assert(t == tf + sep + spec_hex_byte(s.last(), true));
        assert(tf.len() == 2 * front.len() + (front.len() - 1) * sep.len());
        assert((s.len() - 1) * w == tf.len() + sep.len()) by (nonlinear_arith)
            requires
                tf.len() == 2 * (s.len() - 1) + (s.len() - 2) * sep.len(),
                w == 2 + sep.len(),
        ;
        assert(t.len() == 2 * s.len() + (s.len() - 1) * sep.len()) by (nonlinear_arith)
            requires
                t.len() == tf.len() + sep.len() + 2,
                tf.len() == 2 * (s.len() - 1) + (s.len() - 2) * sep.len(),
        ;
        assert forall|i: int| 0 <= i < s.len() implies spec_shows_byte(t, i * w, #[trigger] s[i]) by {
            if i < s.len() - 1 {
                assert(front[i] == s[i]);
                assert(spec_shows_byte(tf, i * w, front[i]));
                assert(i * w + 1 < tf.len()) by (nonlinear_arith)
                    requires
                        0 <= i < s.len() - 1,
                        w == 2 + sep.len(),
                        tf.len() == 2 * (s.len() - 1) + (s.len() - 2) * sep.len(),
                ;
                assert(t[i * w] == tf[i * w]);
                assert(t[i * w + 1] == tf[i * w + 1]);
            } else {
                assert(t[i * w] == spec_hex_byte(s.last(), true)[0]);
                assert(t[i * w + 1] == spec_hex_byte(s.last(), true)[1]);
            }
        }
        assert forall|i: int, j: int| 0 <= i < s.len() - 1 && 0 <= j < sep.len() implies #[trigger] t[i * w + 2 + j]
            == #[trigger] sep[j] by {
            if i < s.len() - 2 {
                assert(i * w + 2 + j < tf.len()) by (nonlinear_arith)
                    requires
                        0 <= i < s.len() - 2,
                        0 <= j < sep.len(),
                        w == 2 + sep.len(),
                        tf.len() == 2 * (s.len() - 1) + (s.len() - 2) * sep.len(),
                ;
                assert(t[i * w + 2 + j] == tf[i * w + 2 + j]);
            } else {
                assert(i * w + 2 == tf.len()) by (nonlinear_arith)
                    requires
                        i == s.len() - 2,
                        w == 2 + sep.len(),
                        tf.len() == 2 * (s.len() - 1) + (s.len() - 2) * sep.len(),
                ;
                assert(t[i * w + 2 + j] == sep[j]);
            }
        }
    } else if s.len() == 1 {
        assert(spec_hex_bytes(s, true, sep) == spec_hex_byte(s[0], true));
    }
}

} // verus!
