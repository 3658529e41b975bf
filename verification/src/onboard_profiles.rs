//! Onboard profiles (HID++ 2.0 feature 0x8100): the byte layout of LED
//! effects, button mappings and profile sectors, the sector checksum, and
//! reading and writing the profile set of a device.

use vstd::prelude::*;
use crate::bytes::{append_bytes, append_fill, be16, copy_range, hi, lo};
use crate::hexcodec::{decode, encode_lower};
use crate::text::push_decimal;
use vstd::string::{StrSliceExecFns, StringExecFns};
use std::collections::HashMap;
use crate::error::{protocol_error, Error};
use crate::hidpp10::opt_view;
use crate::hidpp20::Hidpp20Device;
use crate::hidpp20_constants::SupportedFeature;

verus! {

broadcast use vstd::std_specs::hash::group_hash_axioms;

/// One step of CRC-16/CCITT-FALSE over one bit.
pub open spec fn spec_crc_bit(crc: u16) -> u16 {
    if crc & 0x8000 != 0 {
        ((crc << 1u16) ^ 0x1021u16) as u16
    } else {
        (crc << 1u16) as u16
    }
}

/// `n` bit steps of the checksum.
pub open spec fn spec_crc_bits(crc: u16, n: nat) -> u16
    decreases n,
{
    if n == 0 {
        crc
    } else {
        spec_crc_bit(spec_crc_bits(crc, (n - 1) as nat))
    }
}

/// The checksum after one more byte.
pub open spec fn spec_crc_byte(crc: u16, b: u8) -> u16 {
    spec_crc_bits(crc ^ ((b as u16) << 8u16), 8)
}

/// CRC-16/CCITT-FALSE of `data`: initial value 0xFFFF, polynomial 0x1021,
/// most significant bit first, no final xor.
pub open spec fn spec_crc16(data: Seq<u8>) -> u16
    decreases data.len(),
{
    if data.len() == 0 {
        0xFFFF
    } else {
        spec_crc_byte(spec_crc16(data.drop_last()), data.last())
    }
}

/// CRC-16/CCITT-FALSE, the checksum that ends each flash sector.
pub fn crc16(data: &[u8]) -> (r: u16)
    ensures
        r == spec_crc16(data@),
{
    let mut crc: u16 = 0xFFFF;
    let mut i: usize = 0;
    while i < data.len()
        invariant
            i <= data.len(),
            crc == spec_crc16(data@.take(i as int)),
        decreases data.len() - i,
    {
        let ghost start: u16 = crc ^ ((data@[i as int] as u16) << 8u16);
        crc = crc ^ ((data[i] as u16) << 8u16);
        let mut k: u32 = 0;
        while k < 8
            invariant
                k <= 8,
                crc == spec_crc_bits(start, k as nat),
            decreases 8 - k,
        {
            if crc & 0x8000 != 0 {
                crc = (crc << 1u16) ^ 0x1021u16;
            } else {
                crc = crc << 1u16;
            }
            k = k + 1;
        }
        proof {
            let t = data@.take(i + 1);
            assert(t.drop_last() =~= data@.take(i as int));
            assert(t.last() == data@[i as int]);
        }
        i = i + 1;
    }
    assert(data@.take(data.len() as int) =~= data@);
    crc
}

/// The little-endian 16-bit value of two bytes.
pub open spec fn spec_le16(lo: u8, hi: u8) -> u16 {
    crate::bytes::spec_be16(hi, lo)
}

/// An LED effect of a profile, stored in 11 bytes: an effect id and 10
/// parameter bytes.
#[derive(Debug, Clone, PartialEq, Eq)]
pub enum LedEffect {
    Disabled,
    Static { red: u8, green: u8, blue: u8, ramp: u8 },
    Pulse { red: u8, green: u8, blue: u8, speed: u8 },
    Cycle { period: u16, intensity: u8 },
    Boot,
    Demo,
    Breathe { red: u8, green: u8, blue: u8, period: u16, form: u8, intensity: u8 },
    Ripple { red: u8, green: u8, blue: u8, period: u16 },
    Decomposition { period: u16, intensity: u8 },
    Signature1 { period: u16, intensity: u8 },
    Signature2 { period: u16, intensity: u8 },
    CycleS { saturation: u8, period: u16, intensity: u8 },
    /// An effect id this library does not know, with its parameter bytes
    /// in lower case hexadecimal.
    Unknown { id: u8, raw: String },
}

/// Whether `e` is an effect this library knows (not `Unknown`).
pub open spec fn spec_led_known(e: LedEffect) -> bool {
    !(e is Unknown)
}

/// Whether `e` is the effect that the bytes `bytes` describe. Fewer than 11
/// bytes give `Unknown` with id 0xFF and all the bytes in hexadecimal; an
/// unknown id gives `Unknown` with the 10 bytes after the id.
pub open spec fn spec_led_from_bytes(bytes: Seq<u8>, e: LedEffect) -> bool {
    if bytes.len() < 11 {
        e matches LedEffect::Unknown { id, raw } && id == 0xFF && raw@
            == crate::text::spec_hex_bytes(bytes, false, seq![])
    } else {
        let id = bytes[0];
        let b = bytes.skip(1);
        if id == 0x00 {
            e == LedEffect::Disabled
        } else if id == 0x01 {
            e == LedEffect::Static { red: b[0], green: b[1], blue: b[2], ramp: b[3] }
        } else if id == 0x02 {
            e == LedEffect::Pulse { red: b[0], green: b[1], blue: b[2], speed: b[3] }
        } else if id == 0x03 {
            e == LedEffect::Cycle { period: spec_le16(b[5], b[6]), intensity: b[7] }
        } else if id == 0x08 {
            e == LedEffect::Boot
        } else if id == 0x09 {
            e == LedEffect::Demo
        } else if id == 0x0A {
            e == LedEffect::Breathe {
                red: b[0],
                green: b[1],
                blue: b[2],
                period: spec_le16(b[3], b[4]),
                form: b[5],
                intensity: b[6],
            }
        } else if id == 0x0B {
            e == LedEffect::Ripple { red: b[0], green: b[1], blue: b[2], period: spec_le16(b[4], b[5]) }
        } else if id == 0x0E {
            e == LedEffect::Decomposition { period: spec_le16(b[6], b[7]), intensity: b[8] }
        } else if id == 0x0F {
            e == LedEffect::Signature1 { period: spec_le16(b[5], b[6]), intensity: b[7] }
        } else if id == 0x10 {
            e == LedEffect::Signature2 { period: spec_le16(b[5], b[6]), intensity: b[7] }
        } else if id == 0x15 {
            e == LedEffect::CycleS {
                saturation: b[1],
                period: spec_le16(b[6], b[7]),
                intensity: b[8],
            }
        } else {
            e matches LedEffect::Unknown { id: i, raw } && i == id && raw@
                == crate::text::spec_hex_bytes(b, false, seq![])
        }
    }
}

/// `n` bytes of value `b`.
pub open spec fn spec_fill(b: u8, n: nat) -> Seq<u8> {
    Seq::new(n, |_i: int| b)
}

/// The parameter bytes an `Unknown` effect stores: its hexadecimal text
/// decoded (ten 0xFF bytes when it is not hexadecimal), cut to 10 bytes and
/// padded with 0xFF.
pub open spec fn spec_unknown_params(raw: Seq<char>) -> Seq<u8> {
    let decoded = match crate::hexcodec::spec_hex_decode(raw) {
        Some(d) => d,
        None => spec_fill(0xFF, 10),
    };
    let kept = if decoded.len() < 10 {
        decoded
    } else {
        decoded.take(10)
    };
    kept + spec_fill(0xFF, (10 - kept.len()) as nat)
}

/// The 11 bytes that store `e`.
pub open spec fn spec_led_to_bytes(e: LedEffect) -> Seq<u8> {
    match e {
        LedEffect::Disabled => spec_fill(0, 11),
        LedEffect::Static { red, green, blue, ramp } => seq![1u8, red, green, blue, ramp]
            + spec_fill(0, 6),
        LedEffect::Pulse { red, green, blue, speed } => seq![2u8, red, green, blue, speed]
            + spec_fill(0, 6),
        LedEffect::Cycle { period, intensity } => seq![3u8] + spec_fill(0, 5) + seq![
            crate::bytes::spec_lo(period),
            crate::bytes::spec_hi(period),
            intensity,
            0u8,
            0u8,
        ],
        LedEffect::Boot => seq![8u8] + spec_fill(0, 10),
        LedEffect::Demo => seq![9u8] + spec_fill(0, 10),
        LedEffect::Breathe { red, green, blue, period, form, intensity } => seq![
            0x0Au8,
            red,
            green,
            blue,
            crate::bytes::spec_lo(period),
            crate::bytes::spec_hi(period),
            form,
            intensity,
            0u8,
            0u8,
            0u8,
        ],
        LedEffect::Ripple { red, green, blue, period } => seq![
            0x0Bu8,
            red,
            green,
            blue,
            0u8,
            crate::bytes::spec_lo(period),
            crate::bytes::spec_hi(period),
            0u8,
            0u8,
            0u8,
            0u8,
        ],
        LedEffect::Decomposition { period, intensity } => seq![0x0Eu8] + spec_fill(0, 6) + seq![
            crate::bytes::spec_lo(period),
            crate::bytes::spec_hi(period),
            intensity,
            0u8,
        ],
        LedEffect::Signature1 { period, intensity } => seq![0x0Fu8] + spec_fill(0, 5) + seq![
            crate::bytes::spec_lo(period),
            crate::bytes::spec_hi(period),
            intensity,
            0u8,
            0u8,
        ],
        LedEffect::Signature2 { period, intensity } => seq![0x10u8] + spec_fill(0, 5) + seq![
            crate::bytes::spec_lo(period),
            crate::bytes::spec_hi(period),
            intensity,
            0u8,
            0u8,
        ],
        LedEffect::CycleS { saturation, period, intensity } => seq![0x15u8, 0u8, saturation]
            + spec_fill(0, 4) + seq![
            crate::bytes::spec_lo(period),
            crate::bytes::spec_hi(period),
            intensity,
            0u8,
        ],
        LedEffect::Unknown { id, raw } => seq![id] + spec_unknown_params(raw@),
    }
}

/// The little-endian 16-bit value of two bytes.
fn le16(lo: u8, hi: u8) -> (r: u16)
    ensures
        r == spec_le16(lo, hi),
{
    be16(hi, lo)
}

/// `id` followed by the 10 parameter bytes `params`.
fn led_frame(id: u8, params: &[u8]) -> (r: Vec<u8>)
    requires
        params@.len() == 10,
    ensures
        r@ == seq![id] + params@,
        r@.len() == 11,
{
    let mut out: Vec<u8> = Vec::new();
    out.push(id);
    append_bytes(&mut out, params);
    assert(out@ =~= seq![id] + params@);
    out
}

impl LedEffect {
    /// Parse the 11 bytes of an LED effect.
    pub fn from_bytes(bytes: &[u8]) -> (r: Self)
        ensures
            spec_led_from_bytes(bytes@, r),
    {
        if bytes.len() < 11 {
            return LedEffect::Unknown { id: 0xFF, raw: encode_lower(bytes) };
        }
        let id: u8 = bytes[0];
        let ghost b = bytes@.skip(1);
        assert(forall|i: int| 0 <= i < 10 ==> b[i] == bytes@[i + 1]);
        match id {
            0x00 => LedEffect::Disabled,
            0x01 => LedEffect::Static { red: bytes[1], green: bytes[2], blue: bytes[3], ramp: bytes[4] },
            0x02 => LedEffect::Pulse { red: bytes[1], green: bytes[2], blue: bytes[3], speed: bytes[4] },
            0x03 => LedEffect::Cycle { period: le16(bytes[6], bytes[7]), intensity: bytes[8] },
            0x08 => LedEffect::Boot,
            0x09 => LedEffect::Demo,
            0x0A => LedEffect::Breathe {
                red: bytes[1],
                green: bytes[2],
                blue: bytes[3],
                period: le16(bytes[4], bytes[5]),
                form: bytes[6],
                intensity: bytes[7],
            },
            0x0B => LedEffect::Ripple {
                red: bytes[1],
                green: bytes[2],
                blue: bytes[3],
                period: le16(bytes[5], bytes[6]),
            },
            0x0E => LedEffect::Decomposition { period: le16(bytes[7], bytes[8]), intensity: bytes[9] },
            0x0F => LedEffect::Signature1 { period: le16(bytes[6], bytes[7]), intensity: bytes[8] },
            0x10 => LedEffect::Signature2 { period: le16(bytes[6], bytes[7]), intensity: bytes[8] },
            0x15 => LedEffect::CycleS {
                saturation: bytes[2],
                period: le16(bytes[7], bytes[8]),
                intensity: bytes[9],
            },
            _ => {
                let rest = copy_range(bytes, 1, bytes.len());
                assert(rest@ =~= b);
                LedEffect::Unknown { id, raw: encode_lower(rest.as_slice()) }
            },
        }
    }

    /// The 11 bytes that store this effect.
    pub fn to_bytes(&self) -> (r: Vec<u8>)
        ensures
            r@ == spec_led_to_bytes(*self),
            r@.len() == 11,
    {
        let r = match self {
            LedEffect::Disabled => {
                let mut out: Vec<u8> = Vec::new();
                append_fill(&mut out, 0, 11);
                out
            },
            LedEffect::Static { red, green, blue, ramp } => {
                let p = [*red, *green, *blue, *ramp, 0u8, 0u8, 0u8, 0u8, 0u8, 0u8];
                led_frame(1, &p)
            },
            LedEffect::Pulse { red, green, blue, speed } => {
                let p = [*red, *green, *blue, *speed, 0u8, 0u8, 0u8, 0u8, 0u8, 0u8];
                led_frame(2, &p)
            },
            LedEffect::Cycle { period, intensity } => {
                let p = [0u8, 0u8, 0u8, 0u8, 0u8, lo(*period), hi(*period), *intensity, 0u8, 0u8];
                led_frame(3, &p)
            },
            LedEffect::Boot => {
                let p = [0u8; 10];
                led_frame(8, &p)
            },
            LedEffect::Demo => {
                let p = [0u8; 10];
                led_frame(9, &p)
            },
            LedEffect::Breathe { red, green, blue, period, form, intensity } => {
                let p = [
                    *red,
                    *green,
                    *blue,
                    lo(*period),
                    hi(*period),
                    *form,
                    *intensity,
                    0u8,
                    0u8,
                    0u8,
                ];
                led_frame(0x0A, &p)
            },
            LedEffect::Ripple { red, green, blue, period } => {
                let p = [*red, *green, *blue, 0u8, lo(*period), hi(*period), 0u8, 0u8, 0u8, 0u8];
                led_frame(0x0B, &p)
            },
            LedEffect::Decomposition { period, intensity } => {
                let p = [0u8, 0u8, 0u8, 0u8, 0u8, 0u8, lo(*period), hi(*period), *intensity, 0u8];
                led_frame(0x0E, &p)
            },
            LedEffect::Signature1 { period, intensity } => {
                let p = [0u8, 0u8, 0u8, 0u8, 0u8, lo(*period), hi(*period), *intensity, 0u8, 0u8];
                led_frame(0x0F, &p)
            },
            LedEffect::Signature2 { period, intensity } => {
                let p = [0u8, 0u8, 0u8, 0u8, 0u8, lo(*period), hi(*period), *intensity, 0u8, 0u8];
                led_frame(0x10, &p)
            },
            LedEffect::CycleS { saturation, period, intensity } => {
                let p = [0u8, *saturation, 0u8, 0u8, 0u8, 0u8, lo(*period), hi(*period), *intensity, 0u8];
                led_frame(0x15, &p)
            },
            LedEffect::Unknown { id, raw } => {
                let decoded: Vec<u8> = match decode(raw.as_str()) {
                    Some(d) => d,
                    None => {
                        let mut f: Vec<u8> = Vec::new();
                        append_fill(&mut f, 0xFF, 10);
                        f
                    },
                };
                let n: usize = if decoded.len() < 10 {
                    decoded.len()
                } else {
                    10
                };
                let mut out: Vec<u8> = Vec::new();
                out.push(*id);
                let kept = copy_range(decoded.as_slice(), 0, n);
                append_bytes(&mut out, kept.as_slice());
                append_fill(&mut out, 0xFF, 10 - n);
                proof {
                    let raw_v = raw@;
                    let dv = match crate::hexcodec::spec_hex_decode(raw_v) {
                        Some(d) => d,
                        None => spec_fill(0xFF, 10),
                    };
                    assert(decoded@ =~= dv);
                    if dv.len() >= 10 {
                        assert(kept@ =~= dv.take(10));
                    } else {
                        assert(kept@ =~= dv);
                    }
                    assert(out@ =~= seq![*id] + spec_unknown_params(raw_v));
                }
                out
            },
        };
        proof {
            match self {
                LedEffect::Disabled => assert(r@ =~= spec_fill(0, 11)),
                _ => {},
            }
            assert(r@ =~= spec_led_to_bytes(*self));
        }
        r
    }
}

/// Every effect this library knows reads back from its 11 bytes as itself.
pub proof fn lemma_led_roundtrip(e: LedEffect)
    requires
        spec_led_known(e),
    ensures
        spec_led_to_bytes(e).len() == 11,
        spec_led_from_bytes(spec_led_to_bytes(e), e),
{
    let bytes = spec_led_to_bytes(e);
    match e {
        LedEffect::Cycle { period, .. } => crate::bytes::lemma_be16_split(period),
        LedEffect::Breathe { period, .. } => crate::bytes::lemma_be16_split(period),
        LedEffect::Ripple { period, .. } => crate::bytes::lemma_be16_split(period),
        LedEffect::Decomposition { period, .. } => crate::bytes::lemma_be16_split(period),
        LedEffect::Signature1 { period, .. } => crate::bytes::lemma_be16_split(period),
        LedEffect::Signature2 { period, .. } => crate::bytes::lemma_be16_split(period),
        LedEffect::CycleS { period, .. } => crate::bytes::lemma_be16_split(period),
        _ => {},
    }
    assert(bytes.len() == 11);
    let b = bytes.skip(1);
    assert(forall|i: int| 0 <= i < 10 ==> b[i] == bytes[i + 1]);
}

/// Eleven bytes with an effect id this library does not know are stored
/// losslessly: the `Unknown` effect they read as gives them back.
pub proof fn lemma_led_unknown_lossless(bytes: Seq<u8>, e: LedEffect)
    requires
        bytes.len() == 11,
        spec_led_from_bytes(bytes, e),
        !spec_led_known(e),
    ensures
        spec_led_to_bytes(e) == bytes,
{
    let rest = bytes.skip(1);
    crate::hexcodec::lemma_hex_roundtrip(rest, false);
    match e {
        LedEffect::Unknown { id, raw } => {
            assert(rest.take(10) =~= rest);
            assert(spec_unknown_params(raw@) =~= rest);
            assert(seq![id] + rest =~= bytes);
        },
        _ => {},
    }
}

/// The mapping of a profile button, stored in 4 bytes: the behaviour in
/// the high nibble of the first byte, then its parameters.
#[derive(Debug, Clone, PartialEq, Eq)]
pub enum Button {
    /// Run the macro at `address` of `sector`.
    Macro { sector: u16, address: u16 },
    /// Stop the macro at `address` of `sector`.
    MacroStop { sector: u16, address: u16 },
    /// Send a HID event: `mapping_type` 0 is no action, 1 a mouse button,
    /// 2 a modifier and key, 3 a consumer key; `value` is the code.
    Send { mapping_type: u8, modifiers: Option<u8>, value: u32 },
    /// A device function (DPI, profile switch, ...).
    Function { function: u8, data: u8 },
    /// A mapping this library does not know, its bytes in lower case
    /// hexadecimal so that it is written back unchanged.
    Unknown { raw: String },
    /// Disabled: no mapping.
    Disabled,
}

/// Whether `btn` is the mapping the bytes `bytes` describe. Fewer than 4
/// bytes, or a behaviour or mapping type this library does not know, give
/// `Unknown` with all the bytes in hexadecimal; four 0xFF bytes give
/// `Disabled`.
pub open spec fn spec_button_from_bytes(bytes: Seq<u8>, btn: Button) -> bool {
    let unknown = (btn matches Button::Unknown { raw } && raw@ == crate::text::spec_hex_bytes(
        bytes,
        false,
        seq![],
    ));
    if bytes.len() < 4 {
        unknown
    } else if bytes == spec_fill(0xFF, 4) {
        btn == Button::Disabled
    } else {
        let behavior = bytes[0] / 16;
        if behavior == 0 || behavior == 1 {
            let sector = ((bytes[0] % 16) as int * 256 + bytes[1]) as u16;
            let address = crate::bytes::spec_be16(bytes[2], bytes[3]);
            if behavior == 0 {
                btn == Button::Macro { sector, address }
            } else {
                btn == Button::MacroStop { sector, address }
            }
        } else if behavior == 8 {
            let mapping_type = bytes[1];
            if mapping_type == 0 {
                btn == Button::Send { mapping_type: 0, modifiers: None, value: 0 }
            } else if mapping_type == 1 || mapping_type == 3 {
                btn == Button::Send {
                    mapping_type,
                    modifiers: None,
                    value: (bytes[2] as int * 256 + bytes[3]) as u32,
                }
            } else if mapping_type == 2 {
                btn == Button::Send { mapping_type, modifiers: Some(bytes[2]), value: bytes[3] as u32 }
            } else {
                unknown
            }
        } else if behavior == 9 {
            btn == Button::Function { function: bytes[1], data: bytes[3] }
        } else {
            unknown
        }
    }
}

/// The 4 bytes of an `Unknown` mapping: its hexadecimal text decoded (four
/// 0xFF bytes when it is not hexadecimal), cut or padded with 0xFF to 4.
pub open spec fn spec_unknown_button(raw: Seq<char>) -> Seq<u8> {
    let decoded = match crate::hexcodec::spec_hex_decode(raw) {
        Some(d) => d,
        None => spec_fill(0xFF, 4),
    };
    if decoded.len() >= 4 {
        decoded.take(4)
    } else {
        decoded + spec_fill(0xFF, (4 - decoded.len()) as nat)
    }
}

/// The 4 bytes that store `btn`. A `Send` with a mapping type this library
/// does not know is stored as four 0xFF bytes.
pub open spec fn spec_button_to_bytes(btn: Button) -> Seq<u8> {
    match btn {
        Button::Disabled => spec_fill(0xFF, 4),
        Button::Macro { sector, address } => seq![
            crate::bytes::spec_hi(sector) % 16,
            crate::bytes::spec_lo(sector),
            crate::bytes::spec_hi(address),
            crate::bytes::spec_lo(address),
        ],
        Button::MacroStop { sector, address } => seq![
            (0x10 + crate::bytes::spec_hi(sector) % 16) as u8,
            crate::bytes::spec_lo(sector),
            crate::bytes::spec_hi(address),
            crate::bytes::spec_lo(address),
        ],
        Button::Send { mapping_type, modifiers, value } => if mapping_type == 0 {
            seq![0x80u8, 0u8, 0xFFu8, 0xFFu8]
        } else if mapping_type == 1 || mapping_type == 3 {
            seq![0x80u8, mapping_type, ((value / 256) % 256) as u8, (value % 256) as u8]
        } else if mapping_type == 2 {
            seq![
                0x80u8,
                mapping_type,
                match modifiers {
                    Some(m) => m,
                    None => 0u8,
                },
                (value % 256) as u8,
            ]
        } else {
            spec_fill(0xFF, 4)
        },
        Button::Function { function, data } => seq![0x90u8, function, 0xFFu8, data],
        Button::Unknown { raw } => spec_unknown_button(raw@),
    }
}

/// Whether `btn` is a mapping that its 4 bytes describe exactly: sectors fit
/// in 12 bits, and a `Send` has a known mapping type with the fields that
/// type stores.
pub open spec fn spec_button_encodable(btn: Button) -> bool {
    match btn {
        Button::Macro { sector, .. } => sector < 0x1000,
        Button::MacroStop { sector, .. } => sector < 0x1000,
        Button::Send { mapping_type, modifiers, value } => (mapping_type == 0 && modifiers is None
            && value == 0) || ((mapping_type == 1 || mapping_type == 3) && modifiers is None && value
            <= 0xFFFF) || (mapping_type == 2 && modifiers is Some && value <= 0xFF),
        Button::Function { .. } => true,
        Button::Disabled => true,
        Button::Unknown { .. } => false,
    }
}

/// Four bytes `a b c d`.
fn four(a: u8, b: u8, c: u8, d: u8) -> (r: Vec<u8>)
    ensures
        r@ == seq![a, b, c, d],
{
    let mut v: Vec<u8> = Vec::new();
    v.push(a);
    v.push(b);
    v.push(c);
    v.push(d);
    assert(v@ =~= seq![a, b, c, d]);
    v
}

impl Button {
    /// Parse the 4 bytes of a button mapping.
    pub fn from_bytes(bytes: &[u8]) -> (r: Self)
        ensures
            spec_button_from_bytes(bytes@, r),
    {
        if bytes.len() < 4 {
            return Button::Unknown { raw: encode_lower(bytes) };
        }
        if bytes.len() == 4 && bytes[0] == 0xFF && bytes[1] == 0xFF && bytes[2] == 0xFF && bytes[3]
            == 0xFF {
            assert(bytes@ =~= spec_fill(0xFF, 4));
            return Button::Disabled;
        }
        assert(bytes@ != spec_fill(0xFF, 4)) by {
            if bytes@ == spec_fill(0xFF, 4) {
                assert(bytes@[0] == 0xFF && bytes@[1] == 0xFF && bytes@[2] == 0xFF && bytes@[3]
                    == 0xFF);
            }
        }
        let behavior: u8 = bytes[0] / 16;
        if behavior == 0 || behavior == 1 {
            let sector: u16 = ((bytes[0] % 16) as u16) * 256 + bytes[1] as u16;
            let address: u16 = be16(bytes[2], bytes[3]);
            if behavior == 0 {
                Button::Macro { sector, address }
            } else {
                Button::MacroStop { sector, address }
            }
        } else if behavior == 8 {
            let mapping_type: u8 = bytes[1];
            if mapping_type == 0 {
                Button::Send { mapping_type: 0, modifiers: None, value: 0 }
            } else if mapping_type == 1 || mapping_type == 3 {
                let value: u32 = (bytes[2] as u32) * 256 + bytes[3] as u32;
                Button::Send { mapping_type, modifiers: None, value }
            } else if mapping_type == 2 {
                Button::Send { mapping_type, modifiers: Some(bytes[2]), value: bytes[3] as u32 }
            } else {
                Button::Unknown { raw: encode_lower(bytes) }
            }
        } else if behavior == 9 {
            Button::Function { function: bytes[1], data: bytes[3] }
        } else {
            Button::Unknown { raw: encode_lower(bytes) }
        }
    }

    /// The 4 bytes that store this mapping.
    pub fn to_bytes(&self) -> (r: Vec<u8>)
        ensures
            r@ == spec_button_to_bytes(*self),
            r@.len() == 4,
    {
        match self {
            Button::Disabled => {
                let v = four(0xFF, 0xFF, 0xFF, 0xFF);
                assert(v@ =~= spec_fill(0xFF, 4));
                v
            },
            Button::Macro { sector, address } => four(
                hi(*sector) % 16,
                lo(*sector),
                hi(*address),
                lo(*address),
            ),
            Button::MacroStop { sector, address } => four(
                0x10 + hi(*sector) % 16,
                lo(*sector),
                hi(*address),
                lo(*address),
            ),
            Button::Send { mapping_type, modifiers, value } => {
                if *mapping_type == 0 {
                    four(0x80, 0, 0xFF, 0xFF)
                } else if *mapping_type == 1 || *mapping_type == 3 {
                    four(0x80, *mapping_type, ((*value / 256) % 256) as u8, (*value % 256) as u8)
                } else if *mapping_type == 2 {
                    let m: u8 = match modifiers {
                        Some(m) => *m,
                        None => 0,
                    };
                    four(0x80, *mapping_type, m, (*value % 256) as u8)
                } else {
                    let v = four(0xFF, 0xFF, 0xFF, 0xFF);
                    assert(v@ =~= spec_fill(0xFF, 4));
                    v
                }
            },
            Button::Function { function, data } => four(0x90, *function, 0xFF, *data),
            Button::Unknown { raw } => {
                let decoded: Vec<u8> = match decode(raw.as_str()) {
                    Some(d) => d,
                    None => four(0xFF, 0xFF, 0xFF, 0xFF),
                };
                let ghost dv = match crate::hexcodec::spec_hex_decode(raw@) {
                    Some(d) => d,
                    None => spec_fill(0xFF, 4),
                };
                assert(decoded@ =~= dv);
                if decoded.len() >= 4 {
                    let out = copy_range(decoded.as_slice(), 0, 4);
                    assert(out@ =~= dv.take(4));
                    out
                } else {
                    let mut out = decoded;
                    let n: usize = 4 - out.len();
                    append_fill(&mut out, 0xFF, n);
                    out
                }
            },
        }
    }
}

/// A mapping that its 4 bytes describe exactly reads back from them as
/// itself.
pub proof fn lemma_button_roundtrip(btn: Button)
    requires
        spec_button_encodable(btn),
    ensures
        spec_button_to_bytes(btn).len() == 4,
        spec_button_from_bytes(spec_button_to_bytes(btn), btn),
{
    let bytes = spec_button_to_bytes(btn);
    match btn {
        Button::Macro { sector, address } => {
            crate::bytes::lemma_be16_split(sector);
            crate::bytes::lemma_be16_split(address);
            assert(bytes[0] != 0xFF);
        },
        Button::MacroStop { sector, address } => {
            crate::bytes::lemma_be16_split(sector);
            crate::bytes::lemma_be16_split(address);
            assert(bytes[0] != 0xFF);
        },
        Button::Disabled => {
            assert(bytes =~= spec_fill(0xFF, 4));
        },
        _ => {
            assert(bytes[0] != 0xFF);
        },
    }
}

/// Four bytes that read as an `Unknown` mapping are stored losslessly: the
/// mapping gives them back.
pub proof fn lemma_button_unknown_lossless(bytes: Seq<u8>, btn: Button)
    requires
        bytes.len() == 4,
        spec_button_from_bytes(bytes, btn),
        btn is Unknown,
    ensures
        spec_button_to_bytes(btn) == bytes,
{
    crate::hexcodec::lemma_hex_roundtrip(bytes, false);
    assert(bytes.take(4) =~= bytes);
}

/// The text that UTF-16 code units encode: a unit outside the surrogate
/// range 0xD800-0xDFFF is the character of that value; a high surrogate
/// (0xD800-0xDBFF) followed by a low one (0xDC00-0xDFFF) is the character
/// 0x10000 + (high - 0xD800) * 1024 + (low - 0xDC00); any other surrogate
/// unit is replaced by U+FFFD.
pub open spec fn utf16_lossy(units: Seq<u16>) -> Seq<char>
    decreases units.len(),
{
    if units.len() == 0 {
        seq![]
    } else {
        let u = units[0];
        if u < 0xD800 || u >= 0xE000 {
            seq![u as char] + utf16_lossy(units.skip(1))
        } else if u < 0xDC00 && units.len() >= 2 && 0xDC00 <= units[1] < 0xE000 {
            seq![(0x10000 + (u - 0xD800) * 1024 + (units[1] - 0xDC00)) as char] + utf16_lossy(
                units.skip(2),
            )
        } else {
            seq!['\u{FFFD}'] + utf16_lossy(units.skip(1))
        }
    }
}

/// Units with no surrogate decode to the characters of their values.
pub proof fn lemma_utf16_plain(units: Seq<u16>)
    requires
        forall|i: int| 0 <= i < units.len() ==> !(0xD800 <= #[trigger] units[i] < 0xE000),
    ensures
        utf16_lossy(units) == Seq::new(units.len(), |i: int| units[i] as char),
    decreases units.len(),
{
    if units.len() > 0 {
        let rest = units.skip(1);
        assert forall|i: int| 0 <= i < rest.len() implies !(0xD800 <= #[trigger] rest[i] < 0xE000) by {
            assert(rest[i] == units[i + 1]);
        }
        lemma_utf16_plain(rest);
        assert(utf16_lossy(units) =~= Seq::new(units.len(), |i: int| units[i] as char));
    }
}

/// The text that UTF-16 code units encode.
///
/// Trusted: calls `String::from_utf16_lossy`, which std documents as
/// decoding UTF-16 and replacing invalid data (each unpaired surrogate)
/// with U+FFFD.
#[verifier::external_body]
fn lossy_utf16(units: &[u16]) -> (r: String)
    ensures
        r@ == utf16_lossy(units@),
{
    String::from_utf16_lossy(units)
}

/// The little-endian 16-bit units of `bytes`, two bytes each, up to the
/// first 0x0000 or 0xFFFF unit; a last odd byte is ignored.
pub open spec fn spec_units_until_end(bytes: Seq<u8>) -> Seq<u16>
    decreases bytes.len(),
{
    if bytes.len() < 2 {
        seq![]
    } else {
        let u = spec_le16(bytes[0], bytes[1]);
        if u == 0 || u == 0xFFFF {
            seq![]
        } else {
            seq![u] + spec_units_until_end(bytes.skip(2))
        }
    }
}

/// The text of a UTF-16LE name field, up to the first null or 0xFFFF unit.
pub open spec fn spec_decode_utf16le_null(bytes: Seq<u8>) -> Seq<char> {
    utf16_lossy(spec_units_until_end(bytes))
}

/// Decode a UTF-16LE name field, stopping at the first null or 0xFFFF unit.
pub fn decode_utf16le_null(bytes: &[u8]) -> (r: String)
    ensures
        r@ == spec_decode_utf16le_null(bytes@),
        ({
            let units = spec_units_until_end(bytes@);
            (forall|i: int| 0 <= i < units.len() ==> !(0xD800 <= #[trigger] units[i] < 0xE000)) ==> r@
                == Seq::new(units.len(), |i: int| units[i] as char)
        }),
{
    let mut units: Vec<u16> = Vec::new();
    let mut i: usize = 0;
    assert(bytes@.skip(0) =~= bytes@);
    assert(units@ + spec_units_until_end(bytes@) =~= spec_units_until_end(bytes@));
    while i + 1 < bytes.len()
        invariant
            i <= bytes.len(),
            i % 2 == 0,
            units@ + spec_units_until_end(bytes@.skip(i as int)) == spec_units_until_end(bytes@),
        decreases bytes.len() - i,
    {
        let u: u16 = le16(bytes[i], bytes[i + 1]);
        let ghost rest = bytes@.skip(i as int);
        assert(rest[0] == bytes@[i as int] && rest[1] == bytes@[i + 1]);
        if u == 0 || u == 0xFFFF {
            assert(spec_units_until_end(rest) =~= Seq::<u16>::empty());
            assert(units@ + Seq::<u16>::empty() =~= units@);
            let r = lossy_utf16(units.as_slice());
            proof {
                if forall|k: int| 0 <= k < units@.len() ==> !(0xD800 <= #[trigger] units@[k] < 0xE000) {
                    lemma_utf16_plain(units@);
                }
            }
            return r;
        }
        assert(rest.skip(2) =~= bytes@.skip(i + 2));
        units.push(u);
        i = i + 2;
        assert(units@ + spec_units_until_end(bytes@.skip(i as int)) =~= spec_units_until_end(
            bytes@,
        ));
    }
    assert(spec_units_until_end(bytes@.skip(i as int)) =~= Seq::<u16>::empty());
    assert(units@ + Seq::<u16>::empty() =~= units@);
    let r = lossy_utf16(units.as_slice());
    proof {
        if forall|k: int| 0 <= k < units@.len() ==> !(0xD800 <= #[trigger] units@[k] < 0xE000) {
            lemma_utf16_plain(units@);
        }
    }
    r
}

/// A single onboard profile stored on the device.
#[derive(Debug, Clone)]
pub struct OnboardProfile {
    /// Flash sector index where this profile lives.
    pub sector: u16,
    /// Whether this profile is enabled (1) or disabled (0).
    pub enabled: u8,
    /// Report rate in milliseconds (1 = 1000 Hz, 4 = 250 Hz, ...).
    pub report_rate: u8,
    pub resolution_default_index: u8,
    pub resolution_shift_index: u8,
    /// DPI resolution presets (5), little-endian 16-bit each.
    pub resolutions: Vec<u16>,
    pub red: u8,
    pub green: u8,
    pub blue: u8,
    pub power_mode: u8,
    pub angle_snap: u8,
    pub write_count: u16,
    pub ps_timeout: u16,
    pub po_timeout: u16,
    pub buttons: Vec<Button>,
    pub gbuttons: Vec<Button>,
    pub name: String,
    pub lighting: Vec<LedEffect>,
}

/// The 16-bit little-endian value at `at` of `data`.
pub open spec fn spec_le16_at(data: Seq<u8>, at: int) -> u16 {
    spec_le16(data[at], data[at + 1])
}

/// The `n` button mappings stored from `start` of `data`, 4 bytes each.
pub open spec fn spec_buttons_at(data: Seq<u8>, start: int, n: nat, btns: Seq<Button>) -> bool {
    &&& btns.len() == n
    &&& forall|i: int|
        0 <= i < n ==> spec_button_from_bytes(
            data.subrange(start + 4 * i, start + 4 * i + 4),
            #[trigger] btns[i],
        )
}

/// Whether `p` is the profile that the sector bytes `data` describe, with
/// `buttons` buttons and `gbuttons` G-buttons: report rate, resolution
/// indices, five resolutions from byte 3, colour, power mode, angle snap,
/// write count, timeouts, buttons from byte 32, G-buttons from byte 96, the
/// name from bytes 160-208 and four LED effects from byte 208.
pub open spec fn spec_profile_from_bytes(
    sector: u16,
    enabled: u8,
    buttons: nat,
    gbuttons: nat,
    data: Seq<u8>,
    p: OnboardProfile,
) -> bool {
    &&& p.sector == sector
    &&& p.enabled == enabled
    &&& p.report_rate == data[0]
    &&& p.resolution_default_index == data[1]
    &&& p.resolution_shift_index == data[2]
    &&& p.resolutions@ == Seq::new(5, |i: int| spec_le16_at(data, 3 + 2 * i))
    &&& p.red == data[13]
    &&& p.green == data[14]
    &&& p.blue == data[15]
    &&& p.power_mode == data[16]
    &&& p.angle_snap == data[17]
    &&& p.write_count == spec_le16_at(data, 18)
    &&& p.ps_timeout == spec_le16_at(data, 28)
    &&& p.po_timeout == spec_le16_at(data, 30)
    &&& spec_buttons_at(data, 32, buttons, p.buttons@)
    &&& spec_buttons_at(data, 96, gbuttons, p.gbuttons@)
    &&& p.name@ == spec_decode_utf16le_null(data.subrange(160, 208))
    &&& p.lighting@.len() == 4
    &&& forall|i: int|
        0 <= i < 4 ==> spec_led_from_bytes(
            data.subrange(208 + 11 * i, 219 + 11 * i),
            #[trigger] p.lighting@[i],
        )
}

/// The `n` button mappings stored from `start` of `data`.
fn buttons_at(data: &[u8], start: usize, n: usize) -> (r: Vec<Button>)
    requires
        start + 4 * n <= data@.len(),
    ensures
        spec_buttons_at(data@, start as int, n as nat, r@),
{
    let mut r: Vec<Button> = Vec::new();
    let mut i: usize = 0;
    while i < n
        invariant
            i <= n,
            start + 4 * n <= data@.len(),
            data@.len() == data.len(),
            spec_buttons_at(data@, start as int, i as nat, r@),
        decreases n - i,
    {
        assert(start + 4 * i + 4 <= start + 4 * n);
        let at: usize = start + 4 * i;
        let piece = copy_range(data, at, at + 4);
        let b = Button::from_bytes(piece.as_slice());
        r.push(b);
        i = i + 1;
    }
    r
}

impl OnboardProfile {
    /// Parse the sector bytes of a profile with `buttons` buttons and
    /// `gbuttons` G-buttons.
    pub fn from_bytes(sector: u16, enabled: u8, buttons: usize, gbuttons: usize, data: &[u8]) -> (r:
        Self)
        requires
            data@.len() >= 252,
            32 + 4 * buttons <= data@.len(),
            96 + 4 * gbuttons <= data@.len(),
        ensures
            spec_profile_from_bytes(sector, enabled, buttons as nat, gbuttons as nat, data@, r),
    {
        let mut resolutions: Vec<u16> = Vec::new();
        let mut i: usize = 0;
        while i < 5
            invariant
                i <= 5,
                data@.len() >= 252,
                resolutions@ == Seq::new(i as nat, |k: int| spec_le16_at(data@, 3 + 2 * k)),
            decreases 5 - i,
        {
            resolutions.push(le16(data[3 + 2 * i], data[4 + 2 * i]));
            i = i + 1;
            assert(resolutions@ =~= Seq::new(i as nat, |k: int| spec_le16_at(data@, 3 + 2 * k)));
        }
        let btn_list = buttons_at(data, 32, buttons);
        let gbtn_list = buttons_at(data, 96, gbuttons);
        let name_bytes = copy_range(data, 160, 208);
        let name = decode_utf16le_null(name_bytes.as_slice());
        let mut lighting: Vec<LedEffect> = Vec::new();
        let mut j: usize = 0;
        while j < 4
            invariant
                j <= 4,
                data@.len() >= 252,
                lighting@.len() == j,
                forall|k: int|
                    0 <= k < j ==> spec_led_from_bytes(
                        data@.subrange(208 + 11 * k, 219 + 11 * k),
                        #[trigger] lighting@[k],
                    ),
            decreases 4 - j,
        {
            let piece = copy_range(data, 208 + 11 * j, 219 + 11 * j);
            lighting.push(LedEffect::from_bytes(piece.as_slice()));
            j = j + 1;
        }
        OnboardProfile {
            sector,
            enabled,
            report_rate: data[0],
            resolution_default_index: data[1],
            resolution_shift_index: data[2],
            resolutions,
            red: data[13],
            green: data[14],
            blue: data[15],
            power_mode: data[16],
            angle_snap: data[17],
            write_count: le16(data[18], data[19]),
            ps_timeout: le16(data[28], data[29]),
            po_timeout: le16(data[30], data[31]),
            buttons: btn_list,
            gbuttons: gbtn_list,
            name,
            lighting,
        }
    }
}

/// The little-endian bytes of 16-bit values, two bytes each.
pub open spec fn spec_le_u16s(vs: Seq<u16>) -> Seq<u8>
    decreases vs.len(),
{
    if vs.len() == 0 {
        seq![]
    } else {
        spec_le_u16s(vs.drop_last()) + seq![crate::bytes::spec_lo(vs.last()), crate::bytes::spec_hi(vs.last())]
    }
}

/// The first `k` button slots of a sector: the bytes of each mapping, four
/// 0xFF bytes for a slot past the end of `btns`.
pub open spec fn spec_button_slots(btns: Seq<Button>, k: nat) -> Seq<u8>
    decreases k,
{
    if k == 0 {
        seq![]
    } else {
        spec_button_slots(btns, (k - 1) as nat) + if k - 1 < btns.len() {
            spec_button_to_bytes(btns[k - 1])
        } else {
            spec_fill(0xFF, 4)
        }
    }
}

/// The first `k` LED slots of a sector: the bytes of each effect, eleven
/// 0xFF bytes for a slot past the end of `leds`.
pub open spec fn spec_led_slots(leds: Seq<LedEffect>, k: nat) -> Seq<u8>
    decreases k,
{
    if k == 0 {
        seq![]
    } else {
        spec_led_slots(leds, (k - 1) as nat) + if k - 1 < leds.len() {
            spec_led_to_bytes(leds[k - 1])
        } else {
            spec_fill(0xFF, 11)
        }
    }
}

/// The first UTF-16 code unit of a character: the character itself in the
/// basic plane, its high surrogate above.
pub open spec fn spec_utf16_first(c: char) -> u16 {
    let v = c as u32;
    if v <= 0xFFFF {
        v as u16
    } else {
        (0xD800 + (v - 0x10000) / 1024) as u16
    }
}

/// The 48-byte name field of a sector: the first unit of each of the first
/// 24 characters, little-endian, padded with zero bytes; 0xFF bytes for an
/// empty name.
pub open spec fn spec_name_field(name: Seq<char>) -> Seq<u8> {
    if name.len() == 0 {
        spec_fill(0xFF, 48)
    } else {
        let kept = if name.len() < 24 {
            name
        } else {
            name.take(24)
        };
        let enc = spec_le_u16s(kept.map_values(|c: char| spec_utf16_first(c)));
        enc + spec_fill(0, (48 - enc.len()) as nat)
    }
}

/// The bytes of a profile before the padding and checksum: report rate,
/// resolution indices, the resolutions (padded with zeros to five), colour,
/// power mode, angle snap, write count, eight reserved 0xFF bytes, the
/// timeouts, 16 button slots, 16 G-button slots, the name field and 4 LED
/// slots.
pub open spec fn spec_profile_body(p: OnboardProfile) -> Seq<u8> {
    let res = p.resolutions@;
    seq![p.report_rate, p.resolution_default_index, p.resolution_shift_index] + spec_le_u16s(res)
        + spec_fill(0, if res.len() < 5 { (2 * (5 - res.len())) as nat } else { 0 }) + seq![
        p.red,
        p.green,
        p.blue,
        p.power_mode,
        p.angle_snap,
        crate::bytes::spec_lo(p.write_count),
        crate::bytes::spec_hi(p.write_count),
    ] + spec_fill(0xFF, 8) + seq![
        crate::bytes::spec_lo(p.ps_timeout),
        crate::bytes::spec_hi(p.ps_timeout),
        crate::bytes::spec_lo(p.po_timeout),
        crate::bytes::spec_hi(p.po_timeout),
    ] + spec_button_slots(p.buttons@, 16) + spec_button_slots(p.gbuttons@, 16) + spec_name_field(
        p.name@,
    ) + spec_led_slots(p.lighting@, 4)
}

/// The `length`-byte sector of a profile: its body, padded with 0xFF to
/// `length - 2` bytes, then the big-endian checksum of those bytes.
pub open spec fn spec_profile_to_bytes(p: OnboardProfile, length: nat) -> Seq<u8> {
    spec_sealed(spec_profile_body(p), length)
}

/// Appends the little-endian bytes of `v`.
fn push_le16(out: &mut Vec<u8>, v: u16)
    ensures
        final(out)@ == old(out)@ + seq![crate::bytes::spec_lo(v), crate::bytes::spec_hi(v)],
{
    out.push(lo(v));
    out.push(hi(v));
}

/// The first UTF-16 code unit of a character.
fn utf16_first(c: char) -> (r: u16)
    ensures
        r == spec_utf16_first(c),
{
    let v: u32 = c as u32;
    if v <= 0xFFFF {
        v as u16
    } else {
        (0xD800 + (v - 0x10000) / 1024) as u16
    }
}

/// Appends the 48-byte name field of `name`.
fn push_name_field(out: &mut Vec<u8>, name: &String)
    ensures
        final(out)@ == old(out)@ + spec_name_field(name@),
{
    let text = name.as_str();
    let len: usize = text.unicode_len();
    if len == 0 {
        append_fill(out, 0xFF, 48);
        return;
    }
    let n: usize = if len < 24 {
        len
    } else {
        24
    };
    let ghost kept = if name@.len() < 24 {
        name@
    } else {
        name@.take(24)
    };
    assert(kept.len() == n);
    let ghost start = out@;
    let mut i: usize = 0;
    while i < n
        invariant
            i <= n,
            n == kept.len(),
            n <= 24,
            text@ == name@,
            forall|k: int| 0 <= k < n ==> kept[k] == name@[k],
            n <= name@.len(),
            out@ == start + spec_le_u16s(kept.take(i as int).map_values(|c: char| spec_utf16_first(c))),
        decreases n - i,
    {
        let c = text.get_char(i);
        let u = utf16_first(c);
        push_le16(out, u);
        proof {
            let f = |c: char| spec_utf16_first(c);
            let t1 = kept.take(i + 1).map_values(f);
            assert(t1.drop_last() =~= kept.take(i as int).map_values(f));
            assert(t1.last() == u);
        }
        i = i + 1;
    }
    assert(kept.take(n as int) =~= kept);
    let ghost enc = spec_le_u16s(kept.map_values(|c: char| spec_utf16_first(c)));
    proof {
        lemma_le_u16s_len(kept.map_values(|c: char| spec_utf16_first(c)));
    }
    let used: usize = 2 * n;
    append_fill(out, 0, 48 - used);
}

/// Two bytes per value.
pub proof fn lemma_le_u16s_len(vs: Seq<u16>)
    ensures
        spec_le_u16s(vs).len() == 2 * vs.len(),
    decreases vs.len(),
{
    if vs.len() > 0 {
        lemma_le_u16s_len(vs.drop_last());
    }
}

/// Four bytes per button slot.
pub proof fn lemma_button_slots_len(btns: Seq<Button>, k: nat)
    ensures
        spec_button_slots(btns, k).len() == 4 * k,
    decreases k,
{
    if k > 0 {
        lemma_button_slots_len(btns, (k - 1) as nat);
        if k - 1 < btns.len() {
            lemma_button_bytes_len(btns[k - 1]);
        }
    }
}

/// Eleven bytes per LED slot.
pub proof fn lemma_led_slots_len(leds: Seq<LedEffect>, k: nat)
    ensures
        spec_led_slots(leds, k).len() == 11 * k,
    decreases k,
{
    if k > 0 {
        lemma_led_slots_len(leds, (k - 1) as nat);
    }
}

/// Appends the first `k` button slots of `btns`.
fn push_button_slots(out: &mut Vec<u8>, btns: &Vec<Button>, k: usize)
    ensures
        final(out)@ == old(out)@ + spec_button_slots(btns@, k as nat),
{
    let ghost start = out@;
    let mut i: usize = 0;
    while i < k
        invariant
            i <= k,
            out@ == start + spec_button_slots(btns@, i as nat),
        decreases k - i,
    {
        if i < btns.len() {
            let b = btns[i].to_bytes();
            append_bytes(out, b.as_slice());
        } else {
            append_fill(out, 0xFF, 4);
        }
        i = i + 1;
        assert(out@ =~= start + spec_button_slots(btns@, i as nat));
    }
}

/// Appends the first `k` LED slots of `leds`.
fn push_led_slots(out: &mut Vec<u8>, leds: &Vec<LedEffect>, k: usize)
    ensures
        final(out)@ == old(out)@ + spec_led_slots(leds@, k as nat),
{
    let ghost start = out@;
    let mut i: usize = 0;
    while i < k
        invariant
            i <= k,
            out@ == start + spec_led_slots(leds@, i as nat),
        decreases k - i,
    {
        if i < leds.len() {
            let b = leds[i].to_bytes();
            append_bytes(out, b.as_slice());
        } else {
            append_fill(out, 0xFF, 11);
        }
        i = i + 1;
        assert(out@ =~= start + spec_led_slots(leds@, i as nat));
    }
}

impl OnboardProfile {
    /// The `length`-byte sector of this profile, checksum included.
    pub fn to_bytes(&self, length: usize) -> (r: Vec<u8>)
        requires
            length >= 2,
        ensures
            r@ == spec_profile_to_bytes(*self, length as nat),
    {
        let mut out: Vec<u8> = Vec::new();
        out.push(self.report_rate);
        out.push(self.resolution_default_index);
        out.push(self.resolution_shift_index);
        let ghost head = out@;
        let mut i: usize = 0;
        while i < self.resolutions.len()
            invariant
                i <= self.resolutions@.len(),
                out@ == head + spec_le_u16s(self.resolutions@.take(i as int)),
            decreases self.resolutions@.len() - i,
        {
            push_le16(&mut out, self.resolutions[i]);
            proof {
                let t = self.resolutions@.take(i + 1);
                assert(t.drop_last() =~= self.resolutions@.take(i as int));
            }
            i = i + 1;
        }
        assert(self.resolutions@.take(self.resolutions@.len() as int) =~= self.resolutions@);
        let pad: usize = if self.resolutions.len() < 5 {
            2 * (5 - self.resolutions.len())
        } else {
            0
        };
        append_fill(&mut out, 0, pad);
        out.push(self.red);
        out.push(self.green);
        out.push(self.blue);
        out.push(self.power_mode);
        out.push(self.angle_snap);
        push_le16(&mut out, self.write_count);
        append_fill(&mut out, 0xFF, 8);
        push_le16(&mut out, self.ps_timeout);
        push_le16(&mut out, self.po_timeout);
        push_button_slots(&mut out, &self.buttons, 16);
        push_button_slots(&mut out, &self.gbuttons, 16);
        push_name_field(&mut out, &self.name);
        push_led_slots(&mut out, &self.lighting, 4);
        assert(out@ =~= spec_profile_body(*self));
        seal(&mut out, length);
        out
    }
}

/// A button's bytes are four bytes.
pub proof fn lemma_button_bytes_len(btn: Button)
    ensures
        spec_button_to_bytes(btn).len() == 4,
{
}

/// Slot `i` of the first `k` button slots holds the bytes of mapping `i`,
/// or four 0xFF bytes past the end of `btns`.
pub proof fn lemma_button_slot_at(btns: Seq<Button>, k: nat, i: int)
    requires
        0 <= i < k,
    ensures
        spec_button_slots(btns, k).subrange(4 * i, 4 * i + 4) == if i < btns.len() {
            spec_button_to_bytes(btns[i])
        } else {
            spec_fill(0xFF, 4)
        },
    decreases k,
{
    lemma_button_slots_len(btns, (k - 1) as nat);
    let prev = spec_button_slots(btns, (k - 1) as nat);
    let last = if k - 1 < btns.len() {
        spec_button_to_bytes(btns[k - 1])
    } else {
        spec_fill(0xFF, 4)
    };
    if k - 1 < btns.len() {
        lemma_button_bytes_len(btns[k - 1]);
    }
    assert(spec_button_slots(btns, k) == prev + last);
    if i == k - 1 {
        assert((prev + last).subrange(4 * i, 4 * i + 4) =~= last);
    } else {
        lemma_button_slot_at(btns, (k - 1) as nat, i);
        assert((prev + last).subrange(4 * i, 4 * i + 4) =~= prev.subrange(4 * i, 4 * i + 4));
    }
}

/// An effect's bytes are eleven bytes.
pub proof fn lemma_led_bytes_len(e: LedEffect)
    ensures
        spec_led_to_bytes(e).len() == 11,
{
}

/// Slot `i` of the first `k` LED slots holds the bytes of effect `i`, or
/// eleven 0xFF bytes past the end of `leds`.
pub proof fn lemma_led_slot_at(leds: Seq<LedEffect>, k: nat, i: int)
    requires
        0 <= i < k,
    ensures
        spec_led_slots(leds, k).subrange(11 * i, 11 * i + 11) == if i < leds.len() {
            spec_led_to_bytes(leds[i])
        } else {
            spec_fill(0xFF, 11)
        },
    decreases k,
{
    lemma_led_slots_len(leds, (k - 1) as nat);
    let prev = spec_led_slots(leds, (k - 1) as nat);
    let last = if k - 1 < leds.len() {
        spec_led_to_bytes(leds[k - 1])
    } else {
        spec_fill(0xFF, 11)
    };
    if k - 1 < leds.len() {
        lemma_led_bytes_len(leds[k - 1]);
    }
    assert(spec_led_slots(leds, k) == prev + last);
    if i == k - 1 {
        assert((prev + last).subrange(11 * i, 11 * i + 11) =~= last);
    } else {
        lemma_led_slot_at(leds, (k - 1) as nat, i);
        assert((prev + last).subrange(11 * i, 11 * i + 11) =~= prev.subrange(11 * i, 11 * i + 11));
    }
}

/// Value `i` sits at bytes `2i` (low) and `2i + 1` (high).
pub proof fn lemma_le_u16s_at(vs: Seq<u16>, i: int)
    requires
        0 <= i < vs.len(),
    ensures
        spec_le_u16s(vs).len() == 2 * vs.len(),
        spec_le_u16s(vs)[2 * i] == crate::bytes::spec_lo(vs[i]),
        spec_le_u16s(vs)[2 * i + 1] == crate::bytes::spec_hi(vs[i]),
    decreases vs.len(),
{
    lemma_le_u16s_len(vs);
    lemma_le_u16s_len(vs.drop_last());
    if i < vs.len() - 1 {
        lemma_le_u16s_at(vs.drop_last(), i);
    }
}

/// Whether a name survives its name field: at most 24 characters, each in
/// the basic plane and neither U+0000 nor U+FFFF.
pub open spec fn spec_name_storable(name: Seq<char>) -> bool {
    &&& name.len() <= 24
    &&& forall|k: int|
        0 <= k < name.len() ==> (#[trigger] name[k]) as u32 <= 0xFFFF && name[k] as u32 != 0
            && name[k] as u32 != 0xFFFF
}

/// The units read back from little-endian values followed by zero bytes are
/// the values, when none is 0x0000 or 0xFFFF.
proof fn lemma_units_of_le(vs: Seq<u16>, zeros: nat)
    requires
        forall|k: int| 0 <= k < vs.len() ==> #[trigger] vs[k] != 0 && vs[k] != 0xFFFF,
    ensures
        spec_units_until_end(spec_le_u16s(vs) + spec_fill(0, zeros)) == vs,
    decreases vs.len(),
{
    let bytes = spec_le_u16s(vs) + spec_fill(0, zeros);
    lemma_le_u16s_len(vs);
    if vs.len() == 0 {
        if zeros >= 2 {
            assert(bytes[0] == 0 && bytes[1] == 0);
        }
        assert(spec_units_until_end(bytes) =~= Seq::<u16>::empty());
    } else {
        let rest = vs.skip(1);
        lemma_le_u16s_at(vs, 0);
        lemma_le_u16s_first(vs);
        lemma_units_of_le(rest, zeros);
        crate::bytes::lemma_be16_split(vs[0]);
        assert(bytes.skip(2) =~= spec_le_u16s(rest) + spec_fill(0, zeros));
        assert(seq![vs[0]] + rest =~= vs);
    }
}

/// The bytes of values are those of the first value followed by those of
/// the rest.
proof fn lemma_le_u16s_first(vs: Seq<u16>)
    requires
        vs.len() >= 1,
    ensures
        spec_le_u16s(vs) == seq![crate::bytes::spec_lo(vs[0]), crate::bytes::spec_hi(vs[0])]
            + spec_le_u16s(vs.skip(1)),
    decreases vs.len(),
{
    if vs.len() == 1 {
        assert(vs.drop_last() =~= Seq::<u16>::empty());
        assert(vs.skip(1) =~= Seq::<u16>::empty());
    } else {
        lemma_le_u16s_first(vs.drop_last());
        assert(vs.drop_last().skip(1) =~= vs.skip(1).drop_last());
        assert(spec_le_u16s(vs) =~= seq![crate::bytes::spec_lo(vs[0]), crate::bytes::spec_hi(vs[0])]
            + spec_le_u16s(vs.skip(1)));
    }
}

/// A storable name reads back from its name field as the units written for
/// its characters.
pub proof fn lemma_name_field_units(name: Seq<char>)
    requires
        spec_name_storable(name),
    ensures
        spec_name_field(name).len() == 48,
        spec_units_until_end(spec_name_field(name)) == name.map_values(|c: char| spec_utf16_first(c)),
{
    let units = name.map_values(|c: char| spec_utf16_first(c));
    if name.len() == 0 {
        assert(spec_name_field(name)[0] == 0xFF);
        assert(units =~= Seq::<u16>::empty());
    } else {
        if name.len() == 24 {
            assert(name.take(24) =~= name);
        }
        lemma_le_u16s_len(units);
        assert forall|k: int| 0 <= k < units.len() implies #[trigger] units[k] != 0 && units[k]
            != 0xFFFF by {
            assert(name[k] as u32 <= 0xFFFF);
        }
        lemma_units_of_le(units, (48 - 2 * units.len()) as nat);
    }
}

/// Whether a button mapping decoded from bytes is the one a known mapping
/// that also decodes from them names.
proof fn lemma_button_decode_unique(bytes: Seq<u8>, b1: Button, b2: Button)
    requires
        spec_button_from_bytes(bytes, b1),
        spec_button_from_bytes(bytes, b2),
        !(b1 is Unknown),
    ensures
        b1 == b2,
{
}

proof fn lemma_led_decode_unique(bytes: Seq<u8>, e1: LedEffect, e2: LedEffect)
    requires
        spec_led_from_bytes(bytes, e1),
        spec_led_from_bytes(bytes, e2),
        spec_led_known(e1),
    ensures
        e1 == e2,
{
}

/// Whether a profile is stored exactly by its sector bytes: five
/// resolutions, at most 16 buttons and G-buttons whose mappings are
/// encodable, four known LED effects and a storable name.
pub open spec fn spec_profile_storable(p: OnboardProfile) -> bool {
    &&& p.resolutions@.len() == 5
    &&& p.buttons@.len() <= 16
    &&& p.gbuttons@.len() <= 16
    &&& forall|i: int| 0 <= i < p.buttons@.len() ==> spec_button_encodable(#[trigger] p.buttons@[i])
    &&& forall|i: int| 0 <= i < p.gbuttons@.len() ==> spec_button_encodable(#[trigger] p.gbuttons@[i])
    &&& p.lighting@.len() == 4
    &&& forall|i: int| 0 <= i < 4 ==> spec_led_known(#[trigger] p.lighting@[i])
    &&& spec_name_storable(p.name@)
}

/// A storable profile's body is 252 bytes laid out as the sector format
/// says.
proof fn lemma_profile_body_layout(p: OnboardProfile)
    requires
        spec_profile_storable(p),
    ensures
        spec_profile_body(p).len() == 252,
        spec_profile_body(p).subrange(32, 96) == spec_button_slots(p.buttons@, 16),
        spec_profile_body(p).subrange(96, 160) == spec_button_slots(p.gbuttons@, 16),
        spec_profile_body(p).subrange(160, 208) == spec_name_field(p.name@),
        spec_profile_body(p).subrange(208, 252) == spec_led_slots(p.lighting@, 4),
        spec_profile_body(p).subrange(0, 32) == seq![
            p.report_rate,
            p.resolution_default_index,
            p.resolution_shift_index,
        ] + spec_le_u16s(p.resolutions@) + seq![
            p.red,
            p.green,
            p.blue,
            p.power_mode,
            p.angle_snap,
            crate::bytes::spec_lo(p.write_count),
            crate::bytes::spec_hi(p.write_count),
        ] + spec_fill(0xFF, 8) + seq![
            crate::bytes::spec_lo(p.ps_timeout),
            crate::bytes::spec_hi(p.ps_timeout),
            crate::bytes::spec_lo(p.po_timeout),
            crate::bytes::spec_hi(p.po_timeout),
        ],
{
    lemma_le_u16s_len(p.resolutions@);
    lemma_button_slots_len(p.buttons@, 16);
    lemma_button_slots_len(p.gbuttons@, 16);
    lemma_led_slots_len(p.lighting@, 4);
    lemma_name_field_units(p.name@);
    let head = seq![p.report_rate, p.resolution_default_index, p.resolution_shift_index]
        + spec_le_u16s(p.resolutions@) + spec_fill(0, 0) + seq![
        p.red,
        p.green,
        p.blue,
        p.power_mode,
        p.angle_snap,
        crate::bytes::spec_lo(p.write_count),
        crate::bytes::spec_hi(p.write_count),
    ] + spec_fill(0xFF, 8) + seq![
        crate::bytes::spec_lo(p.ps_timeout),
        crate::bytes::spec_hi(p.ps_timeout),
        crate::bytes::spec_lo(p.po_timeout),
        crate::bytes::spec_hi(p.po_timeout),
    ];
    let b1 = spec_button_slots(p.buttons@, 16);
    let b2 = spec_button_slots(p.gbuttons@, 16);
    let nf = spec_name_field(p.name@);
    let ls = spec_led_slots(p.lighting@, 4);
    let body = spec_profile_body(p);
    assert(body == head + b1 + b2 + nf + ls);
    assert(head.len() == 32);
    assert(body.subrange(0, 32) =~= head);
    assert(spec_fill(0, 0) =~= Seq::<u8>::empty());
    assert(body.subrange(32, 96) =~= b1);
    assert(body.subrange(96, 160) =~= b2);
    assert(body.subrange(160, 208) =~= nf);
    assert(body.subrange(208, 252) =~= ls);
}

/// Writing a storable profile to a sector of at least 254 bytes and reading
/// it back, with its own sector, state and button counts, gives the profile
/// again, its name included.
pub proof fn lemma_profile_roundtrip(p: OnboardProfile, length: nat, q: OnboardProfile)
    requires
        spec_profile_storable(p),
        length >= 254,
        spec_profile_from_bytes(
            p.sector,
            p.enabled,
            p.buttons@.len(),
            p.gbuttons@.len(),
            spec_profile_to_bytes(p, length),
            q,
        ),
    ensures
        q.sector == p.sector,
        q.enabled == p.enabled,
        q.report_rate == p.report_rate,
        q.resolution_default_index == p.resolution_default_index,
        q.resolution_shift_index == p.resolution_shift_index,
        q.resolutions@ == p.resolutions@,
        q.red == p.red,
        q.green == p.green,
        q.blue == p.blue,
        q.power_mode == p.power_mode,
        q.angle_snap == p.angle_snap,
        q.write_count == p.write_count,
        q.ps_timeout == p.ps_timeout,
        q.po_timeout == p.po_timeout,
        q.buttons@ == p.buttons@,
        q.gbuttons@ == p.gbuttons@,
        q.lighting@ == p.lighting@,
        q.name@ == p.name@,
{
    lemma_profile_body_layout(p);
    let body = spec_profile_body(p);
    let data = spec_profile_to_bytes(p, length);
    assert(data.subrange(0, 252) =~= body);
    assert forall|a: int, b: int| 0 <= a <= b <= 252 implies #[trigger] data.subrange(a, b)
        == body.subrange(a, b) by {
        assert(data.subrange(a, b) =~= body.subrange(a, b));
    }
    // Scalars and resolutions.
    let head = body.subrange(0, 32);
    assert(data[0] == head[0] && data[1] == head[1] && data[2] == head[2]);
    assert forall|i: int| 0 <= i < 5 implies #[trigger] spec_le16_at(data, 3 + 2 * i)
        == p.resolutions@[i] by {
        lemma_le_u16s_at(p.resolutions@, i);
        assert(data[3 + 2 * i] == head[3 + 2 * i]);
        assert(data[4 + 2 * i] == head[4 + 2 * i]);
        crate::bytes::lemma_be16_split(p.resolutions@[i]);
    }
    assert(q.resolutions@ =~= p.resolutions@);
    assert(data[13] == head[13] && data[14] == head[14] && data[15] == head[15]);
    assert(data[16] == head[16] && data[17] == head[17]);
    assert(data[18] == head[18] && data[19] == head[19]);
    assert(data[28] == head[28] && data[29] == head[29]);
    assert(data[30] == head[30] && data[31] == head[31]);
    crate::bytes::lemma_be16_split(p.write_count);
    crate::bytes::lemma_be16_split(p.ps_timeout);
    crate::bytes::lemma_be16_split(p.po_timeout);
    // Buttons.
    assert forall|i: int| 0 <= i < p.buttons@.len() implies q.buttons@[i] == #[trigger] p.buttons@[i] by {
        lemma_button_slot_at(p.buttons@, 16, i);
        assert(data.subrange(32 + 4 * i, 32 + 4 * i + 4) == body.subrange(32 + 4 * i, 32 + 4 * i + 4));
        assert(body.subrange(32 + 4 * i, 32 + 4 * i + 4) =~= spec_button_slots(p.buttons@, 16).subrange(4 * i, 4 * i + 4));
        lemma_button_roundtrip(p.buttons@[i]);
        lemma_button_decode_unique(data.subrange(32 + 4 * i, 32 + 4 * i + 4), p.buttons@[i], q.buttons@[i]);
    }
    assert(q.buttons@ =~= p.buttons@);
    assert forall|i: int| 0 <= i < p.gbuttons@.len() implies q.gbuttons@[i] == #[trigger] p.gbuttons@[i] by {
        lemma_button_slot_at(p.gbuttons@, 16, i);
        assert(data.subrange(96 + 4 * i, 96 + 4 * i + 4) == body.subrange(96 + 4 * i, 96 + 4 * i + 4));
        assert(body.subrange(96 + 4 * i, 96 + 4 * i + 4) =~= spec_button_slots(p.gbuttons@, 16).subrange(4 * i, 4 * i + 4));
        lemma_button_roundtrip(p.gbuttons@[i]);
        lemma_button_decode_unique(data.subrange(96 + 4 * i, 96 + 4 * i + 4), p.gbuttons@[i], q.gbuttons@[i]);
    }
    assert(q.gbuttons@ =~= p.gbuttons@);
    // Lighting.
    assert forall|i: int| 0 <= i < 4 implies q.lighting@[i] == #[trigger] p.lighting@[i] by {
        lemma_led_slot_at(p.lighting@, 4, i);
        assert(data.subrange(208 + 11 * i, 219 + 11 * i) == body.subrange(208 + 11 * i, 219 + 11 * i));
        assert(body.subrange(208 + 11 * i, 219 + 11 * i) =~= spec_led_slots(p.lighting@, 4).subrange(11 * i, 11 * i + 11));
        lemma_led_roundtrip(p.lighting@[i]);
        lemma_led_decode_unique(data.subrange(208 + 11 * i, 219 + 11 * i), p.lighting@[i], q.lighting@[i]);
    }
    assert(q.lighting@ =~= p.lighting@);
    // Name.
    lemma_name_field_units(p.name@);
    assert(data.subrange(160, 208) == body.subrange(160, 208));
    lemma_name_units_decode(p.name@);
}

/// The units written for a storable name decode to the name.
proof fn lemma_name_units_decode(name: Seq<char>)
    requires
        spec_name_storable(name),
    ensures
        utf16_lossy(name.map_values(|c: char| spec_utf16_first(c))) == name,
{
    let units = name.map_values(|c: char| spec_utf16_first(c));
    assert forall|i: int| 0 <= i < units.len() implies !(0xD800 <= #[trigger] units[i] < 0xE000) by {
        let c = name[i];
        assert(c as u32 <= 0xFFFF);
        vstd::utf8::char_is_scalar(c);
        assert(units[i] == c as u32);
    }
    lemma_utf16_plain(units);
    assert forall|i: int| 0 <= i < name.len() implies (units[i] as char) == #[trigger] name[i] by {
        let c = name[i];
        assert(c as u32 <= 0xFFFF);
        let u: u32 = c as u32;
        vstd::utf8::char_u32_cast(c, u);
        assert(units[i] == u);
        assert((units[i] as char) == (u as char));
    }
    assert(Seq::new(units.len(), |i: int| units[i] as char) =~= name);
}

/// Version of the profile dump format.
pub const ONBOARD_PROFILES_VERSION: u32 = 3;

/// The complete onboard profiles configuration of a device.
#[derive(Debug, Clone)]
pub struct OnboardProfiles {
    pub version: u32,
    pub device_name: String,
    pub count: u8,
    pub buttons: u8,
    pub gbuttons: u8,
    pub sectors: u8,
    /// Sector size in bytes (the 2-byte checksum included).
    pub size: u16,
    /// Profile index (from 1) to profile.
    pub profiles: HashMap<u8, OnboardProfile>,
}

/// The directory entries of the profiles with an index below `k`, in
/// increasing index order: sector (big-endian), enabled flag, a zero byte.
pub open spec fn spec_directory(m: Map<u8, OnboardProfile>, k: nat) -> Seq<u8>
    decreases k,
{
    if k == 0 {
        seq![]
    } else {
        spec_directory(m, (k - 1) as nat) + if m.contains_key((k - 1) as u8) {
            let p = m[(k - 1) as u8];
            seq![crate::bytes::spec_hi(p.sector), crate::bytes::spec_lo(p.sector), p.enabled, 0u8]
        } else {
            seq![]
        }
    }
}

/// `body` padded with 0xFF to `size - 2` bytes, then its big-endian
/// checksum.
pub open spec fn spec_sealed(body: Seq<u8>, size: nat) -> Seq<u8> {
    let padded = if body.len() < size - 2 {
        body + spec_fill(0xFF, (size - 2 - body.len()) as nat)
    } else {
        body
    };
    padded + seq![crate::bytes::spec_hi(spec_crc16(padded)), crate::bytes::spec_lo(spec_crc16(padded))]
}

/// The control sector (sector 0): the profile directory in index order, the
/// end marker FF FF 00 00, padding and checksum.
pub open spec fn spec_control_sector(m: Map<u8, OnboardProfile>, size: nat) -> Seq<u8> {
    spec_sealed(spec_directory(m, 256) + seq![0xFFu8, 0xFFu8, 0u8, 0u8], size)
}

/// The directory of the profiles below `n` has four bytes per profile.
proof fn lemma_directory_len(m: Map<u8, OnboardProfile>, n: nat)
    ensures
        spec_directory(m, n).len() == 4 * spec_profiles_below(m, n),
    decreases n,
{
    if n > 0 {
        lemma_directory_len(m, (n - 1) as nat);
    }
}

/// Counting profiles below a larger index counts at least as many.
proof fn lemma_profiles_below_mono(m: Map<u8, OnboardProfile>, a: nat, b: nat)
    requires
        a <= b,
    ensures
        spec_profiles_below(m, a) <= spec_profiles_below(m, b),
    decreases b,
{
    if a < b {
        lemma_profiles_below_mono(m, a, (b - 1) as nat);
    }
}

/// The entry of a profile in the directory of the profiles below `n`
/// stands after those of the profiles below it.
proof fn lemma_directory_entries(m: Map<u8, OnboardProfile>, n: nat, i: nat)
    requires
        n <= 256,
        i < n,
        m.contains_key(i as u8),
    ensures
        ({
            let d = spec_directory(m, n);
            let k: int = 4 * spec_profiles_below(m, i) as int;
            let p = m[i as u8];
            &&& k + 4 <= d.len()
            &&& d[k] as int == p.sector as int / 256
            &&& d[k + 1] as int == p.sector as int % 256
            &&& d[k + 2] == p.enabled
            &&& d[k + 3] == 0
        }),
    decreases n,
{
    lemma_directory_len(m, n);
    lemma_directory_len(m, (n - 1) as nat);
    let prev = spec_directory(m, (n - 1) as nat);
    let d = spec_directory(m, n);
    if i < n - 1 {
        lemma_directory_entries(m, (n - 1) as nat, i);
        let k: int = 4 * spec_profiles_below(m, i) as int;
        assert(d[k] == prev[k]);
        assert(d[k + 1] == prev[k + 1]);
        assert(d[k + 2] == prev[k + 2]);
        assert(d[k + 3] == prev[k + 3]);
    } else {
        assert((i as u8) as nat == i);
        assert(((n - 1) as nat) == i);
        let k: int = 4 * spec_profiles_below(m, i) as int;
        assert(k == prev.len());
    }
}

/// The control sector is the directory the header reader reads back: the
/// entry of each profile, after those of the profiles with a lower index,
/// holds its sector high byte first (so the big-endian reading of its first
/// two bytes is the sector), its enabled flag and a zero byte; the entries
/// are followed by the end marker FF FF 00 00, then 0xFF padding up to the
/// sector size less the two checksum bytes, which end the sector.
pub proof fn lemma_control_sector_directory(m: Map<u8, OnboardProfile>, size: nat, i: u8)
    requires
        m.contains_key(i),
    ensures
        ({
            let c = spec_control_sector(m, size);
            let k: int = 4 * spec_profiles_below(m, i as nat) as int;
            let e: int = 4 * spec_profiles_below(m, 256) as int;
            let p = m[i];
            &&& k + 4 <= e
            &&& c[k] as int == p.sector as int / 256
            &&& c[k + 1] as int == p.sector as int % 256
            &&& crate::bytes::spec_be16(c[k], c[k + 1]) == p.sector
            &&& c[k + 2] == p.enabled
            &&& c[k + 3] == 0
            &&& c[e] == 0xFF && c[e + 1] == 0xFF && c[e + 2] == 0 && c[e + 3] == 0
            &&& c.len() == if e + 4 < size - 2 {
                size as int
            } else {
                e + 6
            }
            &&& forall|j: int| e + 4 <= j < c.len() - 2 ==> #[trigger] c[j] == 0xFF
        }),
{
    lemma_directory_entries(m, 256, i as nat);
    lemma_directory_len(m, 256);
    let d = spec_directory(m, 256);
    let body = d + seq![0xFFu8, 0xFFu8, 0u8, 0u8];
    let c = spec_control_sector(m, size);
    let padded = if body.len() < size - 2 {
        body + spec_fill(0xFF, (size - 2 - body.len()) as nat)
    } else {
        body
    };
    assert(c == padded + seq![crate::bytes::spec_hi(spec_crc16(padded)), crate::bytes::spec_lo(spec_crc16(padded))]);
    assert forall|j: int| 0 <= j < body.len() implies #[trigger] c[j] == body[j] by {
        assert(c[j] == padded[j]);
    }
    let k: int = 4 * spec_profiles_below(m, i as nat) as int;
    assert(c[k] == d[k]);
    assert(c[k + 1] == d[k + 1]);
    assert(c[k + 2] == d[k + 2]);
    assert(c[k + 3] == d[k + 3]);
    let e = d.len() as int;
    assert(c[e] == body[e]);
    assert(c[e + 1] == body[e + 1]);
    assert(c[e + 2] == body[e + 2]);
    assert(c[e + 3] == body[e + 3]);
    assert forall|j: int| e + 4 <= j < c.len() - 2 implies #[trigger] c[j] == 0xFF by {
        assert(c[j] == padded[j]);
    }
}

/// Whether bytes `b` hold `v` little-endian at `at`.
pub open spec fn spec_le_at(b: Seq<u8>, at: int, v: u16) -> bool {
    b[at] as int + 256 * b[at + 1] as int == v as int
}

/// The on-device layout of an LED effect: 11 bytes, the effect id first
/// (0 disabled, 1 static, 2 pulse, 3 cycle, 8 boot, 9 demo, 0x0A breathe,
/// 0x0B ripple, 0x0E decomposition, 0x0F and 0x10 signatures, 0x15
/// saturated cycle, or the id of an unknown effect); colours in bytes 1 to
/// 3; periods little-endian (at byte 6 for cycle and the signatures, 4 for
/// breathe, 5 for ripple, 7 for decomposition and the saturated cycle)
/// with the intensity after them.
pub proof fn lemma_led_layout(e: LedEffect)
    ensures
        ({
            let b = spec_led_to_bytes(e);
            &&& b.len() == 11
            &&& match e {
                LedEffect::Disabled => forall|i: int| 0 <= i < 11 ==> #[trigger] b[i] == 0,
                LedEffect::Static { red, green, blue, ramp } => b[0] == 1 && b[1] == red && b[2] == green && b[3]
                    == blue && b[4] == ramp,
                LedEffect::Pulse { red, green, blue, speed } => b[0] == 2 && b[1] == red && b[2] == green && b[3]
                    == blue && b[4] == speed,
                LedEffect::Cycle { period, intensity } => b[0] == 3 && spec_le_at(b, 6, period) && b[8]
                    == intensity,
                LedEffect::Boot => b[0] == 8,
                LedEffect::Demo => b[0] == 9,
                LedEffect::Breathe { red, green, blue, period, form, intensity } => b[0] == 0x0A && b[1] == red
                    && b[2] == green && b[3] == blue && spec_le_at(b, 4, period) && b[6] == form && b[7]
                    == intensity,
                LedEffect::Ripple { red, green, blue, period } => b[0] == 0x0B && b[1] == red && b[2] == green
                    && b[3] == blue && spec_le_at(b, 5, period),
                LedEffect::Decomposition { period, intensity } => b[0] == 0x0E && spec_le_at(b, 7, period)
                    && b[9] == intensity,
                LedEffect::Signature1 { period, intensity } => b[0] == 0x0F && spec_le_at(b, 6, period) && b[8]
                    == intensity,
                LedEffect::Signature2 { period, intensity } => b[0] == 0x10 && spec_le_at(b, 6, period) && b[8]
                    == intensity,
                LedEffect::CycleS { saturation, period, intensity } => b[0] == 0x15 && b[2] == saturation
                    && spec_le_at(b, 7, period) && b[9] == intensity,
                LedEffect::Unknown { id, .. } => b[0] == id,
            }
        }),
{
    lemma_led_bytes_len(e);
}

/// The on-device layout of a button mapping: 4 bytes; a macro (stop) has
/// behaviour 0 (1) in the high nibble of byte 0, the sector's upper four
/// bits in its low nibble and low byte in byte 1, and the address
/// big-endian in bytes 2 and 3; a HID event has behaviour 8, its mapping
/// type in byte 1 and its code big-endian in bytes 2 and 3 (a mouse button
/// or consumer key), or the modifiers in byte 2 and the key in byte 3; a
/// function has behaviour 9, the function in byte 1 and its data in byte
/// 3; a disabled mapping is four 0xFF bytes.
pub proof fn lemma_button_layout(btn: Button)
    ensures
        ({
            let b = spec_button_to_bytes(btn);
            &&& b.len() == 4
            &&& match btn {
                Button::Disabled => b == seq![0xFFu8, 0xFFu8, 0xFFu8, 0xFFu8],
                Button::Macro { sector, address } => b[0] / 16 == 0 && (b[0] % 16) as int * 256 + b[1] as int
                    == sector as int % 0x1000 && b[2] as int * 256 + b[3] as int == address as int,
                Button::MacroStop { sector, address } => b[0] / 16 == 1 && (b[0] % 16) as int * 256 + b[1] as int
                    == sector as int % 0x1000 && b[2] as int * 256 + b[3] as int == address as int,
                Button::Send { mapping_type, modifiers, value } => (mapping_type == 0 ==> b == seq![
                    0x80u8,
                    0u8,
                    0xFFu8,
                    0xFFu8,
                ]) && ((mapping_type == 1 || mapping_type == 3) ==> b[0] == 0x80 && b[1] == mapping_type
                    && b[2] as int * 256 + b[3] as int == value as int % 0x10000) && (mapping_type == 2 ==> b[0]
                    == 0x80 && b[1] == 2 && b[2] == (match modifiers {
                    Some(m) => m,
                    None => 0u8,
                }) && b[3] as int == value as int % 256),
                Button::Function { function, data } => b[0] == 0x90 && b[1] == function && b[3] == data,
                Button::Unknown { .. } => true,
            }
        }),
{
    lemma_button_bytes_len(btn);
    match btn {
        Button::Disabled => {
            assert(spec_fill(0xFF, 4) =~= seq![0xFFu8, 0xFFu8, 0xFFu8, 0xFFu8]);
        },
        Button::Send { value, .. } => {
            assert(((value / 256) % 256) * 256 + value % 256 == value % 0x10000) by (nonlinear_arith);
        },
        _ => {},
    }
}

/// The name field is 48 bytes long, whatever the name.
proof fn lemma_name_field_len(name: Seq<char>)
    ensures
        spec_name_field(name).len() == 48,
{
    if name.len() > 0 {
        let kept = if name.len() < 24 {
            name
        } else {
            name.take(24)
        };
        lemma_le_u16s_len(kept.map_values(|c: char| spec_utf16_first(c)));
    }
}

/// The on-device layout of a profile sector body (before padding and
/// checksum), for at most five resolutions: report rate, default and shift
/// resolution indices in bytes 0 to 2; the resolutions little-endian from
/// byte 3 (zeros for missing ones up to five); red, green, blue, power
/// mode and angle snap in bytes 13 to 17; the write count little-endian at
/// 18; eight 0xFF bytes; the two timeouts little-endian at 28 and 30; the
/// 16 button slots from byte 32 and the 16 G-button slots from byte 96,
/// four bytes each (0xFF for a missing button); the 48-byte name field at
/// 160; and the 4 LED slots, 11 bytes each, from byte 208: 252 bytes.
pub proof fn lemma_profile_layout(p: OnboardProfile)
    requires
        p.resolutions@.len() <= 5,
    ensures
        ({
            let b = spec_profile_body(p);
            let res = p.resolutions@;
            &&& b.len() == 252
            &&& b[0] == p.report_rate && b[1] == p.resolution_default_index && b[2] == p.resolution_shift_index
            &&& forall|k: int| 0 <= k < res.len() ==> spec_le_at(b, 3 + 2 * k, #[trigger] res[k])
            &&& forall|j: int| 3 + 2 * res.len() <= j < 13 ==> #[trigger] b[j] == 0
            &&& b[13] == p.red && b[14] == p.green && b[15] == p.blue
            &&& b[16] == p.power_mode && b[17] == p.angle_snap
            &&& spec_le_at(b, 18, p.write_count)
            &&& forall|j: int| 20 <= j < 28 ==> #[trigger] b[j] == 0xFF
            &&& spec_le_at(b, 28, p.ps_timeout) && spec_le_at(b, 30, p.po_timeout)
            &&& forall|k: int|
                0 <= k < 16 ==> #[trigger] b.subrange(32 + 4 * k, 36 + 4 * k) == if k < p.buttons@.len() {
                    spec_button_to_bytes(p.buttons@[k])
                } else {
                    spec_fill(0xFF, 4)
                }
            &&& forall|k: int|
                0 <= k < 16 ==> #[trigger] b.subrange(96 + 4 * k, 100 + 4 * k) == if k < p.gbuttons@.len() {
                    spec_button_to_bytes(p.gbuttons@[k])
                } else {
                    spec_fill(0xFF, 4)
                }
            &&& b.subrange(160, 208) == spec_name_field(p.name@)
            &&& forall|k: int|
                0 <= k < 4 ==> #[trigger] b.subrange(208 + 11 * k, 219 + 11 * k) == if k < p.lighting@.len() {
                    spec_led_to_bytes(p.lighting@[k])
                } else {
                    spec_fill(0xFF, 11)
                }
        }),
{
    let res = p.resolutions@;
    let b = spec_profile_body(p);
    let head = seq![p.report_rate, p.resolution_default_index, p.resolution_shift_index] + spec_le_u16s(res)
        + spec_fill(0, (2 * (5 - res.len())) as nat);
    let mid = seq![
        p.red,
        p.green,
        p.blue,
        p.power_mode,
        p.angle_snap,
        crate::bytes::spec_lo(p.write_count),
        crate::bytes::spec_hi(p.write_count),
    ] + spec_fill(0xFF, 8) + seq![
        crate::bytes::spec_lo(p.ps_timeout),
        crate::bytes::spec_hi(p.ps_timeout),
        crate::bytes::spec_lo(p.po_timeout),
        crate::bytes::spec_hi(p.po_timeout),
    ];
    let bs = spec_button_slots(p.buttons@, 16);
    let gs = spec_button_slots(p.gbuttons@, 16);
    let nf = spec_name_field(p.name@);
    let ls = spec_led_slots(p.lighting@, 4);
    lemma_le_u16s_len(res);
    lemma_button_slots_len(p.buttons@, 16);
    lemma_button_slots_len(p.gbuttons@, 16);
    lemma_name_field_len(p.name@);
    lemma_led_slots_len(p.lighting@, 4);
    assert(head.len() == 13);
    assert(mid.len() == 19);
    assert(b =~= head + mid + bs + gs + nf + ls);
    assert forall|k: int| 0 <= k < res.len() implies spec_le_at(b, 3 + 2 * k, #[trigger] res[k]) by {
        lemma_le_u16s_at(res, k);
        assert(b[3 + 2 * k] == head[3 + 2 * k]);
        assert(b[4 + 2 * k] == head[4 + 2 * k]);
        assert(head[3 + 2 * k] == spec_le_u16s(res)[2 * k]);
        assert(head[4 + 2 * k] == spec_le_u16s(res)[2 * k + 1]);
        crate::bytes::lemma_be16_split(res[k]);
    }
    assert forall|j: int| 3 + 2 * res.len() <= j < 13 implies #[trigger] b[j] == 0 by {
        assert(b[j] == head[j]);
    }
    assert(b[13] == mid[0]);
    assert(b[18] == mid[5] && b[19] == mid[6]);
    crate::bytes::lemma_be16_split(p.write_count);
    crate::bytes::lemma_be16_split(p.ps_timeout);
    crate::bytes::lemma_be16_split(p.po_timeout);
    assert forall|j: int| 20 <= j < 28 implies #[trigger] b[j] == 0xFF by {
        assert(b[j] == mid[j - 13]);
    }
    assert(b[28] == mid[15] && b[29] == mid[16] && b[30] == mid[17] && b[31] == mid[18]);
    assert forall|k: int| 0 <= k < 16 implies #[trigger] b.subrange(32 + 4 * k, 36 + 4 * k) == if k
        < p.buttons@.len() {
        spec_button_to_bytes(p.buttons@[k])
    } else {
        spec_fill(0xFF, 4)
    } by {
        lemma_button_slot_at(p.buttons@, 16, k);
        assert(b.subrange(32 + 4 * k, 36 + 4 * k) =~= bs.subrange(4 * k, 4 * k + 4));
    }
    assert forall|k: int| 0 <= k < 16 implies #[trigger] b.subrange(96 + 4 * k, 100 + 4 * k) == if k
        < p.gbuttons@.len() {
        spec_button_to_bytes(p.gbuttons@[k])
    } else {
        spec_fill(0xFF, 4)
    } by {
        lemma_button_slot_at(p.gbuttons@, 16, k);
        assert(b.subrange(96 + 4 * k, 100 + 4 * k) =~= gs.subrange(4 * k, 4 * k + 4));
    }
    assert(b.subrange(160, 208) =~= nf);
    assert forall|k: int| 0 <= k < 4 implies #[trigger] b.subrange(208 + 11 * k, 219 + 11 * k) == if k
        < p.lighting@.len() {
        spec_led_to_bytes(p.lighting@[k])
    } else {
        spec_fill(0xFF, 11)
    } by {
        lemma_led_slot_at(p.lighting@, 4, k);
        assert(b.subrange(208 + 11 * k, 219 + 11 * k) =~= ls.subrange(11 * k, 11 * k + 11));
    }
}

/// The read parameters of the 16 bytes at `offset` of `sector`.
pub open spec fn spec_sector_params(sector: u16, offset: int) -> Seq<u8> {
    seq![
        crate::bytes::spec_hi(sector),
        crate::bytes::spec_lo(sector),
        ((offset / 256) % 256) as u8,
        (offset % 256) as u8,
    ]
}

/// `a - b`, or 0 when `b` is larger.
pub open spec fn spec_sat_sub(a: int, b: int) -> int {
    if a >= b {
        a - b
    } else {
        0
    }
}

/// Whether each chunk `j` is a reply of `device` to the read of the 16
/// bytes at offset `16 j` of `sector`.
pub open spec fn spec_sector_chunks<D: Hidpp20Device>(
    device: &D,
    sector: u16,
    chunks: Seq<Seq<u8>>,
) -> bool {
    forall|j: int|
        0 <= j < chunks.len() ==> device.answers_feature(
            SupportedFeature::OnboardProfiles,
            0x50,
            spec_sector_params(sector, 16 * j),
            Some(#[trigger] chunks[j]),
        )
}

/// The bytes of the last chunk `last` that complete `have` bytes to
/// `size`; `None` when the chunk is too short for them.
pub open spec fn spec_sector_tail(size: int, have: int, last: Seq<u8>) -> Option<Seq<u8>> {
    let need = spec_sat_sub(size, have);
    let skip = spec_sat_sub(16, need);
    let take = if need < last.len() {
        need
    } else {
        last.len() as int
    };
    if skip + take <= last.len() {
        Some(last.subrange(skip, skip + take))
    } else {
        None
    }
}

/// Whether `data` is what reading `size` bytes of `sector` may give: the
/// 16-byte chunks at offsets 0, 16, ... below `size - 15`, then the bytes
/// of the chunk at `size - 16` that complete `size`.
pub open spec fn spec_sector_read<D: Hidpp20Device>(
    device: &D,
    sector: u16,
    size: int,
    data: Seq<u8>,
) -> bool {
    exists|chunks: Seq<Seq<u8>>, last: Seq<u8>|
        #![trigger spec_sector_chunks(device, sector, chunks), device.answers_feature(SupportedFeature::OnboardProfiles, 0x50, spec_sector_params(sector, spec_sat_sub(size, 16)), Some(last))]
        chunks.len() == (spec_sat_sub(size, 15) + 15) / 16 && spec_sector_chunks(
            device,
            sector,
            chunks,
        ) && device.answers_feature(
            SupportedFeature::OnboardProfiles,
            0x50,
            spec_sector_params(sector, spec_sat_sub(size, 16)),
            Some(last),
        ) && (spec_sector_tail(size, chunks.flatten().len() as int, last) matches Some(t) && data
            == chunks.flatten() + t)
}

/// Whether an onboard profiles call of `function` with `params` may fail:
/// the device rejects it, gives no reply, or replies with fewer than `min`
/// bytes.
pub open spec fn spec_call_fails<D: Hidpp20Device>(
    device: &D,
    function: u8,
    params: Seq<u8>,
    min: int,
) -> bool {
    ||| exists|e: Error| device.rejects_feature(SupportedFeature::OnboardProfiles, function, params, e)
    ||| device.answers_feature(SupportedFeature::OnboardProfiles, function, params, None)
    ||| exists|reply: Seq<u8>|
        #[trigger] device.answers_feature(
            SupportedFeature::OnboardProfiles,
            function,
            params,
            Some(reply),
        ) && reply.len() < min
}

/// The reply of a feature call; no reply is a protocol error.
fn feature_reply<D: Hidpp20Device>(
    device: &D,
    feature: SupportedFeature,
    function: u8,
    params: &[u8],
) -> (r: Result<Vec<u8>, Error>)
    ensures
        r matches Ok(v) ==> device.answers_feature(feature, function, params@, Some(v@)),
        r matches Err(e) ==> device.rejects_feature(feature, function, params@, e) || (e is Protocol
            && device.answers_feature(feature, function, params@, None)),
{
    match device.feature_request(feature, function, params)? {
        Some(v) => Ok(v),
        None => Err(protocol_error("no reply to an onboard profiles call")),
    }
}

/// Whether reading `size` bytes of `sector` may fail: the read of some
/// chunk at an offset up to `size` fails, or the last chunk is shorter
/// than 16 bytes.
pub open spec fn spec_sector_read_fails<D: Hidpp20Device>(device: &D, sector: u16, size: int) -> bool {
    exists|offset: int|
        0 <= offset <= size && #[trigger] spec_call_fails(
            device,
            0x50,
            spec_sector_params(sector, offset),
            16,
        )
}

/// The read parameters of the 16 bytes at `offset` of `sector`.
fn sector_params(sector: u16, offset: usize) -> (r: Vec<u8>)
    ensures
        r@ == spec_sector_params(sector, offset as int),
{
    four(hi(sector), lo(sector), ((offset / 256) % 256) as u8, (offset % 256) as u8)
}

impl OnboardProfiles {
    /// Read `size` bytes of `sector`, 16 at a time; the last chunk is read
    /// at `size - 16` and only the bytes that complete `size` are kept.
    fn read_sector<D: Hidpp20Device>(device: &D, sector: u16, size: usize) -> (r: Result<
        Vec<u8>,
        Error,
    >)
        ensures
            r matches Ok(data) ==> spec_sector_read(device, sector, size as int, data@),
            r is Err ==> spec_sector_read_fails(device, sector, size as int),
    {
        let mut data: Vec<u8> = Vec::new();
        let ghost mut chunks: Seq<Seq<u8>> = seq![];
        let limit: usize = if size >= 15 {
            size - 15
        } else {
            0
        };
        let mut offset: usize = 0;
        while offset < limit
            invariant
                limit == spec_sat_sub(size as int, 15),
                limit + 15 <= usize::MAX,
                offset == 16 * chunks.len(),
                offset < limit + 16,
                data@ == chunks.flatten(),
                spec_sector_chunks(device, sector, chunks),
                chunks.len() == (offset + 15) / 16,
            decreases limit + 16 - offset,
        {
            let p = sector_params(sector, offset);
            let chunk = match feature_reply(device, SupportedFeature::OnboardProfiles, 0x50, p.as_slice()) {
                Ok(c) => c,
                Err(e) => {
                    assert(spec_call_fails(device, 0x50, spec_sector_params(sector, offset as int), 16));
                    return Err(e);
                },
            };
            append_bytes(&mut data, chunk.as_slice());
            proof {
                chunks.lemma_flatten_push(chunk@);
                chunks = chunks.push(chunk@);
            }
            offset = offset + 16;
        }
        assert(chunks.len() == (spec_sat_sub(size as int, 15) + 15) / 16);
        let last_offset: usize = if size >= 16 {
            size - 16
        } else {
            0
        };
        let lp = sector_params(sector, last_offset);
        let last = match feature_reply(device, SupportedFeature::OnboardProfiles, 0x50, lp.as_slice()) {
            Ok(c) => c,
            Err(e) => {
                assert(spec_call_fails(device, 0x50, spec_sector_params(sector, last_offset as int), 16));
                return Err(e);
            },
        };
        let have: usize = data.len();
        let need: usize = if size >= have {
            size - have
        } else {
            0
        };
        let skip: usize = if 16 >= need {
            16 - need
        } else {
            0
        };
        let take: usize = if need < last.len() {
            need
        } else {
            last.len()
        };
        if skip > last.len() || take > last.len() - skip {
            assert(last@.len() < 16);
            assert(spec_call_fails(device, 0x50, spec_sector_params(sector, last_offset as int), 16));
            return Err(protocol_error("short onboard profiles chunk"));
        }
        let tail = copy_range(last.as_slice(), skip, skip + take);
        append_bytes(&mut data, tail.as_slice());
        assert(spec_sector_tail(size as int, chunks.flatten().len() as int, last@) == Some(tail@));
        assert(last_offset == spec_sat_sub(size as int, 16));
        assert(device.answers_feature(
            SupportedFeature::OnboardProfiles,
            0x50,
            spec_sector_params(sector, spec_sat_sub(size as int, 16)),
            Some(last@),
        ));
        assert(spec_sector_chunks(device, sector, chunks));
        Ok(data)
    }
}

/// Pads `out` with 0xFF to `size - 2` bytes and appends its big-endian
/// checksum.
fn seal(out: &mut Vec<u8>, size: usize)
    requires
        size >= 2,
    ensures
        final(out)@ == spec_sealed(old(out)@, size as nat),
{
    if out.len() < size - 2 {
        let more: usize = size - 2 - out.len();
        append_fill(out, 0xFF, more);
    }
    let crc = crc16(out.as_slice());
    out.push(hi(crc));
    out.push(lo(crc));
}

/// Whether `device` gives some reply to the call.
pub open spec fn spec_replies<D: Hidpp20Device>(
    device: &D,
    feature: SupportedFeature,
    function: u8,
    params: Seq<u8>,
) -> bool {
    exists|r: Seq<u8>| #[trigger] device.answers_feature(feature, function, params, Some(r))
}

/// Where profile headers are listed: the ROM (1) when the first four bytes
/// of the flash directory are all 0x00 or all 0xFF, else the flash (0).
pub open spec fn spec_header_src(first: Seq<u8>) -> u8 {
    if first.take(4) == spec_fill(0, 4) || first.take(4) == spec_fill(0xFF, 4) {
        1
    } else {
        0
    }
}

/// The read parameters of profile header `k` from `src`.
pub open spec fn spec_header_params(src: u8, k: int) -> Seq<u8> {
    seq![src, 0u8, 0u8, ((4 * k) % 256) as u8]
}

/// Whether header `k` read from `src` may be `h`: a reply of at least three
/// bytes that does not start with FF FF, holding the sector (big-endian)
/// and the enabled flag.
pub open spec fn spec_header_entry<D: Hidpp20Device>(device: &D, src: u8, k: int, h: (u16, u8)) -> bool {
    exists|chunk: Seq<u8>|
        #[trigger] device.answers_feature(
            SupportedFeature::OnboardProfiles,
            0x50,
            spec_header_params(src, k),
            Some(chunk),
        ) && chunk.len() >= 3 && !(chunk[0] == 0xFF && chunk[1] == 0xFF) && h == (
            crate::bytes::spec_be16(chunk[0], chunk[1]),
            chunk[2],
        )
}

/// Whether header `k` read from `src` may be the end marker FF FF.
pub open spec fn spec_header_end<D: Hidpp20Device>(device: &D, src: u8, k: int) -> bool {
    exists|chunk: Seq<u8>|
        #[trigger] device.answers_feature(
            SupportedFeature::OnboardProfiles,
            0x50,
            spec_header_params(src, k),
            Some(chunk),
        ) && chunk.len() >= 2 && chunk[0] == 0xFF && chunk[1] == 0xFF
}

/// Whether `headers` is what reading the profile headers may give: the
/// source chosen from the first directory chunk, then each header in turn
/// up to the end marker.
pub open spec fn spec_headers_read<D: Hidpp20Device>(device: &D, headers: Seq<(u16, u8)>) -> bool {
    exists|first: Seq<u8>|
        #[trigger] device.answers_feature(
            SupportedFeature::OnboardProfiles,
            0x50,
            spec_header_params(0, 0),
            Some(first),
        ) && first.len() >= 4 && (forall|k: int|
            0 <= k < headers.len() ==> spec_header_entry(
                device,
                spec_header_src(first),
                k,
                #[trigger] headers[k],
            )) && spec_header_end(device, spec_header_src(first), headers.len() as int)
}

/// Whether reading the profile headers may fail: the directory call fails
/// or replies with fewer than 4 bytes; or, from the source a directory
/// reply chooses, one of the first 16384 header calls fails or replies
/// with fewer than 3 bytes, or none of those headers is the end marker.
pub open spec fn spec_headers_fail<D: Hidpp20Device>(device: &D) -> bool {
    ||| spec_call_fails(device, 0x50, spec_header_params(0, 0), 4)
    ||| exists|first: Seq<u8>|
        #[trigger] device.answers_feature(
            SupportedFeature::OnboardProfiles,
            0x50,
            spec_header_params(0, 0),
            Some(first),
        ) && first.len() >= 4 && ((exists|k: int|
            0 <= k < 16384 && #[trigger] spec_call_fails(
                device,
                0x50,
                spec_header_params(spec_header_src(first), k),
                3,
            )) || (forall|k: int|
            0 <= k < 16384 ==> #[trigger] spec_header_listed(device, spec_header_src(first), k)))
}

/// Whether header `k` read from `src` may be a profile header rather than
/// the end marker.
pub open spec fn spec_header_listed<D: Hidpp20Device>(device: &D, src: u8, k: int) -> bool {
    exists|h: (u16, u8)| #[trigger] spec_header_entry(device, src, k, h)
}

/// The parameters that start writing `len` bytes to `sector`.
pub open spec fn spec_begin_params(sector: u16, len: int) -> Seq<u8> {
    seq![
        crate::bytes::spec_hi(sector),
        crate::bytes::spec_lo(sector),
        0u8,
        0u8,
        ((len / 256) % 256) as u8,
        (len % 256) as u8,
    ]
}

/// Chunk `j` of the bytes written: 16 bytes from `16 j`, the last one
/// padded with 0xFF.
pub open spec fn spec_write_chunk(data: Seq<u8>, j: int) -> Seq<u8> {
    let end = if 16 * j + 16 < data.len() {
        16 * j + 16
    } else {
        data.len() as int
    };
    let piece = data.subrange(16 * j, end);
    piece + spec_fill(0xFF, (16 - piece.len()) as nat)
}

/// Whether `current` already holds `data` but for the checksum.
pub open spec fn spec_same_content(current: Seq<u8>, data: Seq<u8>) -> bool {
    current.len() >= data.len() - 2 && current.take(data.len() - 2) == data.take(data.len() - 2)
}

/// Whether writing `data` to `sector` may be skipped: a read of the
/// sector gives the same content.
pub open spec fn spec_sector_unchanged<D: Hidpp20Device>(device: &D, sector: u16, data: Seq<u8>) -> bool {
    exists|current: Seq<u8>|
        #[trigger] spec_sector_read(device, sector, data.len() as int, current) && spec_same_content(
            current,
            data,
        )
}

/// Whether `data` may have been written to `sector`: a read gave other
/// content, and the device answered the start call, each 16-byte chunk and
/// the end call.
pub open spec fn spec_sector_written<D: Hidpp20Device>(device: &D, sector: u16, data: Seq<u8>) -> bool {
    &&& exists|current: Seq<u8>|
        #[trigger] spec_sector_read(device, sector, data.len() as int, current)
            && !spec_same_content(current, data)
    &&& spec_replies(
        device,
        SupportedFeature::OnboardProfiles,
        0x60,
        spec_begin_params(sector, data.len() as int),
    )
    &&& forall|j: int|
        0 <= j < (data.len() + 15) / 16 ==> spec_replies(
            device,
            SupportedFeature::OnboardProfiles,
            0x70,
            #[trigger] spec_write_chunk(data, j),
        )
    &&& spec_replies(device, SupportedFeature::OnboardProfiles, 0x80, seq![])
}

/// Whether writing `data` to `sector` may fail: the read of the sector
/// fails, or the start call, a chunk call or the end call fails.
pub open spec fn spec_sector_write_fails<D: Hidpp20Device>(device: &D, sector: u16, data: Seq<u8>) -> bool {
    ||| spec_sector_read_fails(device, sector, data.len() as int)
    ||| spec_call_fails(device, 0x60, spec_begin_params(sector, data.len() as int), 0)
    ||| exists|j: int|
        0 <= j < (data.len() + 15) / 16 && #[trigger] spec_call_fails(
            device,
            0x70,
            spec_write_chunk(data, j),
            0,
        )
    ||| spec_call_fails(device, 0x80, seq![], 0)
}

/// Whether `n` bytes of `a` and `b` agree.
fn prefix_eq(a: &[u8], b: &[u8], n: usize) -> (r: bool)
    requires
        n <= a@.len(),
        n <= b@.len(),
    ensures
        r == (a@.take(n as int) == b@.take(n as int)),
{
    let mut i: usize = 0;
    while i < n
        invariant
            i <= n,
            n <= a@.len(),
            n <= b@.len(),
            a@.take(i as int) == b@.take(i as int),
        decreases n - i,
    {
        if a[i] != b[i] {
            assert(a@.take(n as int)[i as int] != b@.take(n as int)[i as int]);
            return false;
        }
        i = i + 1;
        assert(a@.take(i as int) =~= b@.take(i as int));
    }
    true
}

impl OnboardProfiles {
    /// Read the profile headers (sector, enabled): from the flash
    /// directory, or from the ROM when the directory is blank, up to the
    /// end marker FF FF. A reply too short for what is read from it is a
    /// protocol error, and so is a list that never ends within 16384
    /// headers.
    fn get_profile_headers<D: Hidpp20Device>(device: &D) -> (r: Result<Vec<(u16, u8)>, Error>)
        ensures
            r matches Ok(headers) ==> spec_headers_read(device, headers@),
            r is Err ==> spec_headers_fail(device),
    {
        let zero = four(0, 0, 0, 0);
        assert(zero@ =~= spec_header_params(0, 0));
        let first = match feature_reply(device, SupportedFeature::OnboardProfiles, 0x50, zero.as_slice()) {
            Ok(c) => c,
            Err(e) => {
                assert(spec_call_fails(device, 0x50, spec_header_params(0, 0), 4));
                return Err(e);
            },
        };
        if first.len() < 4 {
            assert(spec_call_fails(device, 0x50, spec_header_params(0, 0), 4));
            return Err(protocol_error("short onboard profiles directory"));
        }
        let blank0 = first[0] == 0 && first[1] == 0 && first[2] == 0 && first[3] == 0;
        let blank1 = first[0] == 0xFF && first[1] == 0xFF && first[2] == 0xFF && first[3] == 0xFF;
        let src: u8 = if blank0 || blank1 {
            1
        } else {
            0
        };
        proof {
            let t = first@.take(4);
            if blank0 {
                assert(t =~= spec_fill(0, 4));
            }
            if blank1 {
                assert(t =~= spec_fill(0xFF, 4));
            }
            if !blank0 && !blank1 {
                if t == spec_fill(0, 4) {
                    assert(t[0] == 0 && t[1] == 0 && t[2] == 0 && t[3] == 0);
                }
                if t == spec_fill(0xFF, 4) {
                    assert(t[0] == 0xFF && t[1] == 0xFF && t[2] == 0xFF && t[3] == 0xFF);
                }
            }
            assert(src == spec_header_src(first@));
        }
        let mut headers: Vec<(u16, u8)> = Vec::new();
        let mut i: u32 = 0;
        while i < 16384
            invariant
                i <= 16384,
                headers@.len() == i,
                src == spec_header_src(first@),
                first@.len() >= 4,
                device.answers_feature(
                    SupportedFeature::OnboardProfiles,
                    0x50,
                    spec_header_params(0, 0),
                    Some(first@),
                ),
                forall|k: int|
                    0 <= k < headers@.len() ==> spec_header_entry(device, src, k, #[trigger] headers@[k]),
            decreases 16384 - i,
        {
            let p = four(src, 0, 0, ((i * 4) % 256) as u8);
            assert(p@ == spec_header_params(src, i as int));
            let chunk = match feature_reply(device, SupportedFeature::OnboardProfiles, 0x50, p.as_slice()) {
                Ok(c) => c,
                Err(e) => {
                    assert(spec_call_fails(device, 0x50, spec_header_params(src, i as int), 3));
                    assert(device.answers_feature(
                        SupportedFeature::OnboardProfiles,
                        0x50,
                        spec_header_params(0, 0),
                        Some(first@),
                    ));
                    return Err(e);
                },
            };
            if chunk.len() < 2 {
                assert(spec_call_fails(device, 0x50, spec_header_params(src, i as int), 3));
                assert(device.answers_feature(
                    SupportedFeature::OnboardProfiles,
                    0x50,
                    spec_header_params(0, 0),
                    Some(first@),
                ));
                return Err(protocol_error("short profile header"));
            }
            if chunk[0] == 0xFF && chunk[1] == 0xFF {
                assert(spec_header_end(device, src, headers@.len() as int));
                assert(device.answers_feature(
                    SupportedFeature::OnboardProfiles,
                    0x50,
                    spec_header_params(0, 0),
                    Some(first@),
                ));
                return Ok(headers);
            }
            if chunk.len() < 3 {
                assert(spec_call_fails(device, 0x50, spec_header_params(src, i as int), 3));
                assert(device.answers_feature(
                    SupportedFeature::OnboardProfiles,
                    0x50,
                    spec_header_params(0, 0),
                    Some(first@),
                ));
                return Err(protocol_error("short profile header"));
            }
            let h: (u16, u8) = (be16(chunk[0], chunk[1]), chunk[2]);
            assert(spec_header_entry(device, src, i as int, h));
            headers.push(h);
            i = i + 1;
        }
        assert forall|k: int| 0 <= k < 16384 implies #[trigger] spec_header_listed(device, src, k) by {
            assert(spec_header_entry(device, src, k, headers@[k]));
        }
        assert(device.answers_feature(
            SupportedFeature::OnboardProfiles,
            0x50,
            spec_header_params(0, 0),
            Some(first@),
        ));
        Err(protocol_error("profile header list does not end"))
    }

    /// Write `data` to `sector` unless it already holds the same content
    /// (the checksum aside): start call, 16-byte chunks padded with 0xFF,
    /// end call. Returns whether the sector was written.
    fn write_sector<D: Hidpp20Device>(device: &D, sector: u16, data: &[u8]) -> (r: Result<bool, Error>)
        requires
            data@.len() >= 2,
        ensures
            r matches Ok(false) ==> spec_sector_unchanged(device, sector, data@),
            r matches Ok(true) ==> spec_sector_written(device, sector, data@),
            r is Err ==> spec_sector_write_fails(device, sector, data@),
    {
        let len: usize = data.len();
        let current = Self::read_sector(device, sector, len)?;
        let same = current.len() >= len - 2 && prefix_eq(current.as_slice(), data, len - 2);
        if same {
            assert(spec_sector_read(device, sector, len as int, current@));
            return Ok(false);
        }
        assert(spec_sector_read(device, sector, len as int, current@));
        let mut begin: Vec<u8> = Vec::new();
        begin.push(hi(sector));
        begin.push(lo(sector));
        begin.push(0);
        begin.push(0);
        begin.push(((len / 256) % 256) as u8);
        begin.push((len % 256) as u8);
        assert(begin@ =~= spec_begin_params(sector, len as int));
        let a = match feature_reply(device, SupportedFeature::OnboardProfiles, 0x60, begin.as_slice()) {
            Ok(c) => c,
            Err(e) => {
                assert(spec_call_fails(device, 0x60, spec_begin_params(sector, len as int), 0));
                return Err(e);
            },
        };
        let mut offset: usize = 0;
        let mut j: usize = 0;
        while offset < len
            invariant
                len == data@.len(),
                offset <= len,
                offset == 16 * j || offset == len,
                j == (offset + 15) / 16,
                forall|k: int|
                    0 <= k < j ==> spec_replies(
                        device,
                        SupportedFeature::OnboardProfiles,
                        0x70,
                        #[trigger] spec_write_chunk(data@, k),
                    ),
            decreases len - offset,
        {
            let end: usize = if len - offset > 16 {
                offset + 16
            } else {
                len
            };
            let mut chunk = copy_range(data, offset, end);
            let n: usize = 16 - chunk.len();
            append_fill(&mut chunk, 0xFF, n);
            assert(chunk@ =~= spec_write_chunk(data@, j as int));
            let c = match feature_reply(device, SupportedFeature::OnboardProfiles, 0x70, chunk.as_slice()) {
                Ok(c) => c,
                Err(e) => {
                    assert(spec_call_fails(device, 0x70, spec_write_chunk(data@, j as int), 0));
                    return Err(e);
                },
            };
            assert(device.answers_feature(
                SupportedFeature::OnboardProfiles,
                0x70,
                spec_write_chunk(data@, j as int),
                Some(c@),
            ));
            offset = end;
            j = j + 1;
        }
        let none: Vec<u8> = Vec::new();
        assert(none@ =~= Seq::<u8>::empty());
        let e = match feature_reply(device, SupportedFeature::OnboardProfiles, 0x80, none.as_slice()) {
            Ok(c) => c,
            Err(e) => {
                assert(spec_call_fails(device, 0x80, seq![], 0));
                return Err(e);
            },
        };
        assert(device.answers_feature(SupportedFeature::OnboardProfiles, 0x60, spec_begin_params(sector, len as int), Some(a@)));
        assert(device.answers_feature(SupportedFeature::OnboardProfiles, 0x80, seq![], Some(e@)));
        Ok(true)
    }

    /// The control sector (sector 0): the profile directory in index
    /// order, the end marker, padding and checksum.
    pub fn control_sector_bytes(&self) -> (r: Vec<u8>)
        requires
            self.size >= 2,
        ensures
            r@ == spec_control_sector(self.profiles@, self.size as nat),
    {
        let mut out: Vec<u8> = Vec::new();
        let mut idx: u32 = 0;
        while idx < 256
            invariant
                idx <= 256,
                out@ == spec_directory(self.profiles@, idx as nat),
            decreases 256 - idx,
        {
            let key: u8 = idx as u8;
            assert(key == (idx as int) as u8);
            match self.profiles.get(&key) {
                Some(p) => {
                    out.push(hi(p.sector));
                    out.push(lo(p.sector));
                    out.push(p.enabled);
                    out.push(0);
                },
                None => {},
            }
            idx = idx + 1;
            assert(out@ =~= spec_directory(self.profiles@, idx as nat));
        }
        out.push(0xFF);
        out.push(0xFF);
        out.push(0);
        out.push(0);
        assert(out@ =~= spec_directory(self.profiles@, 256) + seq![0xFFu8, 0xFFu8, 0u8, 0u8]);
        seal(&mut out, self.size as usize);
        out
    }
}

/// Whether `p` may be the profile read for `header` (sector, enabled):
/// a read of `size` bytes of the sector, long enough for the layout, that
/// describes `p`.
pub open spec fn spec_profile_read<D: Hidpp20Device>(
    device: &D,
    header: (u16, u8),
    buttons: u8,
    gbuttons: u8,
    size: u16,
    p: OnboardProfile,
) -> bool {
    exists|data: Seq<u8>|
        #[trigger] spec_sector_read(device, header.0, size as int, data) && data.len() >= 252 && 32
            + 4 * buttons <= data.len() && 96 + 4 * gbuttons <= data.len() && spec_profile_from_bytes(
            header.0,
            header.1,
            buttons as nat,
            gbuttons as nat,
            data,
            p,
        )
}

/// The profile index of header `idx`: `idx + 1`, kept to a byte.
pub open spec fn spec_profile_key(idx: int) -> u8 {
    ((idx + 1) % 256) as u8
}

/// Whether `m` holds, under each header's index, a profile read for the
/// header (a later header with the same index byte replacing an earlier
/// one).
pub open spec fn spec_profiles_from<D: Hidpp20Device>(
    device: &D,
    headers: Seq<(u16, u8)>,
    buttons: u8,
    gbuttons: u8,
    size: u16,
    m: Map<u8, OnboardProfile>,
) -> bool {
    &&& forall|idx: int| 0 <= idx < headers.len() ==> m.contains_key(#[trigger] spec_profile_key(idx))
    &&& forall|k: u8|
        #[trigger] m.contains_key(k) ==> exists|idx: int|
            0 <= idx < headers.len() && spec_profile_key(idx) == k && #[trigger] spec_profile_read(
                device,
                headers[idx],
                buttons,
                gbuttons,
                size,
                m[k],
            )
}

/// Whether `ps` is what reading the profile set of `device` may give:
/// the description reply (flash memory, a known profile format), its
/// counts and sector size, and the profiles of the headers.
pub open spec fn spec_profiles_read<D: Hidpp20Device>(device: &D, ps: OnboardProfiles) -> bool {
    &&& exists|d: Seq<u8>|
        #[trigger] device.answers_feature(
            SupportedFeature::OnboardProfiles,
            0x00,
            crate::bytes::bytes0(),
            Some(d),
        ) && d.len() >= 10 && d[0] == 1 && d[1] <= 5 && ps.count == d[3] && ps.buttons == d[5]
            && ps.sectors == d[6] && ps.size == crate::bytes::spec_be16(d[7], d[8]) && ps.gbuttons
            == (if d[9] & 3 == 2 {
            d[5]
        } else {
            0
        })
    &&& exists|headers: Seq<(u16, u8)>|
        #[trigger] spec_headers_read(device, headers) && spec_profiles_from(
            device,
            headers,
            ps.buttons,
            ps.gbuttons,
            ps.size,
            ps.profiles@,
        )
}

/// Whether reading the profile in `sector` may fail: the sector read fails,
/// or it gives fewer bytes than the profile layout needs.
pub open spec fn spec_profile_sector_fails<D: Hidpp20Device>(
    device: &D,
    sector: u16,
    size: u16,
    buttons: u8,
    gbuttons: u8,
) -> bool {
    ||| spec_sector_read_fails(device, sector, size as int)
    ||| exists|data: Seq<u8>|
        #[trigger] spec_sector_read(device, sector, size as int, data) && (data.len() < 252 || 32 + 4
            * buttons > data.len() || 96 + 4 * gbuttons > data.len())
}

/// Whether reading the profile set may fail: the description call fails or
/// replies with fewer than 10 bytes; or, with a description of profiles in
/// flash in a known format, reading the headers fails, or reading the
/// profile of one of the headers read fails.
pub open spec fn spec_profiles_fail<D: Hidpp20Device>(device: &D) -> bool {
    ||| spec_call_fails(device, 0x00, crate::bytes::bytes0(), 10)
    ||| exists|d: Seq<u8>|
        #[trigger] device.answers_feature(
            SupportedFeature::OnboardProfiles,
            0x00,
            crate::bytes::bytes0(),
            Some(d),
        ) && d.len() >= 10 && d[0] == 1 && d[1] <= 5 && (spec_headers_fail(device) || exists|
            headers: Seq<(u16, u8)>,
            idx: int,
        |
            #[trigger] spec_headers_read(device, headers) && 0 <= idx < headers.len()
                && #[trigger] spec_profile_sector_fails(
                device,
                headers[idx].0,
                crate::bytes::spec_be16(d[7], d[8]),
                d[5],
                spec_shifted_buttons(d),
            ))
}

/// The count of G-shifted buttons a profile description `d` gives: the
/// button count when its shift mode is 2, else none.
pub open spec fn spec_shifted_buttons(d: Seq<u8>) -> u8 {
    if d[9] & 3 == 2 {
        d[5]
    } else {
        0
    }
}

/// Whether `data` may be in `sector` after writing it: skipped as
/// unchanged, or written.
pub open spec fn spec_sector_stored<D: Hidpp20Device>(device: &D, sector: u16, data: Seq<u8>) -> bool {
    spec_sector_unchanged(device, sector, data) || spec_sector_written(device, sector, data)
}

impl OnboardProfiles {
    /// Read the profile set of a device: `None` when its profiles are not
    /// in flash memory or have an unknown format. A reply too short for
    /// what is read from it is a protocol error.
    pub fn from_device<D: Hidpp20Device>(device: &D, device_name: &str) -> (r: Result<
        Option<Self>,
        Error,
    >)
        ensures
            r matches Ok(None) ==> exists|d: Seq<u8>|
                #[trigger] device.answers_feature(
                    SupportedFeature::OnboardProfiles,
                    0x00,
                    crate::bytes::bytes0(),
                    Some(d),
                ) && d.len() >= 10 && (d[0] != 1 || d[1] > 5),
            r matches Ok(Some(ps)) ==> ps.version == ONBOARD_PROFILES_VERSION && ps.device_name@
                == device_name@ && spec_profiles_read(device, ps),
            r is Err ==> spec_profiles_fail(device),
    {
        let none: Vec<u8> = Vec::new();
        assert(none@ =~= crate::bytes::bytes0());
        let response = match feature_reply(device, SupportedFeature::OnboardProfiles, 0x00, none.as_slice()) {
            Ok(c) => c,
            Err(e) => {
                assert(spec_call_fails(device, 0x00, crate::bytes::bytes0(), 10));
                return Err(e);
            },
        };
        if response.len() < 10 {
            assert(spec_call_fails(device, 0x00, crate::bytes::bytes0(), 10));
            return Err(protocol_error("short onboard profiles description"));
        }
        let memory: u8 = response[0];
        let profile_type: u8 = response[1];
        if memory != 0x01 || profile_type > 0x05 {
            return Ok(None);
        }
        let count: u8 = response[3];
        let buttons: u8 = response[5];
        let sectors: u8 = response[6];
        let size: u16 = be16(response[7], response[8]);
        let shift: u8 = response[9];
        let gbuttons: u8 = if shift & 0x3 == 0x2 {
            buttons
        } else {
            0
        };
        let headers = match Self::get_profile_headers(device) {
            Ok(h) => h,
            Err(e) => {
                assert(device.answers_feature(
                    SupportedFeature::OnboardProfiles,
                    0x00,
                    crate::bytes::bytes0(),
                    Some(response@),
                ));
                return Err(e);
            },
        };
        let mut profiles: HashMap<u8, OnboardProfile> = HashMap::new();
        let mut idx: usize = 0;
        while idx < headers.len()
            invariant
                idx <= headers@.len(),
                spec_headers_read(device, headers@),
                device.answers_feature(
                    SupportedFeature::OnboardProfiles,
                    0x00,
                    crate::bytes::bytes0(),
                    Some(response@),
                ),
                response@.len() >= 10,
                response@[0] == 1,
                response@[1] <= 5,
                size == crate::bytes::spec_be16(response@[7], response@[8]),
                buttons == response@[5],
                gbuttons == spec_shifted_buttons(response@),
                forall|i: int| 0 <= i < idx ==> profiles@.contains_key(#[trigger] spec_profile_key(i)),
                forall|k: u8|
                    #[trigger] profiles@.contains_key(k) ==> exists|i: int|
                        0 <= i < idx && spec_profile_key(i) == k && #[trigger] spec_profile_read(
                            device,
                            headers@[i],
                            buttons,
                            gbuttons,
                            size,
                            profiles@[k],
                        ),
            decreases headers@.len() - idx,
        {
            let (sector, enabled) = headers[idx];
            let data = match Self::read_sector(device, sector, size as usize) {
                Ok(d) => d,
                Err(e) => {
                    assert(spec_profile_sector_fails(device, headers@[idx as int].0, size, buttons, gbuttons));
                    return Err(e);
                },
            };
            if data.len() < 252 || 32 + 4 * (buttons as usize) > data.len() || 96 + 4 * (gbuttons as usize)
                > data.len() {
                assert(spec_profile_sector_fails(device, headers@[idx as int].0, size, buttons, gbuttons));
                return Err(protocol_error("short profile sector"));
            }
            let profile = OnboardProfile::from_bytes(
                sector,
                enabled,
                buttons as usize,
                gbuttons as usize,
                data.as_slice(),
            );
            let key: u8 = ((idx + 1) % 256) as u8;
            assert(key == spec_profile_key(idx as int));
            assert(spec_profile_read(device, headers@[idx as int], buttons, gbuttons, size, profile));
            let ghost old_m = profiles@;
            profiles.insert(key, profile);
            assert forall|k: u8| #[trigger] profiles@.contains_key(k) implies exists|i: int|
                0 <= i < idx + 1 && spec_profile_key(i) == k && #[trigger] spec_profile_read(
                    device,
                    headers@[i],
                    buttons,
                    gbuttons,
                    size,
                    profiles@[k],
                ) by {
                if k == key {
                    assert(spec_profile_read(device, headers@[idx as int], buttons, gbuttons, size, profiles@[k]));
                } else {
                    assert(old_m.contains_key(k));
                    assert(profiles@[k] == old_m[k]);
                }
            }
            idx = idx + 1;
        }
        let ps = OnboardProfiles {
            version: ONBOARD_PROFILES_VERSION,
            device_name: String::from_str(device_name),
            count,
            buttons,
            gbuttons,
            sectors,
            size,
            profiles,
        };
        assert(device.answers_feature(
            SupportedFeature::OnboardProfiles,
            0x00,
            crate::bytes::bytes0(),
            Some(response@),
        ));
        assert(spec_headers_read(device, headers@));
        Ok(Some(ps))
    }

    /// Write the profile set back: the control sector first, then each
    /// profile's sector in index order. A profile whose sector is not below
    /// the writable sector count is refused. Returns how many sectors were
    /// written (the others already held the same content).
    pub fn write<D: Hidpp20Device>(&self, device: &D) -> (r: Result<usize, Error>)
        requires
            2 <= self.size,
        ensures
            r matches Ok(n) ==> n <= 1 + spec_profiles_below(self.profiles@, 256) && spec_sector_stored(
                device,
                0,
                spec_control_sector(self.profiles@, self.size as nat),
            ) && forall|k: u8|
                #[trigger] self.profiles@.contains_key(k) ==> self.profiles@[k].sector < self.sectors
                    && spec_sector_stored(
                    device,
                    self.profiles@[k].sector,
                    spec_profile_to_bytes(self.profiles@[k], self.size as nat),
                ),
            r is Err ==> spec_sector_write_fails(
                device,
                0,
                spec_control_sector(self.profiles@, self.size as nat),
            ) || exists|k: u8|
                #[trigger] self.profiles@.contains_key(k) && (self.profiles@[k].sector >= self.sectors
                    || spec_sector_write_fails(
                    device,
                    self.profiles@[k].sector,
                    spec_profile_to_bytes(self.profiles@[k], self.size as nat),
                )),
    {
        let mut written: usize = 0;
        let ctrl = self.control_sector_bytes();
        proof {
            lemma_sealed_len(spec_directory(self.profiles@, 256) + seq![0xFFu8, 0xFFu8, 0u8, 0u8], self.size as nat);
        }
        if Self::write_sector(device, 0, ctrl.as_slice())? {
            written = written + 1;
        }
        let mut idx: u32 = 0;
        while idx < 256
            invariant
                idx <= 256,
                written <= 1 + spec_profiles_below(self.profiles@, idx as nat),
                spec_profiles_below(self.profiles@, idx as nat) <= idx,
                2 <= self.size,
                forall|k: u8|
                    #[trigger] self.profiles@.contains_key(k) && k < idx ==> self.profiles@[k].sector
                        < self.sectors && spec_sector_stored(
                        device,
                        self.profiles@[k].sector,
                        spec_profile_to_bytes(self.profiles@[k], self.size as nat),
                    ),
            decreases 256 - idx,
        {
            let key: u8 = idx as u8;
            match self.profiles.get(&key) {
                Some(p) => {
                    assert(self.profiles@.contains_key(key));
                    if p.sector as usize >= self.sectors as usize {
                        let mut msg = String::from_str("sector ");
                        push_decimal(&mut msg, p.sector as u64);
                        msg.append(" is not writable");
                        return Err(Error::Protocol(msg));
                    }
                    let bytes = p.to_bytes(self.size as usize);
                    proof {
                        lemma_sealed_len(spec_profile_body(*p), self.size as nat);
                    }
                    if Self::write_sector(device, p.sector, bytes.as_slice())? {
                        written = written + 1;
                    }
                },
                None => {},
            }
            idx = idx + 1;
        }
        Ok(written)
    }
}

/// The number of profiles with an index below `k`.
pub open spec fn spec_profiles_below(m: Map<u8, OnboardProfile>, k: nat) -> nat
    decreases k,
{
    if k == 0 {
        0
    } else {
        spec_profiles_below(m, (k - 1) as nat) + if m.contains_key((k - 1) as u8) {
            1nat
        } else {
            0nat
        }
    }
}

/// A sealed sector has at least `size` bytes, and two more than its body
/// when the body is longer.
pub proof fn lemma_sealed_len(body: Seq<u8>, size: nat)
    requires
        size >= 2,
    ensures
        spec_sealed(body, size).len() >= 2,
        body.len() <= size - 2 ==> spec_sealed(body, size).len() == size,
{
}

} // verus!
