//! Receiver operations (Unifying, Bolt, Nano receivers): the information
//! registers, paired-device slots, the pairing lock, link notifications and
//! notification flags, made through any object that speaks HID++ 1.0 to the
//! receiver; and the `Receiver` that makes them over a HID++ channel.

use vstd::prelude::*;
use crate::base::{HidppChannel, ProtocolVersion, RequestOptions};
use crate::base_usb::{ReceiverInfo, ReceiverKind};
use crate::bytes::{bytes0, bytes1, spec_be16, spec_byte_or};
use crate::common::FirmwareInfo;
use crate::device::PairingInfo;
use crate::error::Error;
use crate::hidpp10::{
    extract_codename, extract_connection_count, extract_max_devices, extract_polling_rate,
    extract_power_switch_location, extract_remaining_pairings, extract_serial, opt_view,
    read_register, set_configuration_pending_flags, spec_read_id, spec_write_id, write_register,
    Hidpp10, Hidpp10Device,
};
use crate::hidpp10_constants::{DeviceKind, NotificationFlag, PowerSwitchLocation, Register};

verus! {

/// The information sub-register of the receiver itself.
pub const RECEIVER_INFORMATION: u8 = 0x03;

/// The first pairing-information sub-register (slot 1).
pub const PAIRING_INFORMATION: u8 = 0x20;

/// The first extended pairing-information sub-register (slot 1).
pub const EXTENDED_PAIRING_INFORMATION: u8 = 0x30;

/// The first device-name sub-register (slot 1).
pub const DEVICE_NAME: u8 = 0x40;

/// A one-byte read of RECEIVER_INFO sub-register `sub`.
fn read_info<D: Hidpp10Device>(receiver: &D, sub: u8) -> (r: Result<Option<Vec<u8>>, Error>)
    ensures
        r matches Ok(o) ==> receiver.answers_request(
            spec_read_id(Register::ReceiverInfo),
            bytes1(sub),
            opt_view(o),
        ),
        r matches Err(e) ==> receiver.rejects_request(spec_read_id(Register::ReceiverInfo), bytes1(sub), e),
{
    let mut p: Vec<u8> = Vec::new();
    p.push(sub);
    assert(p@ =~= bytes1(sub));
    read_register(receiver, Register::ReceiverInfo, p.as_slice())
}

/// What reading the receiver information may give: the serial (bytes 1-4
/// in upper case hexadecimal) and the device count (byte 6, clamped to
/// 1..6) of a reply of at least five bytes; else no serial and the count of
/// the receiver's model.
pub open spec fn spec_receiver_identity(reply: Option<Seq<u8>>, model_max: u8, serial: Option<Seq<char>>, max: u8) -> bool {
    match reply {
        Some(d) => if d.len() >= 5 {
            serial == Some(crate::text::spec_hex_bytes(d.subrange(1, 5), true, seq![]))
                && max == crate::hidpp10::spec_max_devices(d)
        } else {
            serial is None && max == model_max
        },
        None => serial is None && max == model_max,
    }
}

/// Read the receiver's serial and device count, then tell it that software
/// is present (configuration pending flags 0xFF). A failed or short read
/// leaves the serial unknown and the model's device count.
pub fn initialize<D: Hidpp10Device>(receiver: &D, model_max: u8) -> (r: (Option<String>, u8))
    ensures
        spec_request_made(receiver, spec_write_id(Register::DevicesConfiguration), crate::bytes::bytes1(0xFF)),
        (r.0 is None && r.1 == model_max && exists|e: Error|
            #[trigger] receiver.rejects_request(spec_read_id(Register::ReceiverInfo), bytes1(RECEIVER_INFORMATION), e))
            || (exists|reply: Option<Seq<u8>>|
            #[trigger] receiver.answers_request(
                spec_read_id(Register::ReceiverInfo),
                bytes1(RECEIVER_INFORMATION),
                reply,
            ) && spec_receiver_identity(
                reply,
                model_max,
                match r.0 {
                    Some(s) => Some(s@),
                    None => None,
                },
                r.1,
            )),
{
    let reply = read_info(receiver, RECEIVER_INFORMATION);
    let mut serial: Option<String> = None;
    let mut max: u8 = model_max;
    if let Ok(Some(data)) = &reply {
        assert(receiver.answers_request(
            spec_read_id(Register::ReceiverInfo),
            bytes1(RECEIVER_INFORMATION),
            Some(data@),
        ));
        if data.len() >= 5 {
            let s = extract_serial(data.as_slice());
            let m = extract_max_devices(data.as_slice());
            if 1 <= m && m <= 6 {
                max = m;
            }
            assert(spec_receiver_identity(Some(data@), model_max, Some(s@), max));
            serial = Some(s);
        } else {
            assert(spec_receiver_identity(Some(data@), model_max, None, max));
        }
    }
    match &reply {
        Ok(o) => {
            assert(receiver.answers_request(spec_read_id(Register::ReceiverInfo), bytes1(RECEIVER_INFORMATION), opt_view(*o)));
            if o.is_none() {
                assert(spec_receiver_identity(None, model_max, None, max));
            }
        },
        Err(e) => {
            assert(receiver.rejects_request(spec_read_id(Register::ReceiverInfo), bytes1(RECEIVER_INFORMATION), *e));
        },
    }
    let pending = set_configuration_pending_flags(receiver, 0xFF);
    match pending {
        Ok(_) => {},
        Err(e) => {
            assert(receiver.rejects_request(spec_write_id(Register::DevicesConfiguration), crate::bytes::bytes1(0xFF), e));
        },
    }
    (serial, max)
}

/// The codename a DEVICE_NAME reply gives: `None` for no reply, a reply too
/// short for its length byte, or a name that is not UTF-8.
pub open spec fn spec_codename_of(reply: Option<Seq<u8>>, name: Option<String>) -> bool {
    match reply {
        None => name is None,
        Some(d) => match crate::hidpp10::spec_codename_bytes(d) {
            None => name is None,
            Some(b) => (name is Some <==> vstd::utf8::valid_utf8(b)) && (name matches Some(s) ==> s@
                == vstd::utf8::decode_utf8(b)),
        },
    }
}

/// Read the codename of the device in slot `n`.
pub fn device_codename<D: Hidpp10Device>(receiver: &D, n: u8) -> (r: Result<Option<String>, Error>)
    requires
        DEVICE_NAME + n <= 0x100,
    ensures
        r matches Ok(name) ==> exists|reply: Option<Seq<u8>>|
            #[trigger] receiver.answers_request(
                spec_read_id(Register::ReceiverInfo),
                bytes1((DEVICE_NAME + n - 1) as u8),
                reply,
            ) && spec_codename_of(reply, name),
        r matches Err(e) ==> receiver.rejects_request(
            spec_read_id(Register::ReceiverInfo),
            bytes1((DEVICE_NAME + n - 1) as u8), e),
{
    let sub: u8 = (DEVICE_NAME - 1) + n;
    assert(sub == (DEVICE_NAME + n - 1) as u8);
    let reply = read_info(receiver, sub)?;
    let name = match &reply {
        Some(data) => extract_codename(data.as_slice()),
        None => None,
    };
    assert(receiver.answers_request(spec_read_id(Register::ReceiverInfo), bytes1(sub), opt_view(reply)));
    Ok(name)
}

/// Whether the request (`request_id`, `params`) may have been made: the
/// object may answer it or fail it.
pub open spec fn spec_request_made<D: Hidpp10Device>(device: &D, request_id: u16, params: Seq<u8>) -> bool {
    (exists|o: Option<Seq<u8>>| #[trigger] device.answers_request(request_id, params, o)) || (exists|e: Error|
        #[trigger] device.rejects_request(request_id, params, e))
}

/// The number of connected devices: byte 1 of the RECEIVER_CONNECTION
/// reply; 0 when the receiver does not answer.
pub fn count<D: Hidpp10Device>(receiver: &D) -> (r: u8)
    ensures
        (exists|d: Seq<u8>|
            #[trigger] receiver.answers_request(
                spec_read_id(Register::ReceiverConnection),
                bytes0(),
                Some(d),
            ) && r == spec_byte_or(d, 1, 0)) || (r == 0 && ((exists|e: Error|
            receiver.rejects_request(spec_read_id(Register::ReceiverConnection), bytes0(), e))
            || receiver.answers_request(spec_read_id(Register::ReceiverConnection), bytes0(), None))),
{
    let none: Vec<u8> = Vec::new();
    assert(none@ =~= bytes0());
    match read_register(receiver, Register::ReceiverConnection, none.as_slice()) {
        Ok(Some(data)) => {
            assert(receiver.answers_request(
                spec_read_id(Register::ReceiverConnection),
                bytes0(),
                Some(data@),
            ));
            extract_connection_count(data.as_slice())
        },
        Ok(None) => {
            assert(receiver.answers_request(spec_read_id(Register::ReceiverConnection), bytes0(), None));
            0
        },
        Err(_) => 0,
    }
}

/// The wireless product ID in a PAIRING_INFORMATION reply: bytes 3-4,
/// big-endian, a missing byte read as 0.
pub open spec fn spec_pairing_wpid(d: Seq<u8>) -> u16 {
    spec_be16(spec_byte_or(d, 3, 0), spec_byte_or(d, 4, 0))
}

/// Whether `info` is what the pairing registers of slot `n` describe:
/// the pairing reply `pair` (wireless product ID, polling rate, kind in
/// byte 7), the extended reply (serial when it is at least five bytes long,
/// power switch location) and the codename reply.
pub open spec fn spec_pairing_info<D: Hidpp10Device>(receiver: &D, n: u8, pair: Seq<u8>, info: PairingInfo) -> bool {
    &&& info.wpid == spec_pairing_wpid(pair)
    &&& info.polling_rate == Some(spec_byte_or(pair, 2, 0))
    &&& info.kind == Some(crate::hidpp10_constants::spec_device_kind(spec_byte_or(pair, 7, 0)))
    &&& exists|ext: Option<Seq<u8>>|
        #[trigger] receiver.answers_request(
            spec_read_id(Register::ReceiverInfo),
            bytes1((EXTENDED_PAIRING_INFORMATION + n - 1) as u8),
            ext,
        ) && match ext {
            None => info.serial is None && info.power_switch is None,
            Some(e) => (if e.len() >= 5 {
                info.serial matches Some(s) && s@ == crate::text::spec_hex_bytes(
                    e.subrange(1, 5),
                    true,
                    seq![],
                )
            } else {
                info.serial is None
            }) && info.power_switch == Some(
                crate::hidpp10_constants::spec_power_switch_location(spec_byte_or(e, 9, 0) & 0x0F),
            ),
        }
    &&& exists|c: Option<Seq<u8>>|
        #[trigger] receiver.answers_request(
            spec_read_id(Register::ReceiverInfo),
            bytes1((DEVICE_NAME + n - 1) as u8),
            c,
        ) && spec_codename_of(c, info.codename)
}

/// What the receiver information gives: from a reply of five bytes or
/// more, the serial as the eight upper-case hexadecimal digits of bytes 1
/// to 4 in order and the device count of byte 6 (from 1 to 6); from no
/// reply or a shorter one, no serial and the model's count.
pub proof fn lemma_receiver_identity_fields(reply: Option<Seq<u8>>, model_max: u8, serial: Option<Seq<char>>, max: u8)
    requires
        spec_receiver_identity(reply, model_max, serial, max),
    ensures
        reply is Some && reply->0.len() >= 5 ==> ({
            let d = reply->0;
            &&& serial is Some
            &&& serial->0.len() == 8
            &&& forall|k: int| 0 <= k < 4 ==> crate::text::spec_shows_byte(serial->0, 2 * k, #[trigger] d[1 + k])
            &&& 1 <= max <= 6
            &&& d.len() > 6 && 1 <= d[6] <= 6 ==> max == d[6]
        }),
        !(reply is Some && reply->0.len() >= 5) ==> serial is None && max == model_max,
{
    if let Some(d) = reply {
        if d.len() >= 5 {
            let part = d.subrange(1, 5);
            let none: Seq<char> = seq![];
            crate::text::lemma_hex_bytes_digits(part, none);
            assert forall|k: int| 0 <= k < 4 implies crate::text::spec_shows_byte(
                serial->0,
                2 * k,
                #[trigger] d[1 + k],
            ) by {
                assert(part[k] == d[1 + k]);
                assert(none.len() == 0);
                assert(k * (2 + none.len()) == 2 * k) by (nonlinear_arith)
                    requires
                        none.len() == 0,
                ;
            }
        }
    }
}

/// What a pairing reply gives of a paired device: the wireless product ID
/// of bytes 3 and 4 (high byte first), the polling rate of byte 2 and the
/// kind of byte 7.
pub proof fn lemma_pairing_info_fields<D: Hidpp10Device>(receiver: &D, n: u8, pair: Seq<u8>, info: PairingInfo)
    requires
        pair.len() >= 8,
        spec_pairing_info(receiver, n, pair, info),
    ensures
        info.wpid as int == pair[3] as int * 256 + pair[4] as int,
        info.polling_rate == Some(pair[2]),
        info.kind == Some(crate::hidpp10_constants::spec_device_kind(pair[7])),
{
}

/// Whether `r` may be what asking the receiver for slot `n` gives: nothing
/// when the pairing register answer is missing or gives wpid 0; a device
/// (with a non-zero wpid) built from a pairing register answer; an error
/// that one of the three register reads may give.
pub open spec fn spec_slot_answer<D: Hidpp10Device>(receiver: &D, n: u8, r: Result<Option<PairingInfo>, Error>) -> bool {
    match r {
        Ok(None) => exists|pair: Option<Seq<u8>>|
            #[trigger] receiver.answers_request(
                spec_read_id(Register::ReceiverInfo),
                bytes1((PAIRING_INFORMATION + n - 1) as u8),
                pair,
            ) && (pair matches Some(d) ==> spec_pairing_wpid(d) == 0),
        Ok(Some(info)) => info.wpid != 0 && exists|pair: Seq<u8>|
            #[trigger] receiver.answers_request(
                spec_read_id(Register::ReceiverInfo),
                bytes1((PAIRING_INFORMATION + n - 1) as u8),
                Some(pair),
            ) && spec_pairing_info(receiver, n, pair, info),
        Err(e) => receiver.rejects_request(
            spec_read_id(Register::ReceiverInfo),
            bytes1((PAIRING_INFORMATION + n - 1) as u8),
            e,
        ) || receiver.rejects_request(
            spec_read_id(Register::ReceiverInfo),
            bytes1((EXTENDED_PAIRING_INFORMATION + n - 1) as u8),
            e,
        ) || receiver.rejects_request(spec_read_id(Register::ReceiverInfo), bytes1((DEVICE_NAME + n - 1) as u8), e),
    }
}

/// Read what the receiver knows of the device in slot `n`: `None` when
/// the slot is empty (no pairing reply, or a wireless product ID of 0).
pub fn paired_device_info<D: Hidpp10Device>(receiver: &D, n: u8) -> (r: Result<Option<PairingInfo>, Error>)
    requires
        DEVICE_NAME + n <= 0x100,
    ensures
        spec_slot_answer(receiver, n, r),
        r matches Ok(None) ==> exists|pair: Option<Seq<u8>>|
            #[trigger] receiver.answers_request(
                spec_read_id(Register::ReceiverInfo),
                bytes1((PAIRING_INFORMATION + n - 1) as u8),
                pair,
            ) && (pair matches Some(d) ==> spec_pairing_wpid(d) == 0),
        r matches Ok(Some(info)) ==> info.wpid != 0 && exists|pair: Seq<u8>|
            #[trigger] receiver.answers_request(
                spec_read_id(Register::ReceiverInfo),
                bytes1((PAIRING_INFORMATION + n - 1) as u8),
                Some(pair),
            ) && spec_pairing_info(receiver, n, pair, info),
        r matches Err(e) ==> receiver.rejects_request(
            spec_read_id(Register::ReceiverInfo),
            bytes1((PAIRING_INFORMATION + n - 1) as u8), e) || receiver.rejects_request(
            spec_read_id(Register::ReceiverInfo),
            bytes1((EXTENDED_PAIRING_INFORMATION + n - 1) as u8), e) || receiver.rejects_request(spec_read_id(Register::ReceiverInfo), bytes1((DEVICE_NAME + n - 1) as u8), e),
{
    let sub: u8 = (PAIRING_INFORMATION - 1) + n;
    assert(sub == (PAIRING_INFORMATION + n - 1) as u8);
    let pair = match read_info(receiver, sub)? {
        Some(d) => d,
        None => {
            assert(receiver.answers_request(spec_read_id(Register::ReceiverInfo), bytes1(sub), None));
            return Ok(None);
        },
    };
    assert(receiver.answers_request(spec_read_id(Register::ReceiverInfo), bytes1(sub), Some(pair@)));
    let wpid: u16 = crate::bytes::be16(
        crate::bytes::byte_or(pair.as_slice(), 3, 0),
        crate::bytes::byte_or(pair.as_slice(), 4, 0),
    );
    if wpid == 0 {
        return Ok(None);
    }
    let polling_rate = extract_polling_rate(pair.as_slice());
    let kind = DeviceKind::from(crate::bytes::byte_or(pair.as_slice(), 7, 0));
    let ext_sub: u8 = (EXTENDED_PAIRING_INFORMATION - 1) + n;
    assert(ext_sub == (EXTENDED_PAIRING_INFORMATION + n - 1) as u8);
    let ext_info = read_info(receiver, ext_sub)?;
    assert(receiver.answers_request(spec_read_id(Register::ReceiverInfo), bytes1(ext_sub), opt_view(ext_info)));
    let (serial, power_switch) = match &ext_info {
        Some(d) => {
            let serial = if d.len() >= 5 {
                Some(extract_serial(d.as_slice()))
            } else {
                None
            };
            (serial, Some(PowerSwitchLocation::from(extract_power_switch_location(d.as_slice()))))
        },
        None => (None, None),
    };
    let codename = device_codename(receiver, n)?;
    let info = PairingInfo {
        wpid,
        kind: Some(kind),
        serial,
        polling_rate: Some(polling_rate),
        power_switch,
        codename,
    };
    assert(spec_pairing_info(receiver, n, pair@, info));
    Ok(Some(info))
}

/// The pairing-lock action byte: close (2) or open (1).
pub open spec fn spec_lock_action(lock_closed: bool) -> u8 {
    if lock_closed {
        0x02
    } else {
        0x01
    }
}

/// Open (`lock_closed` false) or close the pairing window for slot `device`
/// (0 for any) with a timeout in seconds.
pub fn set_lock<D: Hidpp10Device>(receiver: &D, lock_closed: bool, device: u8, timeout: u8) -> (r: Result<(), Error>)
    ensures
        r is Ok ==> exists|o: Option<Seq<u8>>|
            #[trigger] receiver.answers_request(
                spec_write_id(Register::ReceiverPairing),
                crate::bytes::bytes3(spec_lock_action(lock_closed), device, timeout),
                o,
            ),
        r matches Err(e) ==> receiver.rejects_request(
            spec_write_id(Register::ReceiverPairing),
            crate::bytes::bytes3(spec_lock_action(lock_closed), device, timeout), e),
{
    let action: u8 = if lock_closed {
        0x02
    } else {
        0x01
    };
    let mut v: Vec<u8> = Vec::new();
    v.push(action);
    v.push(device);
    v.push(timeout);
    assert(v@ =~= crate::bytes::bytes3(spec_lock_action(lock_closed), device, timeout));
    let o = write_register(receiver, Register::ReceiverPairing, v.as_slice())?;
    assert(receiver.answers_request(spec_write_id(Register::ReceiverPairing), v@, opt_view(o)));
    Ok(())
}

/// Unpair the device in slot `number`.
pub fn unpair_device<D: Hidpp10Device>(receiver: &D, number: u8) -> (r: Result<(), Error>)
    ensures
        r is Ok ==> exists|o: Option<Seq<u8>>|
            #[trigger] receiver.answers_request(
                spec_write_id(Register::ReceiverPairing),
                crate::bytes::bytes2(0x03u8, number),
                o,
            ),
        r matches Err(e) ==> receiver.rejects_request(spec_write_id(Register::ReceiverPairing), crate::bytes::bytes2(0x03u8, number), e),
{
    let mut v: Vec<u8> = Vec::new();
    v.push(0x03);
    v.push(number);
    assert(v@ =~= crate::bytes::bytes2(0x03u8, number));
    let o = write_register(receiver, Register::ReceiverPairing, v.as_slice())?;
    assert(receiver.answers_request(spec_write_id(Register::ReceiverPairing), v@, opt_view(o)));
    Ok(())
}

/// Ask the receiver to send link notifications for all paired devices;
/// `false` when it did not answer.
pub fn notify_devices<D: Hidpp10Device>(receiver: &D) -> (r: Result<bool, Error>)
    ensures
        r matches Ok(b) ==> exists|o: Option<Seq<u8>>|
            #[trigger] receiver.answers_request(
                spec_write_id(Register::ReceiverConnection),
                bytes1(0x02),
                o,
            ) && b == o is Some,
        r matches Err(e) ==> receiver.rejects_request(spec_write_id(Register::ReceiverConnection), bytes1(0x02), e),
{
    let mut v: Vec<u8> = Vec::new();
    v.push(0x02);
    assert(v@ =~= bytes1(0x02));
    let o = write_register(receiver, Register::ReceiverConnection, v.as_slice())?;
    assert(receiver.answers_request(spec_write_id(Register::ReceiverConnection), bytes1(0x02), opt_view(o)));
    Ok(o.is_some())
}

/// How many more devices can be paired (-1 for no limit), read from
/// RECEIVER_CONNECTION when nothing is cached or `refresh` asks it; the
/// cached value stays when the receiver does not answer.
pub fn remaining_pairings<D: Hidpp10Device>(receiver: &D, cached: Option<i32>, refresh: bool) -> (r: Result<
    Option<i32>,
    Error,
>)
    ensures
        cached is Some && !refresh ==> r == Ok::<Option<i32>, Error>(cached),
        r matches Ok(v) ==> v == cached || exists|d: Seq<u8>|
            #[trigger] receiver.answers_request(
                spec_read_id(Register::ReceiverConnection),
                bytes0(),
                Some(d),
            ) && v == Some(crate::hidpp10::spec_remaining_pairings(d)),
        (cached is None || refresh) ==> (r matches Ok(v) ==> (exists|d: Seq<u8>|
            #[trigger] receiver.answers_request(
                spec_read_id(Register::ReceiverConnection),
                bytes0(),
                Some(d),
            ) && v == Some(crate::hidpp10::spec_remaining_pairings(d))) || (receiver.answers_request(
            spec_read_id(Register::ReceiverConnection),
            bytes0(),
            None,
        ) && v == cached)),
        r matches Err(e) ==> (cached is None || refresh) && receiver.rejects_request(
            spec_read_id(Register::ReceiverConnection),
            bytes0(), e),
{
    if cached.is_none() || refresh {
        let none: Vec<u8> = Vec::new();
        assert(none@ =~= bytes0());
        let reply = read_register(receiver, Register::ReceiverConnection, none.as_slice())?;
        assert(receiver.answers_request(spec_read_id(Register::ReceiverConnection), bytes0(), opt_view(reply)));
        if let Some(data) = reply {
            assert(receiver.answers_request(spec_read_id(Register::ReceiverConnection), bytes0(), Some(data@)));
            return Ok(Some(extract_remaining_pairings(data.as_slice())));
        }
    }
    Ok(cached)
}

/// Enable or disable device connection notifications on the receiver, then
/// read back its notification flags.
pub fn enable_connection_notifications<D: Hidpp10Device>(receiver: &D, enable: bool) -> (r: Result<
    Option<NotificationFlag>,
    Error,
>)
    ensures
        r matches Ok(Some(f)) ==> exists|d: Seq<u8>|
            #[trigger] receiver.answers_request(spec_read_id(Register::Notifications), bytes0(), Some(d))
                && d.len() >= 3 && f.bits == crate::hidpp10::spec_u24(d)
                & crate::hidpp10_constants::NOTIFICATION_FLAG_ALL,
        r matches Ok(o) ==> crate::base::spec_hidpp20(receiver.protocol_spec()) || exists|v: Option<u32>|
            #[trigger] crate::hidpp10::spec_u24_read(receiver, Register::Notifications, v) && o == match v {
                Some(x) => Some(NotificationFlag { bits: x & crate::hidpp10_constants::NOTIFICATION_FLAG_ALL }),
                None => None::<NotificationFlag>,
            },
        r matches Err(e) ==> !crate::base::spec_hidpp20(receiver.protocol_spec()) && (receiver.rejects_request(
            spec_write_id(Register::Notifications),
            crate::hidpp10::spec_u24_bytes(if enable { 0x000900u32 } else { 0u32 }), e) || receiver.rejects_request(spec_read_id(Register::Notifications), bytes0(), e)),
{
    let flags = if enable {
        NotificationFlag::wireless() | NotificationFlag::software_present()
    } else {
        NotificationFlag::empty()
    };
    assert(0x000100u32 | 0x000800u32 == 0x000900u32) by (bit_vector);
    assert(flags.bits == if enable { 0x000900u32 } else { 0u32 });
    let h10 = Hidpp10;
    let _ok = h10.set_notification_flags(receiver, flags)?;
    h10.get_notification_flags(receiver)
}

/// The pairing state of a receiver.
#[derive(Debug, Clone)]
pub struct Pairing {
    pub lock_open: bool,
    pub discovering: bool,
    pub counter: Option<u8>,
    pub device_address: Option<Vec<u8>>,
    pub device_authentication: Option<u8>,
    pub device_kind: Option<u8>,
    pub device_name: Option<String>,
    pub device_passkey: Option<String>,
    pub error: Option<String>,
}

impl Default for Pairing {
    fn default() -> (r: Self)
        ensures
            !r.lock_open && !r.discovering && r.counter is None && r.device_address is None
                && r.device_authentication is None && r.device_kind is None && r.device_name is None
                && r.device_passkey is None && r.error is None,
    {
        Pairing {
            lock_open: false,
            discovering: false,
            counter: None,
            device_address: None,
            device_authentication: None,
            device_kind: None,
            device_name: None,
            device_passkey: None,
            error: None,
        }
    }
}

impl Pairing {
    /// Record what a lock notification says: the window is open for
    /// discovery or closed. Returns whether that changed anything; when it
    /// did not, nothing is touched.
    pub fn apply_lock_state(&mut self, discovering: bool) -> (changed: bool)
        ensures
            changed == (old(self).discovering != discovering),
            final(self).discovering == discovering,
            changed ==> final(self).lock_open == discovering,
            !changed ==> final(self).lock_open == old(self).lock_open,
            final(self).counter == old(self).counter,
            final(self).device_kind == old(self).device_kind,
            final(self).device_authentication == old(self).device_authentication,
    {
        if self.discovering == discovering {
            return false;
        }
        self.lock_open = discovering;
        self.discovering = discovering;
        true
    }
}


/// A receiver (Unifying, Bolt, Nano, Lightspeed) reached through a channel
/// `C`, which the devices paired to it share.
pub struct Receiver<C> {
    /// The channel requests go through.
    pub hidpp: C,
    pub path: String,
    pub product_id: u16,
    pub kind: ReceiverKind,
    pub name: &'static str,
    pub may_unpair: bool,
    pub re_pairs: bool,
    pub serial: Option<String>,
    /// How many devices can be paired at once.
    pub max_devices: u8,
    pub notification_flags: Option<NotificationFlag>,
    pub pairing: Pairing,
    /// The firmware read last, kept once read.
    pub firmware_info: Option<Vec<FirmwareInfo>>,
    /// The remaining pairings read last (-1: unlimited).
    pub remaining: Option<i32>,
}

impl<C: HidppChannel> Receiver<C> {
    /// Open the receiver of model `info` at `path` on channel `hidpp`: read
    /// its serial and device count (the model's count when the read fails
    /// or gives a count outside 1..6), and tell it that software is present.
    pub fn new(hidpp: C, path: String, product_id: u16, info: &ReceiverInfo) -> (r: Self)
        ensures
            r.path == path,
            r.product_id == product_id,
            r.kind == info.kind,
            r.name == info.name,
            r.may_unpair == info.may_unpair,
            r.re_pairs == info.re_pairs,
            r.max_devices == info.max_devices || 1 <= r.max_devices <= 6,
            r.serial is None ==> r.max_devices == info.max_devices,
            r.notification_flags is None,
            r.firmware_info is None,
            r.remaining is None,
            !r.pairing.lock_open && !r.pairing.discovering,
            spec_request_made(&r, spec_write_id(Register::DevicesConfiguration), crate::bytes::bytes1(0xFF)),
            (r.serial is None && r.max_devices == info.max_devices && exists|e: Error|
                #[trigger] r.rejects_request(spec_read_id(Register::ReceiverInfo), bytes1(RECEIVER_INFORMATION), e))
                || (exists|reply: Option<Seq<u8>>|
                #[trigger] r.answers_request(spec_read_id(Register::ReceiverInfo), bytes1(RECEIVER_INFORMATION), reply)
                    && spec_receiver_identity(
                    reply,
                    info.max_devices,
                    match r.serial {
                        Some(s) => Some(s@),
                        None => None,
                    },
                    r.max_devices,
                )),
    {
        let mut r = Receiver {
            hidpp,
            path,
            product_id,
            kind: info.kind,
            name: info.name,
            may_unpair: info.may_unpair,
            re_pairs: info.re_pairs,
            serial: None,
            max_devices: info.max_devices,
            notification_flags: None,
            pairing: Pairing::default(),
            firmware_info: None,
            remaining: None,
        };
        let (serial, max) = initialize(&r, info.max_devices);
        proof {
            if serial is Some {
                let reply = choose|reply: Option<Seq<u8>>|
                    #[trigger] r.answers_request(
                        spec_read_id(Register::ReceiverInfo),
                        bytes1(RECEIVER_INFORMATION),
                        reply,
                    ) && spec_receiver_identity(
                        reply,
                        info.max_devices,
                        match serial {
                            Some(s) => Some(s@),
                            None => None,
                        },
                        max,
                    );
                lemma_identity_max(reply, info.max_devices, max);
            }
        }
        let ghost r0 = r;
        r.serial = serial;
        r.max_devices = max;
        proof {
            let wid = spec_write_id(Register::DevicesConfiguration);
            let wp = crate::bytes::bytes1(0xFF);
            if exists|o: Option<Seq<u8>>| #[trigger] r0.answers_request(wid, wp, o) {
                let o = choose|o: Option<Seq<u8>>| #[trigger] r0.answers_request(wid, wp, o);
                assert(r.answers_request(wid, wp, o));
            } else {
                let e = choose|e: Error| #[trigger] r0.rejects_request(wid, wp, e);
                assert(r.rejects_request(wid, wp, e));
            }
            let rid = spec_read_id(Register::ReceiverInfo);
            let rp = bytes1(RECEIVER_INFORMATION);
            let sv = match &r.serial {
                Some(s) => Some(s@),
                None => None,
            };
            if exists|reply: Option<Seq<u8>>|
                #[trigger] r0.answers_request(rid, rp, reply) && spec_receiver_identity(reply, info.max_devices, sv, max) {
                let reply = choose|reply: Option<Seq<u8>>|
                    #[trigger] r0.answers_request(rid, rp, reply) && spec_receiver_identity(reply, info.max_devices, sv, max);
                assert(r.answers_request(rid, rp, reply));
            } else {
                let e = choose|e: Error| #[trigger] r0.rejects_request(rid, rp, e);
                assert(r.rejects_request(rid, rp, e));
            }
        }
        r
    }

    /// The codename of the device in slot `n`.
    pub fn device_codename(&self, n: u8) -> (r: Result<Option<String>, Error>)
        requires
            DEVICE_NAME + n <= 0x100,
        ensures
            r matches Ok(name) ==> exists|reply: Option<Seq<u8>>|
                #[trigger] self.answers_request(
                    spec_read_id(Register::ReceiverInfo),
                    bytes1((DEVICE_NAME + n - 1) as u8),
                    reply,
                ) && spec_codename_of(reply, name),
            r matches Err(e) ==> self.rejects_request(
                spec_read_id(Register::ReceiverInfo),
                bytes1((DEVICE_NAME + n - 1) as u8),
                e,
            ),
    {
        device_codename(self, n)
    }

    /// The number of paired devices the receiver reports (0 when the read
    /// fails).
    pub fn count(&self) -> (r: u8)
        ensures
            (exists|d: Seq<u8>|
                #[trigger] self.answers_request(spec_read_id(Register::ReceiverConnection), bytes0(), Some(d))
                    && r == spec_byte_or(d, 1, 0)) || (r == 0 && ((exists|e: Error|
                self.rejects_request(spec_read_id(Register::ReceiverConnection), bytes0(), e))
                || self.answers_request(spec_read_id(Register::ReceiverConnection), bytes0(), None))),
    {
        count(self)
    }

    /// What the receiver knows of the device in slot `n`; `None` for an
    /// empty slot.
    pub fn paired_device_info(&self, n: u8) -> (r: Result<Option<PairingInfo>, Error>)
        requires
            DEVICE_NAME + n <= 0x100,
        ensures
            spec_slot_answer(self, n, r),
            r matches Ok(None) ==> exists|pair: Option<Seq<u8>>|
                #[trigger] self.answers_request(
                    spec_read_id(Register::ReceiverInfo),
                    bytes1((PAIRING_INFORMATION + n - 1) as u8),
                    pair,
                ) && (pair matches Some(d) ==> spec_pairing_wpid(d) == 0),
            r matches Ok(Some(info)) ==> info.wpid != 0 && exists|pair: Seq<u8>|
                #[trigger] self.answers_request(
                    spec_read_id(Register::ReceiverInfo),
                    bytes1((PAIRING_INFORMATION + n - 1) as u8),
                    Some(pair),
                ) && spec_pairing_info(self, n, pair, info),
            r matches Err(e) ==> self.rejects_request(
                spec_read_id(Register::ReceiverInfo),
                bytes1((PAIRING_INFORMATION + n - 1) as u8),
                e,
            ) || self.rejects_request(
                spec_read_id(Register::ReceiverInfo),
                bytes1((EXTENDED_PAIRING_INFORMATION + n - 1) as u8),
                e,
            ) || self.rejects_request(spec_read_id(Register::ReceiverInfo), bytes1((DEVICE_NAME + n - 1) as u8), e),
    {
        paired_device_info(self, n)
    }

    /// Open (`lock_closed` false) or close the pairing window for slot
    /// `device` (0: any) for `timeout` seconds.
    pub fn set_lock(&self, lock_closed: bool, device: u8, timeout: u8) -> (r: Result<(), Error>)
        ensures
            r is Ok ==> exists|o: Option<Seq<u8>>|
                #[trigger] self.answers_request(
                    spec_write_id(Register::ReceiverPairing),
                    crate::bytes::bytes3(spec_lock_action(lock_closed), device, timeout),
                    o,
                ),
            r matches Err(e) ==> self.rejects_request(
                spec_write_id(Register::ReceiverPairing),
                crate::bytes::bytes3(spec_lock_action(lock_closed), device, timeout),
                e,
            ),
    {
        set_lock(self, lock_closed, device, timeout)
    }

    /// The notification flags a read of the notifications register gives
    /// (`None`: no answer, taken as no flag).
    pub open spec fn spec_flags_of(v: Option<u32>) -> u32 {
        match v {
            Some(x) => x & crate::hidpp10_constants::NOTIFICATION_FLAG_ALL,
            None => 0,
        }
    }

    /// Open the pairing window for any slot for `timeout` seconds, with
    /// wireless notifications on so that a new device is noticed: the
    /// notification flags are read and, when they lack the wireless flag,
    /// written back with it (a failed write is ignored). Marks the receiver
    /// as discovering once the window is open.
    pub fn start_discovery(&mut self, timeout: u8) -> (r: Result<(), Error>)
        ensures
            r is Ok ==> final(self).pairing.discovering && final(self).pairing.lock_open
                == old(self).pairing.lock_open && exists|o: Option<Seq<u8>>|
                #[trigger] old(self).answers_request(
                    spec_write_id(Register::ReceiverPairing),
                    crate::bytes::bytes3(spec_lock_action(false), 0, timeout),
                    o,
                ),
            r is Ok ==> exists|v: Option<u32>|
                #[trigger] crate::hidpp10::spec_u24_read(&*old(self), Register::Notifications, v) && ((
                Self::spec_flags_of(v) & 0x000100) != 0x000100 ==> spec_request_made(
                &*old(self),
                spec_write_id(Register::Notifications),
                crate::hidpp10::spec_u24_bytes(Self::spec_flags_of(v) | 0x000100),
            )),
            r matches Err(e) ==> final(self).pairing == old(self).pairing && (old(self).rejects_request(
                spec_read_id(Register::Notifications),
                crate::bytes::bytes0(), e) || old(self).rejects_request(
                spec_write_id(Register::ReceiverPairing),
                crate::bytes::bytes3(spec_lock_action(false), 0, timeout), e)),
            final(self).hidpp == old(self).hidpp,
            final(self).max_devices == old(self).max_devices,
    {
        let h10 = Hidpp10;
        let old_flags = match h10.get_notification_flags(&*self)? {
            Some(f) => f,
            None => NotificationFlag::empty(),
        };
        if let Some(flags) = crate::matching::wireless_flags_needed(old_flags) {
            let _ = h10.set_notification_flags(&*self, flags);
        }
        set_lock(&*self, false, 0, timeout)?;
        self.pairing.discovering = true;
        Ok(())
    }

    /// Close the pairing window and mark the receiver as no longer
    /// discovering.
    pub fn stop_discovery(&mut self) -> (r: Result<(), Error>)
        ensures
            r is Ok ==> !final(self).pairing.discovering && exists|o: Option<Seq<u8>>|
                #[trigger] old(self).answers_request(
                    spec_write_id(Register::ReceiverPairing),
                    crate::bytes::bytes3(spec_lock_action(true), 0, 0),
                    o,
                ),
            r matches Err(e) ==> final(self).pairing == old(self).pairing && old(self).rejects_request(
                spec_write_id(Register::ReceiverPairing),
                crate::bytes::bytes3(spec_lock_action(true), 0, 0), e),
            final(self).hidpp == old(self).hidpp,
            final(self).max_devices == old(self).max_devices,
    {
        set_lock(&*self, true, 0, 0)?;
        self.pairing.discovering = false;
        Ok(())
    }

    /// Unpair the device in slot `number`.
    pub fn unpair_device(&self, number: u8) -> (r: Result<(), Error>)
        ensures
            r is Ok ==> exists|o: Option<Seq<u8>>|
                #[trigger] self.answers_request(
                    spec_write_id(Register::ReceiverPairing),
                    crate::bytes::bytes2(0x03u8, number),
                    o,
                ),
            r matches Err(e) ==> self.rejects_request(
                spec_write_id(Register::ReceiverPairing),
                crate::bytes::bytes2(0x03u8, number),
                e,
            ),
    {
        unpair_device(self, number)
    }

    /// Ask the receiver to announce every paired device again.
    pub fn notify_devices(&self) -> (r: Result<(), Error>)
        ensures
            r is Ok ==> exists|o: Option<Seq<u8>>|
                #[trigger] self.answers_request(spec_write_id(Register::ReceiverConnection), bytes1(0x02), o),
            r matches Err(e) ==> self.rejects_request(spec_write_id(Register::ReceiverConnection), bytes1(0x02), e),
    {
        notify_devices(self)?;
        Ok(())
    }

    /// The receiver's firmware, read on first use and kept.
    pub fn firmware(&mut self) -> (r: Result<Option<&Vec<FirmwareInfo>>, Error>)
        ensures
            old(self).firmware_info is Some ==> *final(self) == *old(self) && r matches Ok(Some(_)),
            r matches Ok(o) ==> o == match final(self).firmware_info {
                Some(v) => Some(&v),
                None => None::<&Vec<FirmwareInfo>>,
            },
    {
        if self.firmware_info.is_none() {
            let fw = Hidpp10.get_firmware(&*self)?;
            self.firmware_info = fw;
        }
        match &self.firmware_info {
            Some(v) => Ok(Some(v)),
            None => Ok(None),
        }
    }

    /// How many more devices can be paired (-1: unlimited): read from the
    /// receiver when not known yet or when `refresh`, else the value kept.
    pub fn remaining_pairings(&mut self, refresh: bool) -> (r: Result<Option<i32>, Error>)
        ensures
            old(self).remaining is Some && !refresh ==> r == Ok::<Option<i32>, Error>(old(self).remaining)
                && final(self).remaining == old(self).remaining,
            r matches Ok(v) ==> v == final(self).remaining,
    {
        let v = remaining_pairings(&*self, self.remaining, refresh)?;
        self.remaining = v;
        Ok(v)
    }

    /// Turn the receiver's wireless and software-present notifications on
    /// or off; the flags then read back.
    pub fn enable_connection_notifications(&self, enable: bool) -> (r: Result<Option<NotificationFlag>, Error>)
        ensures
            r matches Ok(o) ==> exists|v: Option<u32>|
                #[trigger] crate::hidpp10::spec_u24_read(self, Register::Notifications, v) && o == match v {
                    Some(x) => Some(NotificationFlag { bits: x & crate::hidpp10_constants::NOTIFICATION_FLAG_ALL }),
                    None => None::<NotificationFlag>,
                },
            r matches Err(e) ==> self.rejects_request(
                spec_write_id(Register::Notifications),
                crate::hidpp10::spec_u24_bytes(if enable { 0x000900u32 } else { 0u32 }),
                e,
            ) || self.rejects_request(spec_read_id(Register::Notifications), bytes0(), e),
    {
        enable_connection_notifications(self, enable)
    }

    /// A handle on the receiver's channel, for the devices paired to it.
    pub fn hidpp_handle(&self) -> (r: C)
        where C: Clone
        ensures
            vstd::pervasive::cloned(self.hidpp, r),
    {
        self.hidpp.clone()
    }
}

/// A receiver count that the receiver information gives is in 1..6 or the
/// model's.
proof fn lemma_identity_max(reply: Option<Seq<u8>>, model_max: u8, max: u8)
    requires
        exists|s: Option<Seq<char>>| spec_receiver_identity(reply, model_max, s, max),
    ensures
        max == model_max || 1 <= max <= 6,
{
}

impl<C: HidppChannel> Hidpp10Device for Receiver<C> {
    /// What the channel may answer to the request sent to the receiver.
    open spec fn answers_request(&self, request_id: u16, params: Seq<u8>, reply: Option<Seq<u8>>) -> bool {
        self.hidpp.answers(crate::message::RECEIVER_DEVICE_NUMBER, request_id, params, reply)
    }

    /// Whether the request sent to the receiver may fail on the channel.
    open spec fn rejects_request(&self, request_id: u16, params: Seq<u8>, e: Error) -> bool {
        self.hidpp.fails(crate::message::RECEIVER_DEVICE_NUMBER, request_id, params, e)
    }

    open spec fn protocol_spec(&self) -> ProtocolVersion {
        ProtocolVersion { major: 1, minor: 0 }
    }

    open spec fn registers_spec(&self) -> Seq<Register> {
        Seq::empty()
    }

    open spec fn records_registers(&self) -> bool {
        false
    }

    fn request(&self, request_id: u16, params: &[u8]) -> (r: Result<Option<Vec<u8>>, Error>) {
        let opts = RequestOptions::default();
        self.hidpp.request(crate::message::RECEIVER_DEVICE_NUMBER, request_id, params, &opts)
    }

    fn protocol(&self) -> (r: ProtocolVersion) {
        ProtocolVersion::v1()
    }

    fn is_device(&self) -> (r: bool)
        ensures
            !r,
    {
        false
    }

    fn registers(&self) -> (r: &[Register]) {
        &[]
    }

    fn add_register(&mut self, r: Register) {
    }
}

} // verus!
