//! The HID++ request/reply cycle, apart from the I/O itself: software IDs,
//! request framing, message sanity checks, and the decision taken on each
//! message read while a request or a ping waits for its reply.

use vstd::prelude::*;
use crate::bytes::{append_bytes, append_fill, copy_range};
use crate::error::Error;
use crate::message::{
    DJ_MESSAGE_ID, HIDPP_LONG_MESSAGE_ID, HIDPP_SHORT_MESSAGE_ID, LONG_MESSAGE_SIZE, MAX_READ_SIZE,
    MEDIUM_MESSAGE_SIZE, RECEIVER_DEVICE_NUMBER, SHORT_MESSAGE_SIZE,
};
use crate::text::hex_bytes;

verus! {

/// A HID++ protocol version, e.g. 1.0, 2.0 or 4.5 (major.minor).
#[derive(Debug, Clone, Copy, PartialEq, Eq, Structural)]
pub struct ProtocolVersion {
    pub major: u8,
    pub minor: u8,
}

/// Whether version `p` is 2.0 or later (feature-based protocol), the
/// version read as `major + minor / 10`.
pub open spec fn spec_hidpp20(p: ProtocolVersion) -> bool {
    p.major * 10 + p.minor >= 20
}

impl ProtocolVersion {
    /// Whether this version is 2.0 or later (feature-based protocol), the
    /// version read as `major + minor / 10`.
    pub fn is_hidpp20(&self) -> (r: bool)
        ensures
            r == spec_hidpp20(*self),
    {
        (self.major as u16) * 10 + (self.minor as u16) >= 20
    }

    /// Protocol 1.0.
    pub fn v1() -> (r: ProtocolVersion)
        ensures
            r == (ProtocolVersion { major: 1, minor: 0 }),
    {
        ProtocolVersion { major: 1, minor: 0 }
    }

    /// Protocol 2.0.
    pub fn v2() -> (r: ProtocolVersion)
        ensures
            r == (ProtocolVersion { major: 2, minor: 0 }),
    {
        ProtocolVersion { major: 2, minor: 0 }
    }
}

/// Options of a HID++ request.
#[derive(Debug, Clone, Copy)]
pub struct RequestOptions {
    /// Fire and forget: do not wait for a reply.
    pub no_reply: bool,
    /// Hand back a HID++ 1.0 error code instead of no reply on error.
    pub return_error: bool,
    /// Force the long (20-byte) message format.
    pub long_message: bool,
    /// Protocol version of the target device; decides whether the request
    /// carries a software ID.
    pub protocol: ProtocolVersion,
}

impl Default for RequestOptions {
    fn default() -> (r: RequestOptions)
        ensures
            !r.no_reply,
            !r.return_error,
            !r.long_message,
            r.protocol == (ProtocolVersion { major: 0, minor: 0 }),
    {
        RequestOptions {
            no_reply: false,
            return_error: false,
            long_message: false,
            protocol: ProtocolVersion { major: 0, minor: 0 },
        }
    }
}

/// A HID++ link to a receiver or a directly connected device: the I/O
/// that sends a request and waits for its reply, or pings a device number.
///
/// What comes back depends on the hardware. `answers` and `fails` are the
/// link's own relations, one pair per link: they name which replies, and
/// which failures, a request may meet. They claim nothing of the hardware;
/// the contract of `request` only ties each outcome to the request that was
/// sent.
pub trait HidppChannel {
    /// Whether `reply` may be the reply payload to `request_id` with
    /// `params` sent to device `devnumber` (`None`: no reply). A link that
    /// says nothing of its replies may give any.
    open spec fn answers(&self, devnumber: u8, request_id: u16, params: Seq<u8>, reply: Option<Seq<u8>>) -> bool {
        true
    }

    /// Whether that request may fail with error `e`. A link that says
    /// nothing of its failures may fail any request with any error.
    open spec fn fails(&self, devnumber: u8, request_id: u16, params: Seq<u8>, e: Error) -> bool {
        true
    }

    /// Send `request_id` with `params` to device `devnumber` and wait for
    /// the reply payload (the bytes after the echoed request ID); `None` on
    /// timeout, on a HID++ 1.0 error, or when no reply is wanted.
    fn request(&self, devnumber: u8, request_id: u16, params: &[u8], options: &RequestOptions) -> (r: Result<
        Option<Vec<u8>>,
        Error,
    >)
        ensures
            r matches Ok(o) ==> self.answers(devnumber, request_id, params@, crate::hidpp10::opt_view(o)),
            r matches Err(e) ==> self.fails(devnumber, request_id, params@, e),
    ;

    /// Whether `answer` may be what pinging device `devnumber` (with long
    /// messages or not) gives. A link that says nothing of its pings may
    /// give any answer.
    open spec fn pings(&self, devnumber: u8, long_message: bool, answer: Result<Option<ProtocolVersion>, Error>) -> bool {
        true
    }

    /// Ping device `devnumber`: its protocol version, or `None` when it did
    /// not answer in time or cannot be reached.
    fn ping(&self, devnumber: u8, long_message: bool) -> (r: Result<Option<ProtocolVersion>, Error>)
        ensures
            self.pings(devnumber, long_message, r),
    ;
}

/// The software ID that follows `old` in the cycle 0x02, ..., 0x0F, 0x02.
pub open spec fn spec_next_sw_id(old: u8) -> u8 {
    if old < 0x0F {
        (old + 1) as u8
    } else {
        0x02
    }
}

/// The software ID that follows `old` in the cycle 0x02, ..., 0x0F, 0x02.
/// A non-zero software ID marks a request reply; 0 marks a notification.
pub fn next_sw_id_after(old: u8) -> (r: u8)
    ensures
        r == spec_next_sw_id(old),
{
    if old < 0x0F {
        old + 1
    } else {
        0x02
    }
}

/// The counter starts at 0x0F and stays in the cycle: from any value of the
/// cycle the next software ID is again in it (never 0, which marks
/// notifications) and differs from the previous one.
pub proof fn lemma_sw_id_in_cycle(old: u8)
    requires
        0x02 <= old <= 0x0F,
    ensures
        0x02 <= spec_next_sw_id(old) <= 0x0F,
        spec_next_sw_id(old) != old,
{
}

/// Whether a request to `devnumber` carries a software ID in its low nibble.
pub open spec fn spec_uses_sw_id(devnumber: u8, request_id: u16, protocol: ProtocolVersion) -> bool {
    (devnumber != RECEIVER_DEVICE_NUMBER || spec_hidpp20(protocol)) && request_id < 0x8000
}

/// The request ID actually sent: peripheral requests (HID++ 2.0 or not to
/// the receiver) below 0x8000 get the software ID in their low nibble.
pub open spec fn spec_request_id_sent(
    devnumber: u8,
    request_id: u16,
    protocol: ProtocolVersion,
    sw_id: u8,
) -> u16 {
    if spec_uses_sw_id(devnumber, request_id, protocol) {
        (request_id & 0xFFF0) | (sw_id as u16)
    } else {
        request_id
    }
}

/// Whether a request to `devnumber` carries a software ID.
pub fn uses_sw_id(devnumber: u8, request_id: u16, protocol: ProtocolVersion) -> (r: bool)
    ensures
        r == spec_uses_sw_id(devnumber, request_id, protocol),
{
    (devnumber != RECEIVER_DEVICE_NUMBER || protocol.is_hidpp20()) && request_id < 0x8000
}

/// The request ID actually sent for `request_id`.
pub fn request_id_sent(devnumber: u8, request_id: u16, protocol: ProtocolVersion, sw_id: u8) -> (r:
    u16)
    ensures
        r == spec_request_id_sent(devnumber, request_id, protocol, sw_id),
{
    if uses_sw_id(devnumber, request_id, protocol) {
        (request_id & 0xFFF0) | (sw_id as u16)
    } else {
        request_id
    }
}

/// How long, in milliseconds, a request waits for its reply: 0.9 s for the
/// receiver, 4 s for a wireless device, twice that for long register reads.
pub open spec fn spec_request_timeout_ms(devnumber: u8, request_id: u16) -> u64 {
    let base: u64 = if devnumber == RECEIVER_DEVICE_NUMBER {
        900
    } else {
        4000
    };
    if request_id & 0xFF00 == 0x8300 {
        (base * 2) as u64
    } else {
        base
    }
}

/// How long, in milliseconds, a request waits for its reply.
pub fn request_timeout_ms(devnumber: u8, request_id: u16) -> (r: u64)
    ensures
        r == spec_request_timeout_ms(devnumber, request_id),
{
    let base: u64 = if devnumber == RECEIVER_DEVICE_NUMBER {
        900
    } else {
        4000
    };
    if request_id & 0xFF00 == 0x8300 {
        base * 2
    } else {
        base
    }
}

/// How long, in milliseconds, a ping waits for its reply.
pub const PING_TIMEOUT_MS: u64 = 4000;

/// The two big-endian bytes of a request ID.
pub open spec fn spec_id_bytes(request_id: u16) -> Seq<u8> {
    seq![(request_id / 256) as u8, (request_id % 256) as u8]
}

/// The request ID followed by the parameters.
pub fn build_request(request_id: u16, params: &[u8]) -> (r: Vec<u8>)
    ensures
        r@ == spec_id_bytes(request_id) + params@,
{
    let mut v: Vec<u8> = Vec::new();
    v.push((request_id / 256) as u8);
    v.push((request_id % 256) as u8);
    append_bytes(&mut v, params);
    assert(v@ =~= spec_id_bytes(request_id) + params@);
    v
}

/// Whether a message body goes out in the long format.
pub open spec fn spec_is_long(data: Seq<u8>, long_message: bool) -> bool {
    long_message || data.len() > SHORT_MESSAGE_SIZE - 2 || (data.len() > 0 && data[0] == 0x82)
}

/// `s` cut or padded with zeros to length `n`.
pub open spec fn spec_fit(s: Seq<u8>, n: nat) -> Seq<u8> {
    if s.len() >= n {
        s.take(n as int)
    } else {
        s + Seq::new((n - s.len()) as nat, |_i: int| 0u8)
    }
}

/// The report written to the device for a message body: report ID and
/// device number, then the body cut or padded with zeros to the report
/// size (20 bytes in the long format, 7 in the short one).
pub open spec fn spec_frame(devnumber: u8, data: Seq<u8>, long_message: bool) -> Seq<u8> {
    if spec_is_long(data, long_message) {
        spec_fit(seq![HIDPP_LONG_MESSAGE_ID, devnumber] + data, LONG_MESSAGE_SIZE as nat)
    } else {
        spec_fit(seq![HIDPP_SHORT_MESSAGE_ID, devnumber] + data, SHORT_MESSAGE_SIZE as nat)
    }
}

/// `out` cut or padded with zeros to length `n`.
fn fit(out: &mut Vec<u8>, n: usize)
    ensures
        final(out)@ == spec_fit(old(out)@, n as nat),
{
    if out.len() >= n {
        out.truncate(n);
    } else {
        let k: usize = n - out.len();
        append_fill(out, 0, k);
    }
}

/// The report written to the device for the message body `data`.
pub fn frame_message(devnumber: u8, data: &[u8], long_message: bool) -> (r: Vec<u8>)
    ensures
        r@ == spec_frame(devnumber, data@, long_message),
        r@.len() == if spec_is_long(data@, long_message) {
            LONG_MESSAGE_SIZE
        } else {
            SHORT_MESSAGE_SIZE
        },
{
    let is_long: bool = long_message || data.len() > SHORT_MESSAGE_SIZE - 2 || (data.len() > 0
        && data[0] == 0x82);
    let mut buf: Vec<u8> = Vec::new();
    if is_long {
        buf.push(HIDPP_LONG_MESSAGE_ID);
    } else {
        buf.push(HIDPP_SHORT_MESSAGE_ID);
    }
    buf.push(devnumber);
    let ghost head = buf@;
    append_bytes(&mut buf, data);
    if is_long {
        assert(buf@ =~= seq![HIDPP_LONG_MESSAGE_ID, devnumber] + data@);
        fit(&mut buf, LONG_MESSAGE_SIZE);
    } else {
        assert(buf@ =~= seq![HIDPP_SHORT_MESSAGE_ID, devnumber] + data@);
        fit(&mut buf, SHORT_MESSAGE_SIZE);
    }
    buf
}

/// The expected size of a message with report ID `report_id`, if the
/// report ID is a HID++ or DJ one.
pub open spec fn spec_expected_size(report_id: u8) -> Option<usize> {
    if report_id == HIDPP_SHORT_MESSAGE_ID {
        Some(SHORT_MESSAGE_SIZE)
    } else if report_id == HIDPP_LONG_MESSAGE_ID {
        Some(LONG_MESSAGE_SIZE)
    } else if report_id == DJ_MESSAGE_ID {
        Some(MEDIUM_MESSAGE_SIZE)
    } else if report_id == 0x21 {
        Some(MAX_READ_SIZE)
    } else {
        None
    }
}

/// Whether a message read from the device has a known HID++ or DJ report
/// ID and the size of that report.
pub open spec fn spec_is_relevant(data: Seq<u8>) -> bool {
    data.len() > 0 && match spec_expected_size(data[0]) {
        Some(n) => data.len() == n,
        None => false,
    }
}

/// Whether a message read from the device has a known report ID and the
/// right size for it.
pub fn is_relevant_message(data: &[u8]) -> (r: bool)
    ensures
        r == spec_is_relevant(data@),
{
    if data.len() == 0 {
        return false;
    }
    let expected: usize = if data[0] == HIDPP_SHORT_MESSAGE_ID {
        SHORT_MESSAGE_SIZE
    } else if data[0] == HIDPP_LONG_MESSAGE_ID {
        LONG_MESSAGE_SIZE
    } else if data[0] == DJ_MESSAGE_ID {
        MEDIUM_MESSAGE_SIZE
    } else if data[0] == 0x21 {
        MAX_READ_SIZE
    } else {
        return false;
    };
    data.len() == expected
}

/// A message read from the device, split into report ID, device number and
/// body; `None` for a message that fails the sanity check.
pub fn split_message(data: &[u8]) -> (r: Option<(u8, u8, Vec<u8>)>)
    ensures
        r is Some <==> spec_is_relevant(data@),
        r matches Some((report_id, devnumber, body)) ==> {
            &&& report_id == data@[0]
            &&& devnumber == data@[1]
            &&& body@ == data@.skip(2)
        },
{
    if !is_relevant_message(data) {
        return None;
    }
    let body = copy_range(data, 2, data.len());
    Some((data[0], data[1], body))
}

/// Whether a reply comes from the device a request went to: the same
/// device number, or its complement (some Bluetooth devices).
pub open spec fn spec_from_target(devnumber: u8, reply_devnum: u8) -> bool {
    reply_devnum == devnumber || reply_devnum == devnumber ^ 0xFF
}

/// What a request does with a message read while it waits for its reply.
#[derive(Debug)]
pub enum ReplyDecision {
    /// The request ends with this result.
    Done(Result<Option<Vec<u8>>, Error>),
    /// The message is a reply to another request of the same kind: keep
    /// waiting, without treating it as a notification.
    Wait,
    /// The message is not the reply: hand it to the notification hook and
    /// keep waiting.
    Unrelated,
}

/// Whether `reply` holds `bytes` at `at` and `at + 1`.
pub open spec fn spec_echo_at(reply: Seq<u8>, at: int, bytes: Seq<u8>) -> bool {
    reply.len() >= at + 2 && reply[at] == bytes[0] && reply[at + 1] == bytes[1]
}

/// The request answered with a HID++ 1.0 error (sub-ID 0x8F).
pub open spec fn spec_is_hidpp10_error(report_id: u8, reply: Seq<u8>, request_id: u16) -> bool {
    report_id == HIDPP_SHORT_MESSAGE_ID && reply.len() > 0 && reply[0] == 0x8F && spec_echo_at(
        reply,
        1,
        spec_id_bytes(request_id),
    )
}

/// The request answered with a HID++ 2.0 error (sub-ID 0xFF).
pub open spec fn spec_is_hidpp20_error(reply: Seq<u8>, request_id: u16) -> bool {
    reply.len() > 0 && reply[0] == 0xFF && spec_echo_at(reply, 1, spec_id_bytes(request_id))
}

/// The error byte of an error reply, or 0 when the reply stops before it.
pub open spec fn spec_error_byte(reply: Seq<u8>) -> u8 {
    if reply.len() > 3 {
        reply[3]
    } else {
        0
    }
}

/// The decision a request to `devnumber` with the (sent) `request_id` and
/// `params` takes on the message (`report_id`, `reply_devnum`, `reply`).
pub open spec fn spec_reply_decision(
    devnumber: u8,
    request_id: u16,
    params: Seq<u8>,
    return_error: bool,
    report_id: u8,
    reply_devnum: u8,
    reply: Seq<u8>,
) -> SpecReplyDecision {
    if !spec_from_target(devnumber, reply_devnum) {
        SpecReplyDecision::Unrelated
    } else if spec_is_hidpp10_error(report_id, reply, request_id) {
        if return_error {
            SpecReplyDecision::Reply(seq![spec_error_byte(reply)])
        } else {
            SpecReplyDecision::NoReply
        }
    } else if spec_is_hidpp20_error(reply, request_id) {
        SpecReplyDecision::FeatureError(spec_error_byte(reply))
    } else if spec_echo_at(reply, 0, spec_id_bytes(request_id)) {
        if devnumber == RECEIVER_DEVICE_NUMBER && (request_id == 0x83B5 || request_id == 0x81F1) {
            if (reply.len() > 2 && params.len() > 0 && reply[2] == params[0]) || (reply.len() <= 2
                && params.len() == 0) {
                SpecReplyDecision::Reply(reply.skip(2))
            } else {
                SpecReplyDecision::Wait
            }
        } else {
            SpecReplyDecision::Reply(reply.skip(2))
        }
    } else {
        SpecReplyDecision::Unrelated
    }
}

/// The decisions of [`spec_reply_decision`], with byte strings as sequences.
pub enum SpecReplyDecision {
    Reply(Seq<u8>),
    NoReply,
    FeatureError(u8),
    Wait,
    Unrelated,
}

/// Whether an executable decision is the specified one for `devnumber` and
/// `request_id`.
pub open spec fn spec_decision_matches(
    d: ReplyDecision,
    s: SpecReplyDecision,
    devnumber: u8,
    request_id: u16,
) -> bool {
    match s {
        SpecReplyDecision::Reply(bytes) => d matches ReplyDecision::Done(Ok(Some(v))) && v@ == bytes,
        SpecReplyDecision::NoReply => d matches ReplyDecision::Done(Ok(None)),
        SpecReplyDecision::FeatureError(e) => d matches ReplyDecision::Done(
            Err(Error::FeatureCallError { number, request, error }),
        ) && number == devnumber && request == request_id && error == e,
        SpecReplyDecision::Wait => d is Wait,
        SpecReplyDecision::Unrelated => d is Unrelated,
    }
}

/// Whether the two bytes of `reply` at `at` echo the request ID.
fn echoes(reply: &[u8], at: usize, request_id: u16) -> (r: bool)
    requires
        at <= 1,
    ensures
        r == spec_echo_at(reply@, at as int, spec_id_bytes(request_id)),
{
    reply.len() >= at + 2 && reply[at] == (request_id / 256) as u8 && reply[at + 1] == (request_id
        % 256) as u8
}

/// The decision a waiting request takes on a message read from the device.
///
/// `request_id` is the ID as sent (with its software ID), `params` the
/// request parameters, and (`report_id`, `reply_devnum`, `reply`) the
/// message read, its body starting after the device number.
pub fn reply_decision(
    devnumber: u8,
    request_id: u16,
    params: &[u8],
    return_error: bool,
    report_id: u8,
    reply_devnum: u8,
    reply: &[u8],
) -> (r: ReplyDecision)
    ensures
        spec_decision_matches(
            r,
            spec_reply_decision(
                devnumber,
                request_id,
                params@,
                return_error,
                report_id,
                reply_devnum,
                reply@,
            ),
            devnumber,
            request_id,
        ),
{
    if !(reply_devnum == devnumber || reply_devnum == devnumber ^ 0xFF) {
        return ReplyDecision::Unrelated;
    }
    let error_byte: u8 = if reply.len() > 3 {
        reply[3]
    } else {
        0
    };
    if report_id == HIDPP_SHORT_MESSAGE_ID && reply.len() > 0 && reply[0] == 0x8F && echoes(
        reply,
        1,
        request_id,
    ) {
        if return_error {
            let mut v: Vec<u8> = Vec::new();
            v.push(error_byte);
            assert(v@ =~= seq![error_byte]);
            return ReplyDecision::Done(Ok(Some(v)));
        } else {
            return ReplyDecision::Done(Ok(None));
        }
    }
    if reply.len() > 0 && reply[0] == 0xFF && echoes(reply, 1, request_id) {
        return ReplyDecision::Done(
            Err(Error::FeatureCallError { number: devnumber, request: request_id, error: error_byte }),
        );
    }
    if echoes(reply, 0, request_id) {
        if devnumber == RECEIVER_DEVICE_NUMBER && (request_id == 0x83B5 || request_id == 0x81F1) {
            let same_first: bool = if reply.len() > 2 && params.len() > 0 {
                reply[2] == params[0]
            } else {
                reply.len() <= 2 && params.len() == 0
            };
            if !same_first {
                return ReplyDecision::Wait;
            }
        }
        let body = copy_range(reply, 2, reply.len());
        assert(body@ =~= reply@.skip(2));
        return ReplyDecision::Done(Ok(Some(body)));
    }
    ReplyDecision::Unrelated
}

/// What a ping does with a message read while it waits for its reply.
#[derive(Debug)]
pub enum PingDecision {
    /// The device answered with its protocol version.
    Version(ProtocolVersion),
    /// The device is known but cannot be reached now.
    Unreachable,
    /// The receiver has no device with this number.
    NoSuchDevice,
    /// Not the reply: hand it to the notification hook and keep waiting.
    Unrelated,
}

/// The body of a ping request: ping function with software ID, two zero
/// bytes and the mark that identifies the reply.
pub open spec fn spec_ping_body(sw_id: u8, mark: u8) -> Seq<u8> {
    spec_id_bytes((0x0010u16 | sw_id as u16) as u16) + seq![0u8, 0u8, mark]
}

/// The ping request body.
pub fn ping_request(sw_id: u8, mark: u8) -> (r: Vec<u8>)
    ensures
        r@ == spec_ping_body(sw_id, mark),
{
    let request_id: u16 = 0x0010u16 | (sw_id as u16);
    let mut v: Vec<u8> = Vec::new();
    v.push((request_id / 256) as u8);
    v.push((request_id % 256) as u8);
    v.push(0);
    v.push(0);
    v.push(mark);
    assert(v@ =~= spec_ping_body(sw_id, mark));
    v
}

/// The decision a ping with request ID `request_id` and mark `mark` takes
/// on the message (`report_id`, `reply_devnum`, `reply`).
pub open spec fn spec_ping_decision(
    devnumber: u8,
    request_id: u16,
    mark: u8,
    report_id: u8,
    reply_devnum: u8,
    reply: Seq<u8>,
) -> PingDecision {
    if !spec_from_target(devnumber, reply_devnum) {
        PingDecision::Unrelated
    } else if spec_echo_at(reply, 0, spec_id_bytes(request_id)) && reply.len() > 4 && reply[4]
        == mark {
        PingDecision::Version(ProtocolVersion { major: reply[2], minor: reply[3] })
    } else if spec_is_hidpp10_error(report_id, reply, request_id) {
        let code = spec_error_byte(reply);
        if code == 0x01 {
            PingDecision::Version(ProtocolVersion { major: 1, minor: 0 })
        } else if code == 0x09 || code == 0x04 {
            PingDecision::Unreachable
        } else if code == 0x08 {
            PingDecision::NoSuchDevice
        } else {
            PingDecision::Unrelated
        }
    } else {
        PingDecision::Unrelated
    }
}

/// The decision a waiting ping takes on a message read from the device.
/// HID++ 2.0 devices echo the ping with their version; HID++ 1.0 devices
/// answer "invalid sub-ID", which marks them as 1.0.
pub fn ping_decision(
    devnumber: u8,
    request_id: u16,
    mark: u8,
    report_id: u8,
    reply_devnum: u8,
    reply: &[u8],
) -> (r: PingDecision)
    ensures
        r == spec_ping_decision(devnumber, request_id, mark, report_id, reply_devnum, reply@),
{
    if !(reply_devnum == devnumber || reply_devnum == devnumber ^ 0xFF) {
        return PingDecision::Unrelated;
    }
    if echoes(reply, 0, request_id) && reply.len() > 4 && reply[4] == mark {
        return PingDecision::Version(ProtocolVersion { major: reply[2], minor: reply[3] });
    }
    if report_id == HIDPP_SHORT_MESSAGE_ID && reply.len() > 0 && reply[0] == 0x8F && echoes(
        reply,
        1,
        request_id,
    ) {
        let code: u8 = if reply.len() > 3 {
            reply[3]
        } else {
            0
        };
        if code == 0x01 {
            return PingDecision::Version(ProtocolVersion { major: 1, minor: 0 });
        } else if code == 0x09 || code == 0x04 {
            return PingDecision::Unreachable;
        } else if code == 0x08 {
            return PingDecision::NoSuchDevice;
        }
    }
    PingDecision::Unrelated
}

/// The bytes of a message in upper case hexadecimal, separated by spaces,
/// as written to the debug log.
pub fn hex_str(bytes: &[u8]) -> (r: String)
    ensures
        r@ == crate::text::spec_hex_bytes(bytes@, true, seq![' ']),
{
    let mut sep: Vec<char> = Vec::new();
    sep.push(' ');
    assert(sep@ =~= seq![' ']);
    hex_bytes(bytes, true, &sep)
}

/// A request's own reply ends it with the reply payload, whatever the
/// request options, when the request does not read a receiver register.
pub proof fn lemma_echoed_reply_is_returned(
    devnumber: u8,
    request_id: u16,
    params: Seq<u8>,
    return_error: bool,
    report_id: u8,
    reply: Seq<u8>,
)
    requires
        reply.len() >= 2,
        reply[0] == spec_id_bytes(request_id)[0],
        reply[1] == spec_id_bytes(request_id)[1],
        reply[0] != 0x8F,
        reply[0] != 0xFF,
        !(devnumber == RECEIVER_DEVICE_NUMBER && (request_id == 0x83B5 || request_id == 0x81F1)),
    ensures
        spec_reply_decision(devnumber, request_id, params, return_error, report_id, devnumber, reply)
            == SpecReplyDecision::Reply(reply.skip(2)),
{
}

/// A message from another device never ends a request.
pub proof fn lemma_other_device_is_unrelated(
    devnumber: u8,
    request_id: u16,
    params: Seq<u8>,
    return_error: bool,
    report_id: u8,
    reply_devnum: u8,
    reply: Seq<u8>,
)
    requires
        reply_devnum != devnumber,
        reply_devnum != devnumber ^ 0xFF,
    ensures
        spec_reply_decision(devnumber, request_id, params, return_error, report_id, reply_devnum, reply)
            == SpecReplyDecision::Unrelated,
        spec_ping_decision(devnumber, request_id, 0, report_id, reply_devnum, reply)
            == PingDecision::Unrelated,
{
}

/// A framed request is always a whole report: 7 or 20 bytes, starting with
/// the matching report ID and the device number.
pub proof fn lemma_frame_shape(devnumber: u8, data: Seq<u8>, long_message: bool)
    ensures
        spec_is_relevant(spec_frame(devnumber, data, long_message)),
        spec_frame(devnumber, data, long_message)[1] == devnumber,
{
    let f = spec_frame(devnumber, data, long_message);
    if spec_is_long(data, long_message) {
        let s = seq![HIDPP_LONG_MESSAGE_ID, devnumber] + data;
        assert(f[0] == s[0]);
        assert(f[1] == s[1]);
    } else {
        let s = seq![HIDPP_SHORT_MESSAGE_ID, devnumber] + data;
        assert(f[0] == s[0]);
        assert(f[1] == s[1]);
    }
}

/// Framing never loses or changes a byte of a body that fits: the report
/// is 20 bytes long (report ID 0x11) when a long message is asked for, the
/// body holds more than 5 bytes or starts with 0x82, and 7 bytes long
/// (report ID 0x10) otherwise; it holds the device number, then the body
/// (its first 18 bytes when longer), then zeros.
pub proof fn lemma_frame_keeps_body(devnumber: u8, data: Seq<u8>, long_message: bool)
    ensures
        ({
            let f = spec_frame(devnumber, data, long_message);
            &&& (long_message || data.len() > 5 || (data.len() > 0 && data[0] == 0x82)) ==> f.len() == 20
                && f[0] == 0x11
            &&& !(long_message || data.len() > 5 || (data.len() > 0 && data[0] == 0x82)) ==> f.len() == 7
                && f[0] == 0x10
            &&& f[1] == devnumber
            &&& forall|j: int| 0 <= j < data.len() && 2 + j < f.len() ==> #[trigger] f[2 + j] == data[j]
            &&& forall|j: int| 2 + data.len() <= j < f.len() ==> #[trigger] f[j] == 0
            &&& data.len() <= 18 ==> f.subrange(2, 2 + data.len() as int) == data
        }),
{
    let f = spec_frame(devnumber, data, long_message);
    let head = if spec_is_long(data, long_message) {
        HIDPP_LONG_MESSAGE_ID
    } else {
        HIDPP_SHORT_MESSAGE_ID
    };
    let s = seq![head, devnumber] + data;
    assert(f[0] == s[0]);
    assert(f[1] == s[1]);
    assert forall|j: int| 0 <= j < data.len() && 2 + j < f.len() implies #[trigger] f[2 + j] == data[j] by {
        assert(f[2 + j] == s[2 + j]);
    }
    if data.len() <= 18 {
        assert(f.subrange(2, 2 + data.len() as int) =~= data);
    }
}

/// The request ID sent keeps the function bits of the one asked for: when
/// the request goes to a peripheral (or the receiver speaks HID++ 2.0) and
/// is not a register access (below 0x8000), its low nibble becomes the
/// software ID; otherwise it is sent as it is.
pub proof fn lemma_request_id_sent(devnumber: u8, request_id: u16, protocol: ProtocolVersion, sw_id: u8)
    requires
        sw_id < 16,
    ensures
        ({
            let r = spec_request_id_sent(devnumber, request_id, protocol, sw_id);
            let tagged = (devnumber != 0xFF || protocol.major * 10 + protocol.minor >= 20) && request_id < 0x8000;
            &&& tagged ==> r / 16 == request_id / 16 && r % 16 == sw_id
            &&& !tagged ==> r == request_id
        }),
{
    if spec_uses_sw_id(devnumber, request_id, protocol) {
        let r = (request_id & 0xFFF0) | (sw_id as u16);
        assert(sw_id < 16 ==> ((request_id & 0xFFF0) | (sw_id as u16)) / 16 == request_id / 16
            && ((request_id & 0xFFF0) | (sw_id as u16)) % 16 == sw_id as u16) by (bit_vector);
    }
}

/// A request waits 900 ms for the receiver and 4000 ms for a device, twice
/// as long for a long register read (request IDs 0x83xx).
pub proof fn lemma_request_timeout(devnumber: u8, request_id: u16)
    ensures
        spec_request_timeout_ms(devnumber, request_id) == (if devnumber == 0xFF {
            900int
        } else {
            4000int
        }) * (if request_id / 256 == 0x83 {
            2int
        } else {
            1int
        }),
{
    assert((request_id & 0xFF00 == 0x8300) == (request_id / 256 == 0x83)) by (bit_vector);
}

/// A request body is the request ID, high byte first, then the parameters.
pub proof fn lemma_request_body(request_id: u16, params: Seq<u8>)
    ensures
        (spec_id_bytes(request_id) + params).len() == params.len() + 2,
        (spec_id_bytes(request_id) + params)[0] as int * 256 + (spec_id_bytes(request_id) + params)[1] as int
            == request_id as int,
        (spec_id_bytes(request_id) + params).skip(2) == params,
{
    assert((spec_id_bytes(request_id) + params).skip(2) =~= params);
}

/// The sanity check accepts exactly the known report IDs at their sizes:
/// a short HID++ report (0x10) of 7 bytes, a long one (0x11) of 20, a DJ
/// report (0x20) of 15 and a long DJ report (0x21) of 32.
pub proof fn lemma_relevant_sizes(data: Seq<u8>)
    ensures
        spec_is_relevant(data) <==> data.len() > 0 && (data[0] == 0x10 && data.len() == 7 || data[0] == 0x11
            && data.len() == 20 || data[0] == 0x20 && data.len() == 15 || data[0] == 0x21 && data.len() == 32),
{
}

/// How a request treats a message from its device (or the complement of
/// its number): a HID++ 1.0 error echoing the request ID (short report,
/// sub-ID 0x8F) ends it with the error byte as reply when errors are
/// returned and with no reply otherwise; a HID++ 2.0 error echoing it
/// (sub-ID 0xFF) ends it with a feature error carrying the error byte; a
/// receiver register read echoing it ends it only when the register byte
/// also matches the first parameter, and is waited past otherwise; a
/// message that neither echoes nor reports an error on it is unrelated.
pub proof fn lemma_reply_decision_cases(
    devnumber: u8,
    request_id: u16,
    params: Seq<u8>,
    return_error: bool,
    report_id: u8,
    reply_devnum: u8,
    reply: Seq<u8>,
)
    requires
        reply_devnum == devnumber || reply_devnum == devnumber ^ 0xFF,
    ensures
        ({
            let d = spec_reply_decision(devnumber, request_id, params, return_error, report_id, reply_devnum, reply);
            let hi = (request_id / 256) as u8;
            let lo = (request_id % 256) as u8;
            &&& report_id == 0x10 && reply.len() >= 4 && reply[0] == 0x8F && reply[1] == hi && reply[2] == lo
                ==> d == (if return_error {
                SpecReplyDecision::Reply(seq![reply[3]])
            } else {
                SpecReplyDecision::NoReply
            })
            &&& reply.len() >= 4 && reply[0] == 0xFF && reply[1] == hi && reply[2] == lo
                ==> d == SpecReplyDecision::FeatureError(reply[3])
            &&& devnumber == 0xFF && (request_id == 0x83B5 || request_id == 0x81F1) && reply.len() > 2
                && params.len() > 0 && reply[0] == hi && reply[1] == lo ==> d == (if reply[2] == params[0] {
                SpecReplyDecision::Reply(reply.skip(2))
            } else {
                SpecReplyDecision::Wait
            })
            &&& reply.len() >= 2 && !(reply[0] == hi && reply[1] == lo) && !(reply[0] == 0x8F && reply[1] == hi
                && reply[2] == lo) && !(reply[0] == 0xFF && reply[1] == hi && reply[2] == lo)
                ==> d == SpecReplyDecision::Unrelated
        }),
{
}

/// How a ping treats a message from its device: an echo of the ping ID
/// carrying the mark at byte 4 gives the protocol version of bytes 2 and 3;
/// a HID++ 1.0 error on the ping gives version 1.0 for "invalid sub-ID"
/// (0x01), unreachable for 0x04 and 0x09, no such device for 0x08. The
/// ping body is the ping function 0x0010 with the software ID in its low
/// nibble, two zero bytes and the mark.
pub proof fn lemma_ping_decision_cases(
    devnumber: u8,
    request_id: u16,
    mark: u8,
    report_id: u8,
    reply: Seq<u8>,
    sw_id: u8,
)
    requires
        sw_id < 16,
    ensures
        ({
            let d = spec_ping_decision(devnumber, request_id, mark, report_id, devnumber, reply);
            let hi = (request_id / 256) as u8;
            let lo = (request_id % 256) as u8;
            &&& reply.len() > 4 && reply[0] == hi && reply[1] == lo && reply[4] == mark ==> d
                == PingDecision::Version(ProtocolVersion { major: reply[2], minor: reply[3] })
            &&& report_id == 0x10 && reply.len() >= 4 && reply[0] == 0x8F && reply[1] == hi && reply[2] == lo
                && !(reply.len() > 4 && reply[0] == hi && reply[1] == lo && reply[4] == mark) ==> d == (if reply[3]
                == 0x01 {
                PingDecision::Version(ProtocolVersion { major: 1, minor: 0 })
            } else if reply[3] == 0x04 || reply[3] == 0x09 {
                PingDecision::Unreachable
            } else if reply[3] == 0x08 {
                PingDecision::NoSuchDevice
            } else {
                PingDecision::Unrelated
            })
        }),
        spec_ping_body(sw_id, mark) == seq![0x00u8, (0x10u8 + sw_id) as u8, 0u8, 0u8, mark],
{
    assert(sw_id < 16 ==> (0x0010u16 | sw_id as u16) / 256 == 0 && (0x0010u16 | sw_id as u16) % 256 == 0x10
        + sw_id) by (bit_vector);
    assert(spec_ping_body(sw_id, mark) =~= seq![0x00u8, (0x10u8 + sw_id) as u8, 0u8, 0u8, mark]);
}

} // verus!
