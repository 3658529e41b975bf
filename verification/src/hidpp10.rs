//! HID++ 1.0 register-based operations: register access, battery and
//! firmware registers, notification flags, the three battery LEDs, and the
//! decoding of receiver information replies.

use vstd::prelude::*;
use crate::base::ProtocolVersion;
use crate::bytes::{byte_or, copy_range};
use crate::common::{Battery, BatteryLevelApproximation, BatteryStatus, FirmwareInfo, FirmwareKind};
use crate::error::{protocol_error, Error};
use crate::hidpp10_constants::{NotificationFlag, Register};
use crate::text::{push_char, push_hex_byte};

verus! {

/// A reply as a sequence of bytes.
pub open spec fn opt_view(o: Option<Vec<u8>>) -> Option<Seq<u8>> {
    match o {
        Some(v) => Some(v@),
        None => None,
    }
}

/// Anything that can make raw HID++ requests: a device or a receiver.
pub trait Hidpp10Device {
    /// Whether `reply` is an answer the object may give to the request
    /// (`request_id`, `params`); `None` stands for no answer.
    spec fn answers_request(&self, request_id: u16, params: Seq<u8>, reply: Option<Seq<u8>>) -> bool;

    /// Whether the object may fail the request (`request_id`, `params`)
    /// with error `e` (the link is gone, the device is unknown, ...).
    spec fn rejects_request(&self, request_id: u16, params: Seq<u8>, e: Error) -> bool;

    /// The protocol version the object speaks.
    spec fn protocol_spec(&self) -> ProtocolVersion;

    /// The HID++ 1.0 registers the object is known to support.
    spec fn registers_spec(&self) -> Seq<Register>;

    /// Whether the object keeps a list of the registers it supports (a
    /// device does, a receiver does not).
    spec fn records_registers(&self) -> bool;

    /// Send a request and wait for its reply payload.
    fn request(&self, request_id: u16, params: &[u8]) -> (r: Result<Option<Vec<u8>>, Error>)
        ensures
            r matches Ok(o) ==> self.answers_request(request_id, params@, opt_view(o)),
            r matches Err(e) ==> self.rejects_request(request_id, params@, e),
    ;

    fn protocol(&self) -> (r: ProtocolVersion)
        ensures
            r == self.protocol_spec(),
    ;

    /// Whether this object is a device (as opposed to a receiver).
    fn is_device(&self) -> bool;

    /// The HID++ 1.0 registers this object is known to support.
    fn registers(&self) -> (r: &[Register])
        ensures
            r@ == self.registers_spec(),
    ;

    /// Record that the object supports `r`.
    fn add_register(&mut self, r: Register)
        ensures
            final(self).registers_spec() == spec_with_register(old(self).records_registers(), old(self).registers_spec(), r),
            final(self).records_registers() == old(self).records_registers(),
            final(self).protocol_spec() == old(self).protocol_spec(),
            forall|id: u16, p: Seq<u8>, o: Option<Seq<u8>>|
                #[trigger] final(self).answers_request(id, p, o) == old(self).answers_request(id, p, o),
            forall|id: u16, p: Seq<u8>, e: Error|
                #[trigger] final(self).rejects_request(id, p, e) == old(self).rejects_request(id, p, e),
    ;
}

/// The register list `regs` after recording `r`: `r` is added when the
/// object keeps a list (`records`) and `r` is not in it yet.
pub open spec fn spec_with_register(records: bool, regs: Seq<Register>, r: Register) -> Seq<Register> {
    if records && !regs.contains(r) {
        regs.push(r)
    } else {
        regs
    }
}

/// The request ID that reads a register (0x81xx short, 0x83xx long).
pub open spec fn spec_read_id(register: Register) -> u16 {
    (0x8100u16 | (crate::hidpp10_constants::spec_register_number(register) & 0x2FF)) as u16
}

/// The request ID that writes a register (0x80xx short, 0x82xx long).
pub open spec fn spec_write_id(register: Register) -> u16 {
    (0x8000u16 | (crate::hidpp10_constants::spec_register_number(register) & 0x2FF)) as u16
}

/// Read a HID++ 1.0 register; `params` holds up to 3 bytes of register
/// address or sub-register.
pub fn read_register<D: Hidpp10Device>(device: &D, register: Register, params: &[u8]) -> (r: Result<
    Option<Vec<u8>>,
    Error,
>)
    ensures
        r matches Ok(o) ==> device.answers_request(spec_read_id(register), params@, opt_view(o)),
        r matches Err(e) ==> device.rejects_request(spec_read_id(register), params@, e),
{
    let request_id: u16 = 0x8100 | (register.as_u16() & 0x2FF);
    device.request(request_id, params)
}

/// Write a HID++ 1.0 register.
pub fn write_register<D: Hidpp10Device>(device: &D, register: Register, value: &[u8]) -> (r: Result<
    Option<Vec<u8>>,
    Error,
>)
    ensures
        r matches Ok(o) ==> device.answers_request(spec_write_id(register), value@, opt_view(o)),
        r matches Err(e) ==> device.rejects_request(spec_write_id(register), value@, e),
{
    let request_id: u16 = 0x8000 | (register.as_u16() & 0x2FF);
    device.request(request_id, value)
}

/// The first byte of a reply, if there is one.
pub open spec fn spec_first_byte(o: Option<Seq<u8>>) -> Option<u8> {
    match o {
        Some(s) => if s.len() > 0 {
            Some(s[0])
        } else {
            None
        },
        None => None,
    }
}

/// Read the configuration pending flags of a receiver.
pub fn get_configuration_pending_flags<D: Hidpp10Device>(receiver: &D) -> (r: Result<
    Option<u8>,
    Error,
>)
    ensures
        r matches Ok(v) ==> exists|o: Option<Seq<u8>>|
            #[trigger] receiver.answers_request(spec_read_id(Register::DevicesConfiguration), crate::bytes::bytes0(), o)
                && v == spec_first_byte(o),
        r matches Err(e) ==> receiver.rejects_request(spec_read_id(Register::DevicesConfiguration), crate::bytes::bytes0(), e),
{
    let empty: Vec<u8> = Vec::new();
    assert(empty@ =~= crate::bytes::bytes0());
    let reply = read_register(receiver, Register::DevicesConfiguration, empty.as_slice())?;
    let ghost o = opt_view(reply);
    assert(receiver.answers_request(spec_read_id(Register::DevicesConfiguration), crate::bytes::bytes0(), o));
    match reply {
        Some(r) => {
            if r.len() > 0 {
                Ok(Some(r[0]))
            } else {
                Ok(None)
            }
        },
        None => Ok(None),
    }
}

/// Set the configuration pending flags of a receiver; `true` when the
/// receiver answered.
pub fn set_configuration_pending_flags<D: Hidpp10Device>(receiver: &D, devices: u8) -> (r: Result<
    bool,
    Error,
>)
    ensures
        r matches Ok(b) ==> exists|o: Option<Seq<u8>>|
            #[trigger] receiver.answers_request(spec_write_id(Register::DevicesConfiguration), crate::bytes::bytes1(devices), o)
                && b == (o is Some),
        r matches Err(e) ==> receiver.rejects_request(spec_write_id(Register::DevicesConfiguration), crate::bytes::bytes1(devices), e),
{
    let mut value: Vec<u8> = Vec::new();
    value.push(devices);
    assert(value@ =~= crate::bytes::bytes1(devices));
    let reply = write_register(receiver, Register::DevicesConfiguration, value.as_slice())?;
    let ghost o = opt_view(reply);
    assert(receiver.answers_request(spec_write_id(Register::DevicesConfiguration), crate::bytes::bytes1(devices), o));
    Ok(reply.is_some())
}

/// The battery state a HID++ 1.0 battery register reply describes.
pub open spec fn spec_parse_battery_status(register: Register, reply: Seq<u8>) -> Option<Battery> {
    match register {
        Register::BatteryCharge => {
            if reply.len() == 0 {
                None
            } else {
                let status_byte: u8 = if reply.len() > 2 {
                    reply[2] & 0xF0
                } else {
                    0
                };
                let status = if status_byte == 0x30 {
                    Some(BatteryStatus::Discharging)
                } else if status_byte == 0x50 {
                    Some(BatteryStatus::Recharging)
                } else if status_byte == 0x90 {
                    Some(BatteryStatus::Full)
                } else {
                    None
                };
                Some(crate::common::spec_battery(Some(reply[0]), None, status, None))
            }
        },
        Register::BatteryStatus => {
            if reply.len() < 2 {
                None
            } else {
                let status_byte = reply[0];
                let charging_byte = reply[1];
                let status = if charging_byte == 0x00 {
                    Some(BatteryStatus::Discharging)
                } else if charging_byte & 0x21 == 0x21 {
                    Some(BatteryStatus::Recharging)
                } else if charging_byte & 0x22 == 0x22 {
                    Some(BatteryStatus::Full)
                } else {
                    None
                };
                let charge = if charging_byte & 0x03 != 0 && status_byte == 0 {
                    None
                } else {
                    Some(spec_status_byte_to_charge(status_byte))
                };
                Some(crate::common::spec_battery(charge, None, status, None))
            }
        },
        _ => None,
    }
}

/// The approximate level a HID++ 1.0 battery status byte stands for.
pub open spec fn spec_status_byte_to_charge(status_byte: u8) -> u8 {
    if status_byte == 7 {
        90
    } else if status_byte == 5 {
        50
    } else if status_byte == 3 {
        20
    } else if status_byte == 1 {
        5
    } else {
        0
    }
}

fn status_byte_to_charge(status_byte: u8) -> (r: u8)
    ensures
        r == spec_status_byte_to_charge(status_byte),
{
    match status_byte {
        7 => BatteryLevelApproximation::Full.value(),
        5 => BatteryLevelApproximation::Good.value(),
        3 => BatteryLevelApproximation::Low.value(),
        1 => BatteryLevelApproximation::Critical.value(),
        _ => BatteryLevelApproximation::Empty.value(),
    }
}

/// Parse a HID++ 1.0 battery register reply (BATTERY_CHARGE or
/// BATTERY_STATUS) into a battery state.
pub fn parse_battery_status(register: Register, reply: &[u8]) -> (r: Option<Battery>)
    ensures
        r == spec_parse_battery_status(register, reply@),
{
    match register {
        Register::BatteryCharge => {
            if reply.len() == 0 {
                return None;
            }
            let charge: u8 = reply[0];
            let status_byte: u8 = if reply.len() > 2 {
                reply[2] & 0xF0
            } else {
                0
            };
            let status: Option<BatteryStatus> = if status_byte == 0x30 {
                Some(BatteryStatus::Discharging)
            } else if status_byte == 0x50 {
                Some(BatteryStatus::Recharging)
            } else if status_byte == 0x90 {
                Some(BatteryStatus::Full)
            } else {
                None
            };
            Some(Battery::new(Some(charge), None, status, None))
        },
        Register::BatteryStatus => {
            if reply.len() < 2 {
                return None;
            }
            let status_byte: u8 = reply[0];
            let charging_byte: u8 = reply[1];
            let status: Option<BatteryStatus> = if charging_byte == 0x00 {
                Some(BatteryStatus::Discharging)
            } else if charging_byte & 0x21 == 0x21 {
                Some(BatteryStatus::Recharging)
            } else if charging_byte & 0x22 == 0x22 {
                Some(BatteryStatus::Full)
            } else {
                None
            };
            let charge: Option<u8> = if charging_byte & 0x03 != 0 && status_byte == 0 {
                None
            } else {
                Some(status_byte_to_charge(status_byte))
            };
            Some(Battery::new(charge, None, status, None))
        },
        _ => None,
    }
}

/// Whether `r` is among `regs`.
fn has_register(regs: &[Register], r: Register) -> (b: bool)
    ensures
        b == regs@.contains(r),
{
    let mut i: usize = 0;
    while i < regs.len()
        invariant
            i <= regs.len(),
            forall|j: int| 0 <= j < i ==> regs@[j] != r,
        decreases regs.len() - i,
    {
        if regs[i] == r {
            return true;
        }
        i = i + 1;
    }
    false
}

/// The text of a firmware version from a firmware register reply:
/// `MM.mm`, both bytes in upper case hexadecimal.
pub open spec fn spec_version_text(reply: Seq<u8>) -> Seq<char> {
    crate::text::spec_hex_byte(reply[1], true) + seq!['.'] + crate::text::spec_hex_byte(
        reply[2],
        true,
    )
}

/// The text of a firmware version with its build: `MM.mm.BHHLL`.
pub open spec fn spec_build_text(main: Seq<u8>, build: Seq<u8>) -> Seq<char> {
    spec_version_text(main) + seq!['.', 'B'] + crate::text::spec_hex_byte(build[1], true)
        + crate::text::spec_hex_byte(build[2], true)
}

/// The text of a firmware version from a firmware register reply.
pub fn version_text(reply: &[u8]) -> (r: String)
    requires
        reply@.len() >= 3,
    ensures
        r@ == spec_version_text(reply@),
{
    let mut s = String::new();
    push_hex_byte(&mut s, reply[1], true);
    push_char(&mut s, '.');
    push_hex_byte(&mut s, reply[2], true);
    assert(s@ =~= spec_version_text(reply@));
    s
}

/// The text of a firmware version with its build number.
pub fn build_text(main: &[u8], build: &[u8]) -> (r: String)
    requires
        main@.len() >= 3,
        build@.len() >= 3,
    ensures
        r@ == spec_build_text(main@, build@),
{
    let mut s = version_text(main);
    push_char(&mut s, '.');
    push_char(&mut s, 'B');
    push_hex_byte(&mut s, build[1], true);
    push_hex_byte(&mut s, build[2], true);
    assert(s@ =~= spec_build_text(main@, build@));
    s
}

/// The two LED bytes of the THREE_LEDS register for a battery level (or
/// none), a charging state and a warning.
pub open spec fn spec_three_leds(level: Option<u8>, charging: bool, warning: bool) -> (u8, u8) {
    match level {
        Some(l) => {
            let (v1, v2): (u8, u8) = if l < 20 {
                (0x22, 0x00)
            } else if l < 50 {
                (0x20, 0x00)
            } else if l < 90 {
                (0x20, 0x02)
            } else {
                (0x20, 0x22)
            };
            if warning {
                (v1 | (v1 >> 1u8), v2 | (v2 >> 1u8))
            } else {
                (v1, v2)
            }
        },
        None => if charging {
            (0x30, 0x33)
        } else if warning {
            (0x02, 0x00)
        } else {
            (0x11, 0x11)
        },
    }
}

/// The two LED bytes of the THREE_LEDS register.
pub fn three_leds_values(level: Option<u8>, charging: bool, warning: bool) -> (r: (u8, u8))
    ensures
        r == spec_three_leds(level, charging, warning),
{
    match level {
        Some(l) => {
            let (mut v1, mut v2): (u8, u8) = if l < BatteryLevelApproximation::Low.value() {
                (0x22, 0x00)
            } else if l < BatteryLevelApproximation::Good.value() {
                (0x20, 0x00)
            } else if l < BatteryLevelApproximation::Full.value() {
                (0x20, 0x02)
            } else {
                (0x20, 0x22)
            };
            if warning {
                v1 = v1 | (v1 >> 1u8);
                v2 = v2 | (v2 >> 1u8);
            }
            (v1, v2)
        },
        None => if charging {
            (0x30, 0x33)
        } else if warning {
            (0x02, 0x00)
        } else {
            (0x11, 0x11)
        },
    }
}

/// The 24-bit big-endian value of the first three bytes of a reply.
pub open spec fn spec_u24(d: Seq<u8>) -> u32 {
    (d[0] as u32) << 16u32 | (d[1] as u32) << 8u32 | d[2] as u32
}

/// The three bytes of the 24-bit value `v`, high byte first.
pub open spec fn spec_u24_bytes(v: u32) -> Seq<u8> {
    seq![(v >> 16u32) as u8, (v >> 8u32) as u8, v as u8]
}

/// Collection of HID++ 1.0 device operations.
pub struct Hidpp10;

/// The main firmware entry: its version from firmware register read 1, with
/// the build from read 2 when the device answers that.
pub open spec fn spec_fw_main<D: Hidpp10Device>(device: &D, e: FirmwareInfo) -> bool {
    &&& e.kind == FirmwareKind::Firmware
    &&& e.name@.len() == 0
    &&& e.extras is None
    &&& exists|main: Seq<u8>, b: Option<Seq<u8>>|
        #![trigger device.answers_request(spec_read_id(Register::Firmware), crate::bytes::bytes1(0x01), Some(main)), device.answers_request(spec_read_id(Register::Firmware), crate::bytes::bytes1(0x02), b)]
        device.answers_request(spec_read_id(Register::Firmware), crate::bytes::bytes1(0x01), Some(main))
            && main.len() >= 3 && device.answers_request(
            spec_read_id(Register::Firmware),
            crate::bytes::bytes1(0x02),
            b,
        ) && match b {
            None => e.version@ == spec_version_text(main),
            Some(bb) => bb.len() >= 3 && e.version@ == spec_build_text(main, bb),
        }
}

/// The entries that firmware register read `sub` adds: none when the
/// device does not answer, else one of kind `kind` with the reply's
/// version.
pub open spec fn spec_fw_extra<D: Hidpp10Device>(
    device: &D,
    sub: u8,
    kind: FirmwareKind,
    entries: Seq<FirmwareInfo>,
) -> bool {
    exists|o: Option<Seq<u8>>|
        #[trigger] device.answers_request(spec_read_id(Register::Firmware), crate::bytes::bytes1(sub), o)
            && match o {
            None => entries.len() == 0,
            Some(d) => d.len() >= 3 && entries.len() == 1 && entries[0].kind == kind && entries[0].name@.len()
                == 0 && entries[0].version@ == spec_version_text(d) && entries[0].extras is None,
        }
}

/// Whether a firmware register read (1 to 4) may end the firmware read
/// with error `e`: the device refuses it with `e`, or answers with fewer
/// than three bytes and `e` is a protocol error.
pub open spec fn spec_fw10_failed<D: Hidpp10Device>(device: &D, e: Error) -> bool {
    exists|sub: u8|
        #![trigger crate::bytes::bytes1(sub)]
        1 <= sub <= 4 && (device.rejects_request(spec_read_id(Register::Firmware), crate::bytes::bytes1(sub), e)
            || (e is Protocol && exists|d: Seq<u8>|
            #[trigger] device.answers_request(spec_read_id(Register::Firmware), crate::bytes::bytes1(sub), Some(d))
                && d.len() < 3))
}

/// What reading the firmware register of a HID++ 1.0 device may give:
/// nothing when the main firmware read is not answered; else the main
/// firmware, then the bootloader (read 4) and the other firmware (read 3)
/// when the device answers those.
pub open spec fn spec_fw10_result<D: Hidpp10Device>(device: &D, o: Option<Vec<FirmwareInfo>>) -> bool {
    match o {
        None => device.answers_request(spec_read_id(Register::Firmware), crate::bytes::bytes1(0x01), None),
        Some(fw) => {
            &&& fw@.len() >= 1
            &&& spec_fw_main(device, fw@[0])
            &&& exists|k: int|
                1 <= k <= fw@.len() && spec_fw_extra(
                    device,
                    0x04,
                    FirmwareKind::Bootloader,
                    #[trigger] fw@.subrange(1, k),
                ) && spec_fw_extra(device, 0x03, FirmwareKind::Other, fw@.subrange(k, fw@.len() as int))
        },
    }
}

/// What reading the 3-byte register `register` gives: its value when the
/// reply has at least three bytes, nothing for no reply or a shorter one.
pub open spec fn spec_u24_read<D: Hidpp10Device>(device: &D, register: Register, v: Option<u32>) -> bool {
    exists|o: Option<Seq<u8>>|
        #[trigger] device.answers_request(spec_read_id(register), crate::bytes::bytes0(), o) && v == match o {
            Some(d) => if d.len() >= 3 {
                Some(spec_u24(d))
            } else {
                None::<u32>
            },
            None => None::<u32>,
        }
}

/// The battery that a read of battery register `reg` gives: the decoded
/// reply, nothing when the device does not answer.
pub open spec fn spec_battery_read<D: Hidpp10Device>(device: &D, reg: Register, o: Option<Battery>) -> bool {
    exists|reply: Option<Seq<u8>>|
        #[trigger] device.answers_request(spec_read_id(reg), crate::bytes::bytes0(), reply) && o == match reply {
            Some(d) => spec_parse_battery_status(reg, d),
            None => None,
        }
}

/// What reading the battery of a HID++ 1.0 device gives: from the battery
/// status register when the device is known to have it, else from the
/// battery charge register when it is known to have that; otherwise the
/// charge register is tried first and the status register when the charge
/// register does not answer.
pub open spec fn spec_battery10_outcome<D: Hidpp10Device>(device: &D, o: Option<Battery>) -> bool {
    if device.registers_spec().contains(Register::BatteryStatus) {
        spec_battery_read(device, Register::BatteryStatus, o)
    } else if device.registers_spec().contains(Register::BatteryCharge) {
        spec_battery_read(device, Register::BatteryCharge, o)
    } else {
        (exists|d: Seq<u8>|
            #[trigger] device.answers_request(spec_read_id(Register::BatteryCharge), crate::bytes::bytes0(), Some(d))
                && o == spec_parse_battery_status(Register::BatteryCharge, d)) || (device.answers_request(
            spec_read_id(Register::BatteryCharge),
            crate::bytes::bytes0(),
            None,
        ) && spec_battery_read(device, Register::BatteryStatus, o))
    }
}

/// What probing the battery registers of a device that knows neither may
/// give: the charge register's reply when it answers, recording it; else
/// the status register's reply when it answers, recording that; else
/// nothing, the register list `regs` unchanged.
pub open spec fn spec_battery10_probe<D: Hidpp10Device>(
    device: &D,
    o: Option<Battery>,
    regs: Seq<Register>,
) -> bool {
    let charge = spec_read_id(Register::BatteryCharge);
    let status = spec_read_id(Register::BatteryStatus);
    let none = crate::bytes::bytes0();
    ||| exists|d: Seq<u8>|
        #[trigger] device.answers_request(charge, none, Some(d)) && o == spec_parse_battery_status(
            Register::BatteryCharge,
            d,
        ) && regs == spec_with_register(device.records_registers(), device.registers_spec(), Register::BatteryCharge)
    ||| device.answers_request(charge, none, None) && exists|d: Seq<u8>|
        #[trigger] device.answers_request(status, none, Some(d)) && o == spec_parse_battery_status(
            Register::BatteryStatus,
            d,
        ) && regs == spec_with_register(device.records_registers(), device.registers_spec(), Register::BatteryStatus)
    ||| device.answers_request(charge, none, None) && device.answers_request(status, none, None) && o is None
        && regs == device.registers_spec()
}

/// Whether reading the battery of a HID++ 1.0 device may fail with `e`:
/// the read of the battery register it knows is rejected with `e`; or,
/// knowing neither, the charge read is rejected with `e`, or it gets no
/// answer and the status read is rejected with `e`.
pub open spec fn spec_battery10_failed<D: Hidpp10Device>(device: &D, e: Error) -> bool {
    let charge = spec_read_id(Register::BatteryCharge);
    let status = spec_read_id(Register::BatteryStatus);
    let none = crate::bytes::bytes0();
    if device.registers_spec().contains(Register::BatteryStatus) {
        device.rejects_request(status, none, e)
    } else if device.registers_spec().contains(Register::BatteryCharge) {
        device.rejects_request(charge, none, e)
    } else {
        device.rejects_request(charge, none, e) || (device.answers_request(charge, none, None)
            && device.rejects_request(status, none, e))
    }
}

impl Hidpp10 {
    /// Read the battery state of a HID++ 1.0 device; `None` for a HID++
    /// 2.0 device, which has battery features instead of registers, or when
    /// no battery register answers. A register found by probing is
    /// recorded.
    pub fn get_battery<D: Hidpp10Device>(&self, device: &mut D) -> (r: Result<Option<Battery>, Error>)
        ensures
            crate::base::spec_hidpp20(old(device).protocol_spec()) ==> (r matches Ok(None)) && final(device).registers_spec()
                == old(device).registers_spec(),
            r matches Ok(o) ==> crate::base::spec_hidpp20(old(device).protocol_spec()) || spec_battery10_outcome(&*old(device), o),
            r matches Ok(o) ==> (!crate::base::spec_hidpp20(old(device).protocol_spec()) ==> if old(
                device,
            ).registers_spec().contains(Register::BatteryStatus) || old(device).registers_spec().contains(
                Register::BatteryCharge,
            ) {
                final(device).registers_spec() == old(device).registers_spec()
            } else {
                spec_battery10_probe(&*old(device), o, final(device).registers_spec())
            }),
            r matches Err(e) ==> !crate::base::spec_hidpp20(old(device).protocol_spec()) && spec_battery10_failed(&*old(device), e)
                && final(device).registers_spec() == old(device).registers_spec(),
            final(device).records_registers() == old(device).records_registers(),
    {
        let p = device.protocol();
        if p.is_hidpp20() {
            return Ok(None);
        }
        let empty: Vec<u8> = Vec::new();
        assert(empty@ =~= crate::bytes::bytes0());
        if has_register(device.registers(), Register::BatteryStatus) {
            let reply = read_register(&*device, Register::BatteryStatus, empty.as_slice())?;
            assert(old(device).answers_request(spec_read_id(Register::BatteryStatus), crate::bytes::bytes0(), opt_view(reply)));
            return match reply {
                Some(data) => Ok(parse_battery_status(Register::BatteryStatus, data.as_slice())),
                None => Ok(None),
            };
        }
        if has_register(device.registers(), Register::BatteryCharge) {
            let reply = read_register(&*device, Register::BatteryCharge, empty.as_slice())?;
            assert(old(device).answers_request(spec_read_id(Register::BatteryCharge), crate::bytes::bytes0(), opt_view(reply)));
            return match reply {
                Some(data) => Ok(parse_battery_status(Register::BatteryCharge, data.as_slice())),
                None => Ok(None),
            };
        }
        let reply = read_register(&*device, Register::BatteryCharge, empty.as_slice())?;
        if let Some(data) = reply {
            assert(old(device).answers_request(spec_read_id(Register::BatteryCharge), crate::bytes::bytes0(), Some(data@)));
            device.add_register(Register::BatteryCharge);
            return Ok(parse_battery_status(Register::BatteryCharge, data.as_slice()));
        }
        assert(old(device).answers_request(spec_read_id(Register::BatteryCharge), crate::bytes::bytes0(), None));
        let reply = read_register(&*device, Register::BatteryStatus, empty.as_slice())?;
        assert(old(device).answers_request(spec_read_id(Register::BatteryStatus), crate::bytes::bytes0(), opt_view(reply)));
        if let Some(data) = reply {
            device.add_register(Register::BatteryStatus);
            return Ok(parse_battery_status(Register::BatteryStatus, data.as_slice()));
        }
        Ok(None)
    }

    /// Read the firmware information of a HID++ 1.0 device: the firmware
    /// version (with its build when the device reports one), then the
    /// bootloader and other firmware when present.
    ///
    /// A firmware reply shorter than three bytes is a protocol error.
    pub fn get_firmware<D: Hidpp10Device>(&self, device: &D) -> (r: Result<
        Option<Vec<FirmwareInfo>>,
        Error,
    >)
        ensures
            r matches Ok(o) ==> spec_fw10_result(device, o),
            r matches Err(e) ==> spec_fw10_failed(device, e),
    {
        let mut p1: Vec<u8> = Vec::new();
        p1.push(0x01);
        assert(p1@ =~= crate::bytes::bytes1(0x01));
        let reply = read_register(device, Register::Firmware, p1.as_slice())?;
        let main = match reply {
            Some(r) => r,
            None => return Ok(None),
        };
        assert(device.answers_request(spec_read_id(Register::Firmware), crate::bytes::bytes1(0x01), Some(main@)));
        if main.len() < 3 {
            return Err(protocol_error("firmware reply too short"));
        }
        let mut p2: Vec<u8> = Vec::new();
        p2.push(0x02);
        assert(p2@ =~= crate::bytes::bytes1(0x02));
        let build_reply = read_register(device, Register::Firmware, p2.as_slice())?;
        assert(device.answers_request(spec_read_id(Register::Firmware), crate::bytes::bytes1(0x02), opt_view(build_reply)));
        let version: String = match &build_reply {
            Some(b) => {
                if b.len() < 3 {
                    return Err(protocol_error("firmware reply too short"));
                }
                build_text(main.as_slice(), b.as_slice())
            },
            None => version_text(main.as_slice()),
        };
        let mut firmware: Vec<FirmwareInfo> = Vec::new();
        firmware.push(
            FirmwareInfo { kind: FirmwareKind::Firmware, name: String::new(), version, extras: None },
        );
        assert(spec_fw_main(device, firmware@[0]));
        let mut p4: Vec<u8> = Vec::new();
        p4.push(0x04);
        assert(p4@ =~= crate::bytes::bytes1(0x04));
        let bl_reply = read_register(device, Register::Firmware, p4.as_slice())?;
        assert(device.answers_request(spec_read_id(Register::Firmware), crate::bytes::bytes1(0x04), opt_view(bl_reply)));
        if let Some(bl) = &bl_reply {
            if bl.len() < 3 {
                return Err(protocol_error("firmware reply too short"));
            }
            firmware.push(
                FirmwareInfo {
                    kind: FirmwareKind::Bootloader,
                    name: String::new(),
                    version: version_text(bl.as_slice()),
                    extras: None,
                },
            );
        }
        assert(spec_fw_main(device, firmware@[0]));
        let k: usize = firmware.len();
        assert(spec_fw_extra(device, 0x04, FirmwareKind::Bootloader, firmware@.subrange(1, k as int)));
        let mut p3: Vec<u8> = Vec::new();
        p3.push(0x03);
        assert(p3@ =~= crate::bytes::bytes1(0x03));
        let o_reply = read_register(device, Register::Firmware, p3.as_slice())?;
        assert(device.answers_request(spec_read_id(Register::Firmware), crate::bytes::bytes1(0x03), opt_view(o_reply)));
        let ghost before = firmware@;
        assert(spec_fw_main(device, before[0]));
        if let Some(o) = &o_reply {
            if o.len() < 3 {
                return Err(protocol_error("firmware reply too short"));
            }
            firmware.push(
                FirmwareInfo {
                    kind: FirmwareKind::Other,
                    name: String::new(),
                    version: version_text(o.as_slice()),
                    extras: None,
                },
            );
        }
        assert(firmware@.subrange(1, k as int) =~= before.subrange(1, k as int));
        assert(spec_fw_extra(device, 0x03, FirmwareKind::Other, firmware@.subrange(k as int, firmware@.len() as int)));
        assert(spec_fw_extra(device, 0x04, FirmwareKind::Bootloader, firmware@.subrange(1, k as int)));
        assert(firmware@[0] == before[0]);
        assert(1 <= k <= firmware@.len());
        Ok(Some(firmware))
    }

    /// Read the current notification flags of a device or receiver; `None`
    /// for HID++ 2.0 devices.
    pub fn get_notification_flags<D: Hidpp10Device>(&self, device: &D) -> (r: Result<
        Option<NotificationFlag>,
        Error,
    >)
        ensures
            crate::base::spec_hidpp20(device.protocol_spec()) ==> r matches Ok(None),
            r matches Ok(Some(f)) ==> exists|d: Seq<u8>|
                #[trigger] device.answers_request(spec_read_id(Register::Notifications), crate::bytes::bytes0(), Some(d))
                    && d.len() >= 3 && f.bits == spec_u24(d)
                    & crate::hidpp10_constants::NOTIFICATION_FLAG_ALL,
            r matches Ok(o) ==> crate::base::spec_hidpp20(device.protocol_spec()) || exists|v: Option<u32>|
                #[trigger] spec_u24_read(device, Register::Notifications, v) && o == match v {
                    Some(x) => Some(NotificationFlag { bits: x & crate::hidpp10_constants::NOTIFICATION_FLAG_ALL }),
                    None => None::<NotificationFlag>,
                },
            r matches Err(e) ==> !crate::base::spec_hidpp20(device.protocol_spec()) && device.rejects_request(
                spec_read_id(Register::Notifications),
                crate::bytes::bytes0(), e),
    {
        if device.protocol().is_hidpp20() {
            return Ok(None);
        }
        let flags = self.get_register_u24(device, Register::Notifications)?;
        match flags {
            Some(v) => Ok(Some(NotificationFlag::from_bits_truncate(v))),
            None => Ok(None),
        }
    }

    /// Write notification flags to a device or receiver; `true` when it
    /// answered, `false` for HID++ 2.0 devices.
    pub fn set_notification_flags<D: Hidpp10Device>(
        &self,
        device: &D,
        flags: NotificationFlag,
    ) -> (r: Result<bool, Error>)
        ensures
            crate::base::spec_hidpp20(device.protocol_spec()) ==> r matches Ok(false),
            r matches Ok(true) ==> !crate::base::spec_hidpp20(device.protocol_spec()) && exists|o: Seq<u8>|
                #[trigger] device.answers_request(
                    spec_write_id(Register::Notifications),
                    spec_u24_bytes(flags.bits),
                    Some(o),
                ),
            r matches Ok(false) ==> crate::base::spec_hidpp20(device.protocol_spec()) || device.answers_request(
                spec_write_id(Register::Notifications),
                spec_u24_bytes(flags.bits),
                None,
            ),
            r matches Err(e) ==> !crate::base::spec_hidpp20(device.protocol_spec()) && device.rejects_request(
                spec_write_id(Register::Notifications),
                spec_u24_bytes(flags.bits), e),
    {
        if device.protocol().is_hidpp20() {
            return Ok(false);
        }
        let v: u32 = flags.bits();
        let mut value: Vec<u8> = Vec::new();
        value.push((v >> 16u32) as u8);
        value.push((v >> 8u32) as u8);
        value.push(v as u8);
        assert(value@ =~= spec_u24_bytes(flags.bits));
        let result = write_register(device, Register::Notifications, value.as_slice())?;
        assert(device.answers_request(spec_write_id(Register::Notifications), spec_u24_bytes(flags.bits), opt_view(result)));
        Ok(result.is_some())
    }

    /// Read the device feature flags (MOUSE_BUTTON_FLAGS register).
    pub fn get_device_features<D: Hidpp10Device>(&self, device: &D) -> (r: Result<Option<u32>, Error>)
        ensures
            crate::base::spec_hidpp20(device.protocol_spec()) ==> r matches Ok(None),
            r matches Ok(Some(v)) ==> exists|d: Seq<u8>|
                #[trigger] device.answers_request(spec_read_id(Register::MouseButtonFlags), crate::bytes::bytes0(), Some(d))
                    && d.len() >= 3 && v == spec_u24(d),
            r matches Ok(v) ==> crate::base::spec_hidpp20(device.protocol_spec()) || spec_u24_read(device, Register::MouseButtonFlags, v),
            r matches Err(e) ==> !crate::base::spec_hidpp20(device.protocol_spec()) && device.rejects_request(
                spec_read_id(Register::MouseButtonFlags),
                crate::bytes::bytes0(), e),
    {
        self.get_register_u24(device, Register::MouseButtonFlags)
    }

    /// Set the three battery LEDs of a device that has them; nothing is
    /// written to a device without the THREE_LEDS register.
    pub fn set_3leds<D: Hidpp10Device>(
        &self,
        device: &D,
        battery_level: Option<u8>,
        charging: bool,
        warning: bool,
    ) -> (r: Result<(), Error>)
        ensures
            r is Ok && device.registers_spec().contains(Register::ThreeLeds) ==> exists|
                o: Option<Seq<u8>>,
            |
                #[trigger] device.answers_request(
                    spec_write_id(Register::ThreeLeds),
                    crate::bytes::bytes2(
                        spec_three_leds(battery_level, charging, warning).0,
                        spec_three_leds(battery_level, charging, warning).1,
                    ),
                    o,
                ),
            r matches Err(e) ==> device.registers_spec().contains(Register::ThreeLeds) && device.rejects_request(
                spec_write_id(Register::ThreeLeds),
                crate::bytes::bytes2(
                    spec_three_leds(battery_level, charging, warning).0,
                    spec_three_leds(battery_level, charging, warning).1,
                ), e),
    {
        if !has_register(device.registers(), Register::ThreeLeds) {
            return Ok(());
        }
        let (v1, v2) = three_leds_values(battery_level, charging, warning);
        let mut value: Vec<u8> = Vec::new();
        value.push(v1);
        value.push(v2);
        assert(value@ =~= crate::bytes::bytes2(v1, v2));
        let reply = write_register(device, Register::ThreeLeds, value.as_slice())?;
        let ghost o = opt_view(reply);
        assert(device.answers_request(spec_write_id(Register::ThreeLeds), crate::bytes::bytes2(v1, v2), o));
        Ok(())
    }

    /// Read a 3-byte (24-bit) register; `None` for HID++ 2.0 devices, no
    /// reply, or a reply shorter than three bytes.
    fn get_register_u24<D: Hidpp10Device>(&self, device: &D, register: Register) -> (r: Result<
        Option<u32>,
        Error,
    >)
        ensures
            crate::base::spec_hidpp20(device.protocol_spec()) ==> r matches Ok(None),
            r matches Ok(Some(v)) ==> exists|d: Seq<u8>|
                #[trigger] device.answers_request(spec_read_id(register), crate::bytes::bytes0(), Some(d)) && d.len() >= 3
                    && v == spec_u24(d),
            r matches Ok(v) ==> crate::base::spec_hidpp20(device.protocol_spec()) || spec_u24_read(device, register, v),
            r matches Err(e) ==> !crate::base::spec_hidpp20(device.protocol_spec()) && device.rejects_request(spec_read_id(register), crate::bytes::bytes0(), e),
    {
        if device.protocol().is_hidpp20() {
            return Ok(None);
        }
        let empty: Vec<u8> = Vec::new();
        assert(empty@ =~= crate::bytes::bytes0());
        let reply = read_register(device, register, empty.as_slice())?;
        assert(device.answers_request(spec_read_id(register), crate::bytes::bytes0(), opt_view(reply)));
        match reply {
            Some(data) => {
                if data.len() < 3 {
                    return Ok(None);
                }
                assert(device.answers_request(spec_read_id(register), crate::bytes::bytes0(), Some(data@)));
                let value: u32 = (data[0] as u32) << 16u32 | (data[1] as u32) << 8u32
                    | data[2] as u32;
                Ok(Some(value))
            },
            None => Ok(None),
        }
    }
}

/// The serial number in a RECEIVER_INFO reply: bytes 1 to 4 in upper case
/// hexadecimal.
pub fn extract_serial(response: &[u8]) -> (r: String)
    requires
        response@.len() >= 5,
    ensures
        r@ == crate::text::spec_hex_bytes(response@.subrange(1, 5), true, seq![]),
{
    let part = copy_range(response, 1, 5);
    crate::hexcodec::encode_upper(part.as_slice())
}

/// The maximum device count in a RECEIVER_INFO reply (byte 6, 1 when
/// absent), clamped to 1..6.
pub open spec fn spec_max_devices(response: Seq<u8>) -> u8 {
    let b = crate::bytes::spec_byte_or(response, 6, 1);
    if b < 1 {
        1
    } else if b > 6 {
        6
    } else {
        b
    }
}

/// The maximum device count in a RECEIVER_INFO reply.
pub fn extract_max_devices(response: &[u8]) -> (r: u8)
    ensures
        r == spec_max_devices(response@),
        1 <= r <= 6,
{
    let b: u8 = byte_or(response, 6, 1);
    if b < 1 {
        1
    } else if b > 6 {
        6
    } else {
        b
    }
}

/// The remaining pairings in a RECEIVER_CONNECTION reply: byte 2 less 5,
/// or -1 (unlimited) when byte 2 is below 5 or absent.
pub open spec fn spec_remaining_pairings(response: Seq<u8>) -> i32 {
    let ps = crate::bytes::spec_byte_or(response, 2, 0);
    if ps >= 5 {
        (ps - 5) as i32
    } else {
        -1i32
    }
}

/// The remaining pairings in a RECEIVER_CONNECTION reply.
pub fn extract_remaining_pairings(response: &[u8]) -> (r: i32)
    ensures
        r == spec_remaining_pairings(response@),
{
    let ps: i32 = byte_or(response, 2, 0) as i32;
    if ps >= 5 {
        ps - 5
    } else {
        -1
    }
}

/// The text that UTF-8 bytes encode, or `None` when they are not UTF-8.
///
/// Trusted: calls `String::from_utf8`, which std documents as succeeding
/// exactly on valid UTF-8 and keeping the characters it encodes.
#[verifier::external_body]
pub(crate) fn utf8_string(bytes: Vec<u8>) -> (r: Option<String>)
    ensures
        r is Some <==> vstd::utf8::valid_utf8(bytes@),
        r matches Some(s) ==> s@ == vstd::utf8::decode_utf8(bytes@),
{
    String::from_utf8(bytes).ok()
}

/// The codename bytes of a DEVICE_NAME sub-register reply: byte 1 is the
/// length, the name follows; `None` when the reply is too short.
pub open spec fn spec_codename_bytes(response: Seq<u8>) -> Option<Seq<u8>> {
    if response.len() < 2 || 2 + response[1] > response.len() {
        None
    } else {
        Some(response.subrange(2, 2 + response[1]))
    }
}

/// The device codename in a DEVICE_NAME sub-register reply; `None` when the
/// reply is too short or the name is not UTF-8.
pub fn extract_codename(response: &[u8]) -> (r: Option<String>)
    ensures
        match spec_codename_bytes(response@) {
            None => r is None,
            Some(b) => (r is Some <==> vstd::utf8::valid_utf8(b)) && (r matches Some(s) ==> s@
                == vstd::utf8::decode_utf8(b)),
        },
{
    if response.len() < 2 {
        return None;
    }
    let len: usize = response[1] as usize;
    if 2 + len > response.len() {
        return None;
    }
    let bytes = copy_range(response, 2, 2 + len);
    utf8_string(bytes)
}

/// The wireless product ID of a reply: all its bytes in upper case
/// hexadecimal.
pub fn extract_wpid(response: &[u8]) -> (r: String)
    ensures
        r@ == crate::text::spec_hex_bytes(response@, true, seq![]),
{
    crate::hexcodec::encode_upper(response)
}

/// The polling rate (ms) in a PAIRING_INFORMATION reply: byte 2, 0 when
/// absent.
pub fn extract_polling_rate(response: &[u8]) -> (r: u8)
    ensures
        r == crate::bytes::spec_byte_or(response@, 2, 0),
{
    byte_or(response, 2, 0)
}

/// The power switch location in an EXTENDED_PAIRING_INFORMATION reply: the
/// low nibble of byte 9, 0 when absent.
pub fn extract_power_switch_location(response: &[u8]) -> (r: u8)
    ensures
        r == crate::bytes::spec_byte_or(response@, 9, 0) & 0x0F,
        r < 16,
{
    let b: u8 = byte_or(response, 9, 0);
    assert(b & 0x0F < 16) by (bit_vector);
    b & 0x0F
}

/// The connection count in a RECEIVER_CONNECTION reply: byte 1, 0 when
/// absent.
pub fn extract_connection_count(response: &[u8]) -> (r: u8)
    ensures
        r == crate::bytes::spec_byte_or(response@, 1, 0),
{
    byte_or(response, 1, 0)
}

/// The remaining pairings are never below -1, and 0 or more exactly when the
/// receiver reports at least five.
pub proof fn lemma_remaining_pairings_range(response: Seq<u8>)
    ensures
        spec_remaining_pairings(response) >= -1,
        spec_remaining_pairings(response) >= 0 <==> crate::bytes::spec_byte_or(response, 2, 0) >= 5,
{
}

/// A battery register reply of one of the two battery registers always
/// decodes when it is long enough, and a charge reply keeps the reported
/// level as it is.
pub proof fn lemma_battery_reply_decodes(register: Register, reply: Seq<u8>)
    requires
        register == Register::BatteryCharge || register == Register::BatteryStatus,
        reply.len() >= 2,
    ensures
        spec_parse_battery_status(register, reply) is Some,
        register == Register::BatteryCharge ==> spec_parse_battery_status(register, reply).unwrap().level
            == Some(reply[0]),
{
}

/// A BATTERY_CHARGE reply gives the level of byte 0 and the status the high
/// nibble of byte 2 names (3 discharging, 5 recharging, 9 full, anything
/// else, or no byte 2, no status); an empty reply gives nothing.
pub proof fn lemma_battery_charge_fields(reply: Seq<u8>)
    ensures
        reply.len() == 0 <==> spec_parse_battery_status(Register::BatteryCharge, reply) is None,
        reply.len() > 0 ==> (spec_parse_battery_status(Register::BatteryCharge, reply) matches Some(b) && {
            let hi: int = if reply.len() > 2 {
                reply[2] as int / 16
            } else {
                0
            };
            &&& b.level == Some(reply[0])
            &&& b.next_level is None
            &&& b.voltage is None
            &&& (hi == 3 ==> b.status == Some(BatteryStatus::Discharging))
            &&& (hi == 5 ==> b.status == Some(BatteryStatus::Recharging))
            &&& (hi == 9 ==> b.status == Some(BatteryStatus::Full))
            &&& (hi != 3 && hi != 5 && hi != 9 ==> b.status is None)
        }),
{
    if reply.len() > 2 {
        let x = reply[2];
        assert((x & 0xF0 == 0x30) == (x / 16 == 3)) by (bit_vector);
        assert((x & 0xF0 == 0x50) == (x / 16 == 5)) by (bit_vector);
        assert((x & 0xF0 == 0x90) == (x / 16 == 9)) by (bit_vector);
    }
}

/// A BATTERY_STATUS reply of two bytes or more gives the status its
/// charging byte (byte 1) names: 0 discharging; bits 0x21 both set
/// recharging; else bits 0x22 both set full; else no status. Its level is
/// the approximation the status byte (byte 0) names (7 full, 90; 5 good,
/// 50; 3 low, 20; 1 critical, 5; else 0), except for a charging report
/// (charging byte's low bits set) with status byte 0, whose level is only
/// what the status implies (50 recharging, 90 full).
pub proof fn lemma_battery_status_register_fields(reply: Seq<u8>)
    ensures
        reply.len() < 2 <==> spec_parse_battery_status(Register::BatteryStatus, reply) is None,
        reply.len() >= 2 ==> (spec_parse_battery_status(Register::BatteryStatus, reply) matches Some(b) && {
            let s = reply[0];
            let c = reply[1];
            let recharging = c % 2 == 1 && (c / 32) % 2 == 1;
            let full = (c / 2) % 2 == 1 && (c / 32) % 2 == 1;
            &&& c == 0 ==> b.status == Some(BatteryStatus::Discharging)
            &&& c != 0 && recharging ==> b.status == Some(BatteryStatus::Recharging)
            &&& c != 0 && !recharging && full ==> b.status == Some(BatteryStatus::Full)
            &&& c != 0 && !recharging && !full ==> b.status is None
            &&& !(c % 4 != 0 && s == 0) ==> b.level == Some(
                if s == 7 {
                    90u8
                } else if s == 5 {
                    50u8
                } else if s == 3 {
                    20u8
                } else if s == 1 {
                    5u8
                } else {
                    0u8
                },
            )
            &&& c % 4 != 0 && s == 0 ==> b.level == (if b.status == Some(BatteryStatus::Recharging) {
                Some(50u8)
            } else if b.status == Some(BatteryStatus::Full) {
                Some(90u8)
            } else {
                None
            })
            &&& b.next_level is None
            &&& b.voltage is None
        }),
{
    if reply.len() >= 2 {
        let c = reply[1];
        assert((c & 0x21 == 0x21) == (c % 2 == 1 && (c / 32) % 2 == 1)) by (bit_vector);
        assert((c & 0x22 == 0x22) == ((c / 2) % 2 == 1 && (c / 32) % 2 == 1)) by (bit_vector);
        assert((c & 0x03 != 0) == (c % 4 != 0)) by (bit_vector);
    }
}

/// A firmware register reply gives its version as the major version (byte
/// 1) and the minor version (byte 2), each in upper-case hexadecimal,
/// separated by a dot; with a build reply, `.B` and the build number (bytes
/// 1 and 2 of the build reply, high byte first) follow.
pub proof fn lemma_fw_register_text(main: Seq<u8>, build: Seq<u8>)
    requires
        main.len() >= 3,
        build.len() >= 3,
    ensures
        spec_version_text(main).len() == 5,
        crate::text::spec_shows_byte(spec_version_text(main), 0, main[1]),
        spec_version_text(main)[2] == '.',
        crate::text::spec_shows_byte(spec_version_text(main), 3, main[2]),
        spec_build_text(main, build).len() == 11,
        spec_build_text(main, build).subrange(0, 5) == spec_version_text(main),
        spec_build_text(main, build)[5] == '.',
        spec_build_text(main, build)[6] == 'B',
        crate::text::spec_shows_byte(spec_build_text(main, build), 7, build[1]),
        crate::text::spec_shows_byte(spec_build_text(main, build), 9, build[2]),
{
    assert(spec_build_text(main, build).subrange(0, 5) =~= spec_version_text(main));
}

/// The device count of a RECEIVER_INFO reply is its byte 6 when that is
/// from 1 to 6, 1 when it is 0 or missing, and 6 when it is larger.
pub proof fn lemma_max_devices_clamped(response: Seq<u8>)
    ensures
        response.len() > 6 && 1 <= response[6] <= 6 ==> spec_max_devices(response) == response[6],
        response.len() > 6 && response[6] == 0 ==> spec_max_devices(response) == 1,
        response.len() > 6 && response[6] > 6 ==> spec_max_devices(response) == 6,
        response.len() <= 6 ==> spec_max_devices(response) == 1,
{
}

} // verus!
