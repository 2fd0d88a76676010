use vstd::prelude::*;
use crate::memory::{config_block, lemma_config_block_len, read_config};
use crate::report::{
    ack_report, build_ack_report, build_input_report, input_report, push_all, push_zeros, zeros,
    ControllerState, DeviceInfo, REPORT_HANDSHAKE_ACK, REPORT_INPUT, REPORT_LEN,
};

verus! {

/// First byte of a handshake report.
pub const HANDSHAKE: u8 = 0x80;
/// First byte of a rumble-only report.
pub const RUMBLE: u8 = 0x10;
/// First byte of a rumble report that carries a subcommand.
pub const RUMBLE_SUBCOMMAND: u8 = 0x01;

/// Handshake type: identify the device.
pub const HANDSHAKE_STATUS: u8 = 0x01;
/// Handshake type: switch to command mode.
pub const HANDSHAKE_COMMAND_MODE: u8 = 0x02;
/// Handshake type: stop the session.
pub const HANDSHAKE_STOP: u8 = 0x05;

/// Offset of the subcommand byte in a rumble-and-subcommand report.
pub const SUBCOMMAND_OFFSET: usize = 10;

pub const SUBCMD_MANUAL_PAIRING: u8 = 0x01;
pub const SUBCMD_DEVICE_INFO: u8 = 0x02;
pub const SUBCMD_SET_INPUT_MODE: u8 = 0x03;
pub const SUBCMD_TRIGGER_ELAPSED: u8 = 0x04;
pub const SUBCMD_LOW_POWER: u8 = 0x08;
pub const SUBCMD_CONFIG_READ: u8 = 0x10;
pub const SUBCMD_PLAYER_LIGHTS: u8 = 0x30;
pub const SUBCMD_HOME_LIGHT: u8 = 0x38;
pub const SUBCMD_IMU: u8 = 0x40;
pub const SUBCMD_VIBRATION: u8 = 0x48;

/// The input mode in which the device reports on its own, periodically.
pub const MODE_FULL: u8 = 0x30;

/// The minimum interval between two timed input reports, in milliseconds.
pub const STREAM_INTERVAL_MS: u64 = 8;

/// Where the session with the host stands.
#[derive(Debug, Clone, Copy, PartialEq, Eq, Structural)]
pub enum Phase {
    /// No report from the host yet.
    Idle,
    /// Exchanging two-byte handshake reports.
    Handshaking,
    /// Answering rumble and subcommand reports.
    Active,
    /// Also sending timed input reports unasked.
    Streaming,
    /// The host stopped the session.
    Terminated,
}

/// Something worth reporting that does not stop the session.
#[derive(Debug, Clone, Copy, PartialEq, Eq, Structural)]
pub enum Diagnostic {
    /// A configuration read named no stored block; the data was left zero.
    ConfigLookupMiss { address: u32, length: u8 },
    /// A subcommand this device does not know; it got a generic ack.
    UnrecognizedSubcommand { subcommand: u8 },
    /// A report of a type this device does not handle (zero when empty);
    /// it got no reply.
    UnrecognizedReport { kind: u8 },
}

/// The byte at `i`, or zero past the end of the report.
pub open spec fn byte_at(r: Seq<u8>, i: int) -> u8 {
    if 0 <= i < r.len() {
        r[i]
    } else {
        0
    }
}

pub open spec fn is_handshake(r: Seq<u8>) -> bool {
    r.len() == 2 && r[0] == HANDSHAKE
}

/// A handshake that asks the device to stop.
pub open spec fn is_stop(r: Seq<u8>) -> bool {
    is_handshake(r) && r[1] == HANDSHAKE_STOP
}

pub open spec fn is_rumble(r: Seq<u8>) -> bool {
    r.len() > 0 && r[0] == RUMBLE
}

pub open spec fn is_subcommand(r: Seq<u8>) -> bool {
    r.len() > 0 && r[0] == RUMBLE_SUBCOMMAND
}

/// The subcommand byte of a rumble-and-subcommand report.
pub open spec fn subcommand_of(r: Seq<u8>) -> u8 {
    byte_at(r, SUBCOMMAND_OFFSET as int)
}

/// The five argument bytes that follow the subcommand byte.
pub open spec fn subcommand_args(r: Seq<u8>) -> Seq<u8> {
    seq![byte_at(r, 11), byte_at(r, 12), byte_at(r, 13), byte_at(r, 14), byte_at(r, 15)]
}

/// The report that switches the device to full input reporting.
pub open spec fn enables_streaming(r: Seq<u8>) -> bool {
    is_subcommand(r) && subcommand_of(r) == SUBCMD_SET_INPUT_MODE && byte_at(r, 11) == MODE_FULL
}

/// The little-endian address of a configuration read.
pub open spec fn read_address(args: Seq<u8>) -> u32 {
    (args[0] as int + args[1] as int * 0x100 + args[2] as int * 0x1_0000 + args[3] as int
        * 0x100_0000) as u32
}

pub open spec fn is_known_subcommand(sub: u8) -> bool {
    sub == SUBCMD_MANUAL_PAIRING || sub == SUBCMD_DEVICE_INFO || sub == SUBCMD_SET_INPUT_MODE || sub
        == SUBCMD_TRIGGER_ELAPSED || sub == SUBCMD_LOW_POWER || sub == SUBCMD_CONFIG_READ || sub
        == SUBCMD_PLAYER_LIGHTS || sub == SUBCMD_HOME_LIGHT || sub == SUBCMD_IMU || sub
        == SUBCMD_VIBRATION
}

/// The ack code that answers a subcommand.
pub open spec fn subcommand_ack(sub: u8) -> u8 {
    if sub == SUBCMD_MANUAL_PAIRING {
        0x81
    } else if sub == SUBCMD_DEVICE_INFO {
        0x82
    } else if sub == SUBCMD_TRIGGER_ELAPSED {
        0x83
    } else if sub == SUBCMD_CONFIG_READ {
        0x90
    } else {
        0x80
    }
}

/// Firmware version, type, MAC address and color use of the device.
pub open spec fn device_info_payload(info: DeviceInfo) -> Seq<u8> {
    seq![0x04u8, 0x11, info.device_type, 0x02] + info.mac@ + seq![0x00u8, 0x03]
}

/// The 35-byte payload that answers a subcommand.
pub open spec fn subcommand_payload(info: DeviceInfo, sub: u8, args: Seq<u8>) -> Seq<u8> {
    if sub == SUBCMD_MANUAL_PAIRING {
        seq![0x03u8] + zeros(34)
    } else if sub == SUBCMD_DEVICE_INFO {
        device_info_payload(info) + zeros(23)
    } else if sub == SUBCMD_CONFIG_READ {
        match config_block(info, read_address(args), args[4]) {
            Some(b) => args + b + zeros((30 - b.len()) as nat),
            None => args + zeros(30),
        }
    } else {
        zeros(35)
    }
}

/// What handling a subcommand has to report.
pub open spec fn subcommand_diagnostic(info: DeviceInfo, sub: u8, args: Seq<u8>) -> Option<Diagnostic> {
    if !is_known_subcommand(sub) {
        Some(Diagnostic::UnrecognizedSubcommand { subcommand: sub })
    } else if sub == SUBCMD_CONFIG_READ && config_block(info, read_address(args), args[4]) is None {
        Some(Diagnostic::ConfigLookupMiss { address: read_address(args), length: args[4] })
    } else {
        None
    }
}

/// The reply to a handshake of the given type.
pub open spec fn handshake_reply(info: DeviceInfo, kind: u8) -> Seq<u8> {
    seq![REPORT_HANDSHAKE_ACK, kind] + (if kind == HANDSHAKE_STATUS {
        seq![0x00u8, info.device_type] + info.mac@
    } else {
        zeros(8)
    }) + zeros(54)
}

/// The sequence counter after an emission `elapsed_ms` after the previous one.
pub open spec fn advance_spec(counter: u8, elapsed_ms: u64) -> u8 {
    ((counter as int + elapsed_ms as int % 256) % 256) as u8
}

/// The phase after a report from the host.
pub open spec fn next_phase(p: Phase, r: Seq<u8>) -> Phase {
    if p == Phase::Terminated || is_stop(r) {
        Phase::Terminated
    } else if enables_streaming(r) || p == Phase::Streaming {
        Phase::Streaming
    } else if is_handshake(r) && r[1] == HANDSHAKE_COMMAND_MODE {
        Phase::Active
    } else if is_handshake(r) && p == Phase::Idle {
        Phase::Handshaking
    } else {
        p
    }
}

/// Whether a report, in a live session, is answered by a report that
/// carries the controller state and advances the sequence counter.
pub open spec fn answered_with_state(r: Seq<u8>) -> bool {
    is_rumble(r) || is_subcommand(r)
}

/// The reply to a report, if one is sent.
pub open spec fn reply_spec(info: DeviceInfo, p: Phase, counter: u8, r: Seq<u8>, s: ControllerState) -> Option<Seq<u8>> {
    if p == Phase::Terminated || is_stop(r) {
        None
    } else if is_handshake(r) {
        Some(handshake_reply(info, r[1]))
    } else if is_rumble(r) {
        Some(input_report(counter, s))
    } else if is_subcommand(r) {
        let sub = subcommand_of(r);
        let args = subcommand_args(r);
        Some(ack_report(counter, s, subcommand_ack(sub), sub, subcommand_payload(info, sub, args)))
    } else {
        None
    }
}

/// What handling a report has to report.
pub open spec fn diagnostic_spec(info: DeviceInfo, p: Phase, r: Seq<u8>) -> Option<Diagnostic> {
    if p == Phase::Terminated || is_handshake(r) || is_rumble(r) {
        None
    } else if is_subcommand(r) {
        subcommand_diagnostic(info, subcommand_of(r), subcommand_args(r))
    } else {
        Some(Diagnostic::UnrecognizedReport { kind: byte_at(r, 0) })
    }
}

/// The sequence counter after a report.
pub open spec fn counter_spec(p: Phase, counter: u8, r: Seq<u8>, elapsed_ms: u64) -> u8 {
    if p != Phase::Terminated && answered_with_state(r) {
        advance_spec(counter, elapsed_ms)
    } else {
        counter
    }
}

/// The timed report due `elapsed_ms` after the previous emission, if any.
pub open spec fn timed_spec(p: Phase, counter: u8, s: ControllerState, elapsed_ms: u64) -> Option<Seq<u8>> {
    if p == Phase::Streaming && elapsed_ms >= STREAM_INTERVAL_MS {
        Some(input_report(counter, s))
    } else {
        None
    }
}

/// The sequence counter after the device looked for a due timed report.
pub open spec fn timed_counter_spec(p: Phase, counter: u8, elapsed_ms: u64) -> u8 {
    if p == Phase::Streaming && elapsed_ms >= STREAM_INTERVAL_MS {
        advance_spec(counter, elapsed_ms)
    } else {
        counter
    }
}

/// Advances an 8-bit sequence counter by the milliseconds since the
/// previous emission, wrapping at 256.
pub fn advance_counter(counter: u8, elapsed_ms: u64) -> (r: u8)
    ensures
        r == advance_spec(counter, elapsed_ms),
{
    counter.wrapping_add((elapsed_ms % 256) as u8)
}

/// What a subcommand is answered with.
pub struct SubcommandAnswer {
    pub ack: u8,
    /// Always 35 bytes.
    pub payload: Vec<u8>,
    pub diagnostic: Option<Diagnostic>,
}

fn byte_or_zero(r: &[u8], i: usize) -> (b: u8)
    ensures
        b == byte_at(r@, i as int),
{
    if i < r.len() {
        r[i]
    } else {
        0
    }
}

/// Answers one subcommand with the five argument bytes that follow it.
pub fn answer_subcommand(info: &DeviceInfo, sub: u8, args: &[u8]) -> (r: SubcommandAnswer)
    requires
        args@.len() == 5,
    ensures
        r.ack == subcommand_ack(sub),
        r.payload@ == subcommand_payload(*info, sub, args@),
        r.diagnostic == subcommand_diagnostic(*info, sub, args@),
{
    let mut payload: Vec<u8> = Vec::new();
    let mut diagnostic: Option<Diagnostic> = None;
    let ack: u8;
    if sub == SUBCMD_MANUAL_PAIRING {
        ack = 0x81;
        payload.push(0x03);
        push_zeros(&mut payload, 34);
    } else if sub == SUBCMD_DEVICE_INFO {
        ack = 0x82;
        payload.push(0x04);
        payload.push(0x11);
        payload.push(info.device_type);
        payload.push(0x02);
        push_all(&mut payload, info.mac.as_slice());
        payload.push(0x00);
        payload.push(0x03);
        assert(payload@ =~= device_info_payload(*info));
        push_zeros(&mut payload, 23);
    } else if sub == SUBCMD_CONFIG_READ {
        ack = 0x90;
        let address: u32 = (args[0] as u32) + (args[1] as u32) * 0x100 + (args[2] as u32) * 0x1_0000
            + (args[3] as u32) * 0x100_0000;
        let length = args[4];
        proof {
            lemma_config_block_len(*info, address, length);
        }
        push_all(&mut payload, args);
        match read_config(info, address, length) {
            Some(block) => {
                push_all(&mut payload, block.as_slice());
                push_zeros(&mut payload, 30 - block.len());
            },
            None => {
                push_zeros(&mut payload, 30);
                diagnostic = Some(Diagnostic::ConfigLookupMiss { address, length });
            },
        }
    } else {
        ack = if sub == SUBCMD_TRIGGER_ELAPSED {
            0x83
        } else {
            0x80
        };
        push_zeros(&mut payload, 35);
        if !(sub == SUBCMD_SET_INPUT_MODE || sub == SUBCMD_TRIGGER_ELAPSED || sub == SUBCMD_LOW_POWER
            || sub == SUBCMD_PLAYER_LIGHTS || sub == SUBCMD_HOME_LIGHT || sub == SUBCMD_IMU || sub
            == SUBCMD_VIBRATION) {
            diagnostic = Some(Diagnostic::UnrecognizedSubcommand { subcommand: sub });
        }
    }
    SubcommandAnswer { ack, payload, diagnostic }
}

/// The reply to a handshake report of the given type.
pub fn build_handshake_reply(info: &DeviceInfo, kind: u8) -> (r: Vec<u8>)
    ensures
        r@ == handshake_reply(*info, kind),
        r@.len() == REPORT_LEN,
{
    let mut out: Vec<u8> = Vec::new();
    out.push(REPORT_HANDSHAKE_ACK);
    out.push(kind);
    if kind == HANDSHAKE_STATUS {
        out.push(0x00);
        out.push(info.device_type);
        push_all(&mut out, info.mac.as_slice());
    } else {
        push_zeros(&mut out, 8);
    }
    push_zeros(&mut out, 54);
    assert(out@ =~= handshake_reply(*info, kind));
    out
}

/// The protocol state that persists between reports.
pub struct ProtocolView {
    pub info: DeviceInfo,
    pub phase: Phase,
    pub counter: u8,
}

/// The outcome of one report from the host.
pub struct Decoded {
    /// The report to send back, 64 bytes, if any.
    pub reply: Option<Vec<u8>>,
    /// The host ended the session.
    pub terminated: bool,
    pub diagnostic: Option<Diagnostic>,
}

/// The report/subcommand state machine of the emulated controller.
pub struct Protocol {
    info: DeviceInfo,
    phase: Phase,
    counter: u8,
}

impl View for Protocol {
    type V = ProtocolView;

    closed spec fn view(&self) -> ProtocolView {
        ProtocolView { info: self.info, phase: self.phase, counter: self.counter }
    }
}

impl Protocol {
    /// A session that has seen no report yet.
    pub fn new(info: DeviceInfo) -> (r: Protocol)
        ensures
            r@.info == info,
            r@.phase == Phase::Idle,
            r@.counter == 0,
    {
        Protocol { info, phase: Phase::Idle, counter: 0 }
    }

    pub fn phase(&self) -> (r: Phase)
        ensures
            r == self@.phase,
    {
        self.phase
    }

    /// The running sequence counter.
    pub fn counter(&self) -> (r: u8)
        ensures
            r == self@.counter,
    {
        self.counter
    }

    /// Whether timed input reports are due once their interval has passed.
    pub fn is_streaming(&self) -> (r: bool)
        ensures
            r == (self@.phase == Phase::Streaming),
    {
        self.phase == Phase::Streaming
    }

    /// Whether the host ended the session.
    pub fn is_terminated(&self) -> (r: bool)
        ensures
            r == (self@.phase == Phase::Terminated),
    {
        self.phase == Phase::Terminated
    }

    /// Decodes one report from the host and builds the single reply to it.
    /// `elapsed_ms` is the time since the previous report that carried the
    /// controller state.
    pub fn handle(&mut self, report: &[u8], state: &ControllerState, elapsed_ms: u64) -> (d: Decoded)
        ensures
            final(self)@.info == old(self)@.info,
            final(self)@.phase == next_phase(old(self)@.phase, report@),
            final(self)@.counter == counter_spec(old(self)@.phase, old(self)@.counter, report@, elapsed_ms),
            match d.reply {
                Some(v) => reply_spec(old(self)@.info, old(self)@.phase, old(self)@.counter, report@, *state) == Some(v@),
                None => reply_spec(old(self)@.info, old(self)@.phase, old(self)@.counter, report@, *state) is None,
            },
            d.terminated == (final(self)@.phase == Phase::Terminated),
            d.diagnostic == diagnostic_spec(old(self)@.info, old(self)@.phase, report@),
    {
        if self.phase == Phase::Terminated {
            return Decoded { reply: None, terminated: true, diagnostic: None };
        }
        let n = report.len();
        if n == 2 && report[0] == HANDSHAKE {
            let kind = report[1];
            if kind == HANDSHAKE_STOP {
                self.phase = Phase::Terminated;
                return Decoded { reply: None, terminated: true, diagnostic: None };
            }
            if self.phase != Phase::Streaming {
                if kind == HANDSHAKE_COMMAND_MODE {
                    self.phase = Phase::Active;
                } else if self.phase == Phase::Idle {
                    self.phase = Phase::Handshaking;
                }
            }
            let reply = build_handshake_reply(&self.info, kind);
            Decoded { reply: Some(reply), terminated: false, diagnostic: None }
        } else if n > 0 && report[0] == RUMBLE {
            let reply = build_input_report(self.counter, state);
            self.counter = advance_counter(self.counter, elapsed_ms);
            Decoded { reply: Some(reply), terminated: false, diagnostic: None }
        } else if n > 0 && report[0] == RUMBLE_SUBCOMMAND {
            let sub = byte_or_zero(report, SUBCOMMAND_OFFSET);
            let mut args: Vec<u8> = Vec::new();
            args.push(byte_or_zero(report, 11));
            args.push(byte_or_zero(report, 12));
            args.push(byte_or_zero(report, 13));
            args.push(byte_or_zero(report, 14));
            args.push(byte_or_zero(report, 15));
            assert(args@ =~= subcommand_args(report@));
            let answer = answer_subcommand(&self.info, sub, args.as_slice());
            let reply = build_ack_report(self.counter, state, answer.ack, sub, answer.payload.as_slice());
            if sub == SUBCMD_SET_INPUT_MODE && args[0] == MODE_FULL {
                self.phase = Phase::Streaming;
            }
            self.counter = advance_counter(self.counter, elapsed_ms);
            Decoded { reply: Some(reply), terminated: false, diagnostic: answer.diagnostic }
        } else {
            let kind = byte_or_zero(report, 0);
            Decoded {
                reply: None,
                terminated: false,
                diagnostic: Some(Diagnostic::UnrecognizedReport { kind }),
            }
        }
    }

    /// Builds the timed input report that streaming owes `elapsed_ms`
    /// after the previous emission, if one is due.
    pub fn emit_due(&mut self, state: &ControllerState, elapsed_ms: u64) -> (r: Option<Vec<u8>>)
        ensures
            final(self)@.info == old(self)@.info,
            final(self)@.phase == old(self)@.phase,
            final(self)@.counter == timed_counter_spec(old(self)@.phase, old(self)@.counter, elapsed_ms),
            match r {
                Some(v) => timed_spec(old(self)@.phase, old(self)@.counter, *state, elapsed_ms) == Some(v@),
                None => timed_spec(old(self)@.phase, old(self)@.counter, *state, elapsed_ms) is None,
            },
    {
        if self.phase == Phase::Streaming && elapsed_ms >= STREAM_INTERVAL_MS {
            let report = build_input_report(self.counter, state);
            self.counter = advance_counter(self.counter, elapsed_ms);
            Some(report)
        } else {
            None
        }
    }
}

/// The sequence counter after emissions that came `deltas[0]`,
/// `deltas[1]`, ... milliseconds after the one before each.
pub open spec fn counter_after(counter: u8, deltas: Seq<u64>) -> u8
    decreases deltas.len(),
{
    if deltas.len() == 0 {
        counter
    } else {
        advance_spec(counter_after(counter, deltas.drop_last()), deltas.last())
    }
}

/// The sum of a run of millisecond deltas.
pub open spec fn total_ms(deltas: Seq<u64>) -> int
    decreases deltas.len(),
{
    if deltas.len() == 0 {
        0
    } else {
        total_ms(deltas.drop_last()) + deltas.last() as int
    }
}

/// Over any run of emissions the sequence counter moves on by each
/// emission's delta, modulo 256, and ends at its start plus the sum of
/// the deltas, modulo 256.
pub proof fn lemma_counter_sums_deltas(counter: u8, deltas: Seq<u64>)
    ensures
        counter_after(counter, deltas) as int == (counter as int + total_ms(deltas)) % 256,
        deltas.len() > 0 ==> counter_after(counter, deltas) as int == (counter_after(
            counter,
            deltas.drop_last(),
        ) as int + deltas.last() as int) % 256,
    decreases deltas.len(),
{
    if deltas.len() > 0 {
        let prev = counter_after(counter, deltas.drop_last());
        let e = deltas.last() as int;
        lemma_counter_sums_deltas(counter, deltas.drop_last());
        vstd::arithmetic::div_mod::lemma_add_mod_noop_right(prev as int, e, 256);
        vstd::arithmetic::div_mod::lemma_add_mod_noop(
            counter as int + total_ms(deltas.drop_last()),
            e,
            256,
        );
        vstd::arithmetic::div_mod::lemma_mod_bound(prev as int + e % 256, 256);
        vstd::arithmetic::div_mod::lemma_mod_bound(e, 256);
        vstd::arithmetic::div_mod::lemma_mod_bound(e + prev as int, 256);
    }
}

/// A handshake of type 1 is answered with an ack that echoes the type and
/// carries the device type and MAC address; a handshake of type 5 ends
/// the session.
pub proof fn lemma_handshake_replies(info: DeviceInfo, p: Phase, counter: u8, s: ControllerState)
    requires
        p != Phase::Terminated,
    ensures
        ({
            let reply = reply_spec(info, p, counter, seq![HANDSHAKE, HANDSHAKE_STATUS], s);
            &&& reply is Some
            &&& reply.unwrap().len() == 64
            &&& reply.unwrap().subrange(0, 2) == seq![REPORT_HANDSHAKE_ACK, HANDSHAKE_STATUS]
            &&& reply.unwrap()[2] == 0
            &&& reply.unwrap()[3] == info.device_type
            &&& reply.unwrap().subrange(4, 10) == info.mac@
        }),
        next_phase(p, seq![HANDSHAKE, HANDSHAKE_STOP]) == Phase::Terminated,
        reply_spec(info, p, counter, seq![HANDSHAKE, HANDSHAKE_STOP], s) is None,
{
    let r = seq![HANDSHAKE, HANDSHAKE_STATUS];
    assert(is_handshake(r));
    let reply = handshake_reply(info, HANDSHAKE_STATUS);
    assert(reply.subrange(0, 2) =~= seq![REPORT_HANDSHAKE_ACK, HANDSHAKE_STATUS]);
    assert(reply.subrange(4, 10) =~= info.mac@);
    assert(is_stop(seq![HANDSHAKE, HANDSHAKE_STOP]));
}

/// A configuration read is acknowledged with 0x90; its payload repeats the
/// five argument bytes and then holds the stored block exactly, or, where
/// no block is stored under that address and length, zeros and a lookup
/// miss.
pub proof fn lemma_config_read_reply(info: DeviceInfo, p: Phase, counter: u8, r: Seq<u8>, s: ControllerState)
    requires
        p != Phase::Terminated,
        is_subcommand(r),
        subcommand_of(r) == SUBCMD_CONFIG_READ,
    ensures
        ({
            let reply = reply_spec(info, p, counter, r, s).unwrap();
            let args = subcommand_args(r);
            let address = read_address(args);
            let length = byte_at(r, 15);
            &&& reply_spec(info, p, counter, r, s) is Some
            &&& reply.len() == 64
            &&& reply[0] == 0x21
            &&& reply[13] == 0x90
            &&& reply[14] == SUBCMD_CONFIG_READ
            &&& reply.subrange(15, 20) == args
            &&& match config_block(info, address, length) {
                Some(b) => {
                    &&& reply.subrange(20, 20 + length as int) == b
                    &&& diagnostic_spec(info, p, r) is None
                },
                None => {
                    &&& reply.subrange(20, 64) == zeros(44)
                    &&& diagnostic_spec(info, p, r) == Some(
                        Diagnostic::ConfigLookupMiss { address, length },
                    )
                },
            }
        }),
{
    let args = subcommand_args(r);
    let address = read_address(args);
    let length = byte_at(r, 15);
    lemma_config_block_len(info, address, length);
    let payload = subcommand_payload(info, SUBCMD_CONFIG_READ, args);
    let reply = ack_report(counter, s, 0x90, SUBCMD_CONFIG_READ, payload);
    assert(reply.subrange(15, 20) =~= args);
    match config_block(info, address, length) {
        Some(b) => {
            assert(reply.subrange(20, 20 + length as int) =~= b);
        },
        None => {
            assert(reply.subrange(20, 64) =~= zeros(44));
        },
    }
}

/// Once a report switches on full input reporting, the session streams:
/// it stays streaming through every report but a stop, and each time the
/// interval has passed without a report a timed input report is due.
pub proof fn lemma_streaming_starts_and_persists(
    p: Phase,
    r: Seq<u8>,
    counter: u8,
    s: ControllerState,
    elapsed_ms: u64,
)
    requires
        p != Phase::Terminated,
        enables_streaming(r),
    ensures
        next_phase(p, r) == Phase::Streaming,
        forall|r2: Seq<u8>| !is_stop(r2) ==> next_phase(Phase::Streaming, r2) == Phase::Streaming,
        next_phase(Phase::Streaming, seq![HANDSHAKE, HANDSHAKE_STOP]) == Phase::Terminated,
        elapsed_ms >= STREAM_INTERVAL_MS ==> timed_spec(Phase::Streaming, counter, s, elapsed_ms)
            == Some(input_report(counter, s)),
        input_report(counter, s)[0] == REPORT_INPUT,
        input_report(counter, s)[1] == counter,
{
    assert(!is_stop(r));
    assert(is_stop(seq![HANDSHAKE, HANDSHAKE_STOP]));
}

} // verus!
