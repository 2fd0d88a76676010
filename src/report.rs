use vstd::prelude::*;

verus! {

/// The midpoint of a 12-bit analog stick axis.
pub const STICK_CENTER: u16 = 0x800;
/// The deflection of a stick axis at full scale, either way from center.
pub const STICK_DEFLECTION: u16 = 0x600;

/// Report type of a timed input report.
pub const REPORT_INPUT: u8 = 0x30;
/// Report type of a subcommand acknowledgment.
pub const REPORT_SUBCOMMAND_ACK: u8 = 0x21;
/// Report type of a handshake acknowledgment.
pub const REPORT_HANDSHAKE_ACK: u8 = 0x81;
/// Battery and connection byte: full and charging, powered over USB.
pub const POWER_STATUS: u8 = 0x91;
/// Vibration byte of an input report.
pub const VIBRATOR_REPORT: u8 = 0x08;
/// Every report the device sends has this many bytes.
pub const REPORT_LEN: usize = 64;

/// One snapshot of the controller's inputs.
#[derive(Debug, Clone, Copy, PartialEq, Eq, Structural)]
pub struct ControllerState {
    /// Button bitmask; 24 bits are used.
    pub buttons: u32,
    pub left_x: u16,
    pub left_y: u16,
    pub right_x: u16,
    pub right_y: u16,
    pub accel_x: i16,
    pub accel_y: i16,
    pub accel_z: i16,
    pub gyro_x: i16,
    pub gyro_y: i16,
    pub gyro_z: i16,
}

impl ControllerState {
    /// Buttons fit in 24 bits and every stick axis in 12 bits.
    pub open spec fn wf(&self) -> bool {
        &&& self.buttons < 0x100_0000
        &&& self.left_x < 0x1000
        &&& self.left_y < 0x1000
        &&& self.right_x < 0x1000
        &&& self.right_y < 0x1000
    }
}

/// Identity and appearance the emulated device reports.
#[derive(Debug, Clone, Copy)]
pub struct DeviceInfo {
    pub device_type: u8,
    pub device_subtype: u8,
    pub mac: [u8; 6],
    pub body_color: [u8; 3],
    pub button_color: [u8; 3],
    pub left_grip_color: [u8; 3],
    pub right_grip_color: [u8; 3],
}

impl DeviceInfo {
    /// A grey full-size controller.
    pub fn pro_controller() -> (r: DeviceInfo)
        ensures
            r.device_type == 3,
            r.device_subtype == 1,
            r.mac@ == seq![0x34u8, 0x12, 0xe5, 0xbf, 0x03, 0x7d],
            r.body_color@ == seq![0xacu8, 0xac, 0xac],
            r.button_color@ == seq![0x46u8, 0x46, 0x46],
            r.left_grip_color@ == seq![0xffu8, 0xff, 0xff],
            r.right_grip_color@ == seq![0xffu8, 0xff, 0xff],
    {
        let r = DeviceInfo {
            device_type: 3,
            device_subtype: 1,
            mac: [0x34, 0x12, 0xe5, 0xbf, 0x03, 0x7d],
            body_color: [0xac, 0xac, 0xac],
            button_color: [0x46, 0x46, 0x46],
            left_grip_color: [0xff, 0xff, 0xff],
            right_grip_color: [0xff, 0xff, 0xff],
        };
        assert(r.mac@ =~= seq![0x34u8, 0x12, 0xe5, 0xbf, 0x03, 0x7d]);
        assert(r.body_color@ =~= seq![0xacu8, 0xac, 0xac]);
        assert(r.button_color@ =~= seq![0x46u8, 0x46, 0x46]);
        assert(r.left_grip_color@ =~= seq![0xffu8, 0xff, 0xff]);
        assert(r.right_grip_color@ =~= seq![0xffu8, 0xff, 0xff]);
        r
    }
}

/// `n` zero bytes.
pub open spec fn zeros(n: nat) -> Seq<u8> {
    Seq::new(n, |i: int| 0u8)
}

/// The three bytes that carry a pair of 12-bit axes: the low byte of `x`,
/// the high nibble of `x` under the low nibble of `y`, the high byte of `y`.
pub open spec fn stick_bytes(x: u16, y: u16) -> Seq<u8> {
    seq![(x & 0xff) as u8, (((x >> 8) & 0xf) | ((y & 0xf) << 4)) as u8, ((y >> 4) & 0xff) as u8]
}

/// The axis pair that three stick bytes carry.
pub open spec fn stick_values(b0: u8, b1: u8, b2: u8) -> (u16, u16) {
    (((b0 as u16) | (((b1 as u16) & 0xf) << 8)) as u16, (((b1 as u16) >> 4) | ((b2 as u16) << 4)) as u16)
}

/// Packs a pair of 12-bit axes into three bytes.
pub fn pack_stick(x: u16, y: u16) -> (r: (u8, u8, u8))
    ensures
        seq![r.0, r.1, r.2] == stick_bytes(x, y),
{
    ((x & 0xff) as u8, (((x >> 8) & 0xf) | ((y & 0xf) << 4)) as u8, ((y >> 4) & 0xff) as u8)
}

/// Reads a pair of 12-bit axes back from three stick bytes.
pub fn unpack_stick(b0: u8, b1: u8, b2: u8) -> (r: (u16, u16))
    ensures
        r == stick_values(b0, b1, b2),
        r.0 < 0x1000,
        r.1 < 0x1000,
{
    proof {
        assert(((b0 as u16) | (((b1 as u16) & 0xf) << 8)) < 0x1000) by (bit_vector);
        assert((((b1 as u16) >> 4) | ((b2 as u16) << 4)) < 0x1000) by (bit_vector);
    }
    ((b0 as u16) | (((b1 as u16) & 0xf) << 8), ((b1 as u16) >> 4) | ((b2 as u16) << 4))
}

/// Packing a pair of 12-bit axes and reading it back gives the pair.
pub proof fn lemma_stick_round_trip(x: u16, y: u16)
    requires
        x < 0x1000,
        y < 0x1000,
    ensures
        ({
            let b = stick_bytes(x, y);
            stick_values(b[0], b[1], b[2]) == (x, y)
        }),
{
    let b0 = (x & 0xff) as u8;
    let b1 = (((x >> 8) & 0xf) | ((y & 0xf) << 4)) as u8;
    let b2 = ((y >> 4) & 0xff) as u8;
    assert(((b0 as u16) | (((b1 as u16) & 0xf) << 8)) == x) by (bit_vector)
        requires
            x < 0x1000,
            y < 0x1000,
            b0 == (x & 0xff) as u8,
            b1 == (((x >> 8) & 0xf) | ((y & 0xf) << 4)) as u8,
    ;
    assert((((b1 as u16) >> 4) | ((b2 as u16) << 4)) == y) by (bit_vector)
        requires
            x < 0x1000,
            y < 0x1000,
            b1 == (((x >> 8) & 0xf) | ((y & 0xf) << 4)) as u8,
            b2 == ((y >> 4) & 0xff) as u8,
    ;
}

/// Bytes 0 to 12 of an input-carrying report: type, sequence counter,
/// power status, buttons (high byte first), both sticks, vibrator byte.
pub open spec fn header_bytes(kind: u8, counter: u8, s: ControllerState) -> Seq<u8> {
    seq![
        kind,
        counter,
        POWER_STATUS,
        ((s.buttons >> 16) & 0xff) as u8,
        ((s.buttons >> 8) & 0xff) as u8,
        (s.buttons & 0xff) as u8,
    ] + stick_bytes(s.left_x, s.left_y) + stick_bytes(s.right_x, s.right_y) + seq![VIBRATOR_REPORT]
}

/// A signed 16-bit value, low byte first.
pub open spec fn le16(v: i16) -> Seq<u8> {
    seq![((v as u16) & 0xff) as u8, (((v as u16) >> 8) & 0xff) as u8]
}

/// One motion sample: accelerometer then gyroscope, three axes each.
pub open spec fn imu_sample(s: ControllerState) -> Seq<u8> {
    le16(s.accel_x) + le16(s.accel_y) + le16(s.accel_z) + le16(s.gyro_x) + le16(s.gyro_y) + le16(
        s.gyro_z,
    )
}

/// A timed input report: the header, the motion sample three times, zeros.
pub open spec fn input_report(counter: u8, s: ControllerState) -> Seq<u8> {
    header_bytes(REPORT_INPUT, counter, s) + imu_sample(s) + imu_sample(s) + imu_sample(s) + zeros(
        15,
    )
}

/// A subcommand acknowledgment: the header, the ack code, the subcommand
/// echoed, a 35-byte payload, zeros.
pub open spec fn ack_report(counter: u8, s: ControllerState, ack: u8, subcommand: u8, payload: Seq<u8>) -> Seq<u8> {
    header_bytes(REPORT_SUBCOMMAND_ACK, counter, s) + seq![ack, subcommand] + payload + zeros(14)
}

/// Appends `n` zero bytes.
pub fn push_zeros(out: &mut Vec<u8>, n: usize)
    ensures
        final(out)@ == old(out)@ + zeros(n as nat),
{
    let ghost start = out@;
    let mut i: usize = 0;
    while i < n
        invariant
            i <= n,
            out@ == start + zeros(i as nat),
        decreases n - i,
    {
        out.push(0);
        i = i + 1;
        assert(out@ =~= start + zeros(i as nat));
    }
}

/// Appends the bytes of `s`.
pub fn push_all(out: &mut Vec<u8>, s: &[u8])
    ensures
        final(out)@ == old(out)@ + s@,
{
    let ghost start = out@;
    let mut i: usize = 0;
    while i < s.len()
        invariant
            i <= s@.len(),
            out@ == start + s@.subrange(0, i as int),
        decreases s@.len() - i,
    {
        out.push(s[i]);
        i = i + 1;
        assert(out@ =~= start + s@.subrange(0, i as int));
    }
    assert(s@.subrange(0, s@.len() as int) =~= s@);
}

/// Appends the header of an input-carrying report.
pub fn push_header(out: &mut Vec<u8>, kind: u8, counter: u8, s: &ControllerState)
    ensures
        final(out)@ == old(out)@ + header_bytes(kind, counter, *s),
{
    let ghost start = out@;
    out.push(kind);
    out.push(counter);
    out.push(POWER_STATUS);
    out.push(((s.buttons >> 16) & 0xff) as u8);
    out.push(((s.buttons >> 8) & 0xff) as u8);
    out.push((s.buttons & 0xff) as u8);
    let l = pack_stick(s.left_x, s.left_y);
    out.push(l.0);
    out.push(l.1);
    out.push(l.2);
    let r = pack_stick(s.right_x, s.right_y);
    out.push(r.0);
    out.push(r.1);
    out.push(r.2);
    out.push(VIBRATOR_REPORT);
    assert(out@ =~= start + header_bytes(kind, counter, *s));
}

fn push_le16(out: &mut Vec<u8>, v: i16)
    ensures
        final(out)@ == old(out)@ + le16(v),
{
    let ghost start = out@;
    out.push(((v as u16) & 0xff) as u8);
    out.push((((v as u16) >> 8) & 0xff) as u8);
    assert(out@ =~= start + le16(v));
}

/// Appends one motion sample.
pub fn push_imu_sample(out: &mut Vec<u8>, s: &ControllerState)
    ensures
        final(out)@ == old(out)@ + imu_sample(*s),
{
    let ghost start = out@;
    push_le16(out, s.accel_x);
    push_le16(out, s.accel_y);
    push_le16(out, s.accel_z);
    push_le16(out, s.gyro_x);
    push_le16(out, s.gyro_y);
    push_le16(out, s.gyro_z);
    assert(out@ =~= start + imu_sample(*s));
}

/// Builds the timed input report for a snapshot.
pub fn build_input_report(counter: u8, s: &ControllerState) -> (r: Vec<u8>)
    ensures
        r@ == input_report(counter, *s),
        r@.len() == REPORT_LEN,
{
    let mut out: Vec<u8> = Vec::new();
    push_header(&mut out, REPORT_INPUT, counter, s);
    push_imu_sample(&mut out, s);
    push_imu_sample(&mut out, s);
    push_imu_sample(&mut out, s);
    push_zeros(&mut out, 15);
    assert(out@ =~= input_report(counter, *s));
    out
}

/// Builds a subcommand acknowledgment around a 35-byte payload.
pub fn build_ack_report(counter: u8, s: &ControllerState, ack: u8, subcommand: u8, payload: &[u8]) -> (r: Vec<u8>)
    requires
        payload@.len() == 35,
    ensures
        r@ == ack_report(counter, *s, ack, subcommand, payload@),
        r@.len() == REPORT_LEN,
{
    let mut out: Vec<u8> = Vec::new();
    push_header(&mut out, REPORT_SUBCOMMAND_ACK, counter, s);
    out.push(ack);
    out.push(subcommand);
    push_all(&mut out, payload);
    push_zeros(&mut out, 14);
    assert(out@ =~= ack_report(counter, *s, ack, subcommand, payload@));
    out
}

} // verus!
