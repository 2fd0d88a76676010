use vstd::prelude::*;
use crate::report::DeviceInfo;

verus! {

/// Serial number block.
pub open spec fn serial_block() -> Seq<u8> {
    seq![0x00u8, 0x00, 0x58, 0x53, 0x4c, 0x34, 0x30, 0x30, 0x30, 0x30, 0x39, 0x30, 0x30, 0x30, 0x30, 0x30]
}

/// Factory motion-sensor calibration.
pub open spec fn imu_calibration() -> Seq<u8> {
    seq![
        0x73u8, 0x00, 0x9d, 0xff, 0x8c, 0x01, 0x00, 0x40, 0x00, 0x40, 0x00, 0x40,
        0xde, 0xff, 0x0d, 0x00, 0x08, 0x00, 0xe7, 0x3b, 0xe7, 0x3b, 0xe7, 0x3b,
    ]
}

/// Factory stick calibration of both sticks: deflection 0x600 either way
/// around center 0x800.
pub open spec fn stick_calibration() -> Seq<u8> {
    seq![
        0x00u8, 0x06, 0x60, 0x00, 0x08, 0x80, 0x00, 0x06, 0x60,
        0x00, 0x06, 0x60, 0x00, 0x08, 0x80, 0x00, 0x06, 0x60,
    ]
}

/// Motion-sensor offsets for a controller held sideways.
pub open spec fn imu_horizontal_offsets() -> Seq<u8> {
    seq![
        0x50u8, 0xfd, 0x00, 0x00, 0xc6, 0x0f, 0x0f, 0x70, 0x5d, 0x50, 0x00, 0xf0,
        0x38, 0x84, 0x43, 0x38, 0x84, 0x43, 0x33, 0x39, 0x93, 0xcd, 0xd6, 0x6c,
    ]
}

/// `n` bytes of erased memory.
pub open spec fn erased(n: nat) -> Seq<u8> {
    Seq::new(n, |i: int| 0xffu8)
}

/// The colors block: body, buttons, left grip, right grip, then the subtype.
pub open spec fn color_block(info: DeviceInfo) -> Seq<u8> {
    info.body_color@ + info.button_color@ + info.left_grip_color@ + info.right_grip_color@ + seq![
        info.device_subtype,
    ]
}

/// The configuration memory: the block stored at `address` with exactly
/// `length` bytes, if there is one.
pub open spec fn config_block(info: DeviceInfo, address: u32, length: u8) -> Option<Seq<u8>> {
    if address == 0x6000 && length == 0x10 {
        Some(serial_block())
    } else if address == 0x6020 && length == 0x18 {
        Some(imu_calibration())
    } else if address == 0x603d && length == 0x19 {
        Some(stick_calibration() + seq![0xffu8] + info.body_color@ + info.button_color@)
    } else if address == 0x6050 && length == 0x0d {
        Some(color_block(info))
    } else if address == 0x6080 && length == 0x18 {
        Some(imu_horizontal_offsets())
    } else if address == 0x6098 && length == 0x12 {
        Some(erased(0x12))
    } else if address == 0x8010 && length == 0x18 {
        Some(erased(0x18))
    } else {
        None
    }
}

/// A stored block has the length it is stored under.
pub proof fn lemma_config_block_len(info: DeviceInfo, address: u32, length: u8)
    ensures
        config_block(info, address, length) matches Some(b) ==> b.len() == length && length <= 0x19,
{
}

fn erased_bytes(n: usize) -> (r: Vec<u8>)
    ensures
        r@ == erased(n as nat),
{
    let mut v: Vec<u8> = Vec::new();
    let mut i: usize = 0;
    while i < n
        invariant
            i <= n,
            v@ == erased(i as nat),
        decreases n - i,
    {
        v.push(0xff);
        i = i + 1;
        assert(v@ =~= erased(i as nat));
    }
    v
}

/// Looks up a block of the configuration memory by exact address and length.
pub fn read_config(info: &DeviceInfo, address: u32, length: u8) -> (r: Option<Vec<u8>>)
    ensures
        match r {
            Some(v) => config_block(*info, address, length) == Some(v@),
            None => config_block(*info, address, length) is None,
        },
{
    if address == 0x6000 && length == 0x10 {
        let v = vec![0x00u8, 0x00, 0x58, 0x53, 0x4c, 0x34, 0x30, 0x30, 0x30, 0x30, 0x39, 0x30, 0x30, 0x30, 0x30, 0x30];
        assert(v@ =~= serial_block());
        Some(v)
    } else if address == 0x6020 && length == 0x18 {
        let v = vec![
            0x73u8, 0x00, 0x9d, 0xff, 0x8c, 0x01, 0x00, 0x40, 0x00, 0x40, 0x00, 0x40,
            0xde, 0xff, 0x0d, 0x00, 0x08, 0x00, 0xe7, 0x3b, 0xe7, 0x3b, 0xe7, 0x3b,
        ];
        assert(v@ =~= imu_calibration());
        Some(v)
    } else if address == 0x603d && length == 0x19 {
        let mut v = vec![
            0x00u8, 0x06, 0x60, 0x00, 0x08, 0x80, 0x00, 0x06, 0x60,
            0x00, 0x06, 0x60, 0x00, 0x08, 0x80, 0x00, 0x06, 0x60,
        ];
        assert(v@ =~= stick_calibration());
        v.push(0xff);
        v.push(info.body_color[0]);
        v.push(info.body_color[1]);
        v.push(info.body_color[2]);
        v.push(info.button_color[0]);
        v.push(info.button_color[1]);
        v.push(info.button_color[2]);
        assert(v@ =~= stick_calibration() + seq![0xffu8] + info.body_color@ + info.button_color@);
        Some(v)
    } else if address == 0x6050 && length == 0x0d {
        let mut v: Vec<u8> = Vec::new();
        v.push(info.body_color[0]);
        v.push(info.body_color[1]);
        v.push(info.body_color[2]);
        v.push(info.button_color[0]);
        v.push(info.button_color[1]);
        v.push(info.button_color[2]);
        v.push(info.left_grip_color[0]);
        v.push(info.left_grip_color[1]);
        v.push(info.left_grip_color[2]);
        v.push(info.right_grip_color[0]);
        v.push(info.right_grip_color[1]);
        v.push(info.right_grip_color[2]);
        v.push(info.device_subtype);
        assert(v@ =~= color_block(*info));
        Some(v)
    } else if address == 0x6080 && length == 0x18 {
        let v = vec![
            0x50u8, 0xfd, 0x00, 0x00, 0xc6, 0x0f, 0x0f, 0x70, 0x5d, 0x50, 0x00, 0xf0,
            0x38, 0x84, 0x43, 0x38, 0x84, 0x43, 0x33, 0x39, 0x93, 0xcd, 0xd6, 0x6c,
        ];
        assert(v@ =~= imu_horizontal_offsets());
        Some(v)
    } else if address == 0x6098 && length == 0x12 {
        Some(erased_bytes(0x12))
    } else if address == 0x8010 && length == 0x18 {
        Some(erased_bytes(0x18))
    } else {
        None
    }
}

} // verus!
