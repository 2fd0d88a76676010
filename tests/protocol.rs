use libusbd::memory::read_config;
use libusbd::protocol::{advance_counter, answer_subcommand, Diagnostic, Phase, Protocol};
use libusbd::report::{build_input_report, pack_stick, unpack_stick, ControllerState, DeviceInfo};

fn idle_state() -> ControllerState {
    ControllerState {
        buttons: 0x008000,
        left_x: 0x800,
        left_y: 0x800,
        right_x: 0x800,
        right_y: 0x800,
        accel_x: -688,
        accel_y: -100,
        accel_z: 4038,
        gyro_x: 16,
        gyro_y: 16,
        gyro_z: 0,
    }
}

fn subcommand(sub: u8, args: &[u8]) -> Vec<u8> {
    let mut r = vec![0u8; 64];
    r[0] = 0x01;
    r[10] = sub;
    for (i, a) in args.iter().enumerate() {
        r[11 + i] = *a;
    }
    r
}

#[test]
fn center_stick_round_trips() {
    let (b0, b1, b2) = pack_stick(0x800, 0x800);
    assert_eq!((b0, b1, b2), (0x00, 0x08, 0x80));
    assert_eq!(unpack_stick(b0, b1, b2), (0x800, 0x800));
}

#[test]
fn stick_nibbles_interleave() {
    assert_eq!(pack_stick(0x123, 0x456), (0x23, 0x61, 0x45));
    assert_eq!(unpack_stick(0x23, 0x61, 0x45), (0x123, 0x456));
    assert_eq!(pack_stick(0xfff, 0x000), (0xff, 0x0f, 0x00));
    assert_eq!(unpack_stick(0xff, 0x0f, 0x00), (0xfff, 0x000));
}

#[test]
fn input_report_layout() {
    let mut st = idle_state();
    st.buttons = 0x080001;
    let r = build_input_report(7, &st);
    assert_eq!(r.len(), 64);
    assert_eq!(&r[0..13], &[0x30, 7, 0x91, 0x08, 0x00, 0x01, 0x00, 0x08, 0x80, 0x00, 0x08, 0x80, 0x08]);
    let sample = [0x50, 0xfd, 0x9c, 0xff, 0xc6, 0x0f, 0x10, 0x00, 0x10, 0x00, 0x00, 0x00];
    assert_eq!(&r[13..25], &sample);
    assert_eq!(&r[25..37], &sample);
    assert_eq!(&r[37..49], &sample);
    assert!(r[49..].iter().all(|b| *b == 0));
}

#[test]
fn counter_wraps() {
    assert_eq!(advance_counter(250, 10), 4);
    assert_eq!(advance_counter(0, 256), 0);
    assert_eq!(advance_counter(1, 300), 45);
}

#[test]
fn status_handshake_identifies_device() {
    let mut p = Protocol::new(DeviceInfo::pro_controller());
    let d = p.handle(&[0x80, 0x01], &idle_state(), 0);
    let r = d.reply.unwrap();
    assert_eq!(r.len(), 64);
    assert_eq!(&r[0..10], &[0x81, 0x01, 0x00, 0x03, 0x34, 0x12, 0xe5, 0xbf, 0x03, 0x7d]);
    assert!(!d.terminated);
    assert_eq!(p.phase(), Phase::Handshaking);
    assert_eq!(p.counter(), 0);
}

#[test]
fn command_mode_handshake_activates() {
    let mut p = Protocol::new(DeviceInfo::pro_controller());
    let d = p.handle(&[0x80, 0x02], &idle_state(), 0);
    let r = d.reply.unwrap();
    assert_eq!(&r[0..2], &[0x81, 0x02]);
    assert!(r[2..].iter().all(|b| *b == 0));
    assert_eq!(p.phase(), Phase::Active);
}

#[test]
fn stop_handshake_terminates() {
    let mut p = Protocol::new(DeviceInfo::pro_controller());
    let d = p.handle(&[0x80, 0x05], &idle_state(), 0);
    assert!(d.reply.is_none());
    assert!(d.terminated);
    assert!(p.is_terminated());
    let after = p.handle(&[0x10], &idle_state(), 20);
    assert!(after.reply.is_none());
    assert!(after.terminated);
}

#[test]
fn rumble_gets_input_report_and_advances_counter() {
    let mut p = Protocol::new(DeviceInfo::pro_controller());
    let d = p.handle(&[0x10, 0, 0], &idle_state(), 10);
    let r = d.reply.unwrap();
    assert_eq!(r[0], 0x30);
    assert_eq!(r[1], 0);
    assert_eq!(p.counter(), 10);
    let d2 = p.handle(&[0x10], &idle_state(), 250);
    assert_eq!(d2.reply.unwrap()[1], 10);
    assert_eq!(p.counter(), 4);
}

#[test]
fn device_info_subcommand() {
    let mut p = Protocol::new(DeviceInfo::pro_controller());
    let d = p.handle(&subcommand(0x02, &[]), &idle_state(), 3);
    let r = d.reply.unwrap();
    assert_eq!(r[0], 0x21);
    assert_eq!(r[13], 0x82);
    assert_eq!(r[14], 0x02);
    assert_eq!(&r[15..27], &[0x04, 0x11, 0x03, 0x02, 0x34, 0x12, 0xe5, 0xbf, 0x03, 0x7d, 0x00, 0x03]);
    assert!(r[27..].iter().all(|b| *b == 0));
    assert_eq!(d.diagnostic, None);
}

#[test]
fn config_read_returns_stored_block() {
    let mut p = Protocol::new(DeviceInfo::pro_controller());
    let d = p.handle(&subcommand(0x10, &[0x50, 0x60, 0x00, 0x00, 0x0d]), &idle_state(), 0);
    let r = d.reply.unwrap();
    assert_eq!(r[13], 0x90);
    assert_eq!(r[14], 0x10);
    assert_eq!(&r[15..20], &[0x50, 0x60, 0x00, 0x00, 0x0d]);
    assert_eq!(
        &r[20..33],
        &[0xac, 0xac, 0xac, 0x46, 0x46, 0x46, 0xff, 0xff, 0xff, 0xff, 0xff, 0xff, 0x01]
    );
    assert!(r[33..].iter().all(|b| *b == 0));
    assert_eq!(d.diagnostic, None);
}

#[test]
fn stick_calibration_block_carries_colors() {
    let block = read_config(&DeviceInfo::pro_controller(), 0x603d, 0x19).unwrap();
    assert_eq!(block.len(), 0x19);
    assert_eq!(&block[0..3], &[0x00, 0x06, 0x60]);
    assert_eq!(&block[18..25], &[0xff, 0xac, 0xac, 0xac, 0x46, 0x46, 0x46]);
    assert_eq!(read_config(&DeviceInfo::pro_controller(), 0x8010, 0x18).unwrap(), vec![0xff; 0x18]);
}

#[test]
fn config_read_miss_is_zeroed_and_reported() {
    let mut p = Protocol::new(DeviceInfo::pro_controller());
    let d = p.handle(&subcommand(0x10, &[0x50, 0x60, 0x00, 0x00, 0x0c]), &idle_state(), 0);
    let r = d.reply.unwrap();
    assert_eq!(r[13], 0x90);
    assert_eq!(&r[15..20], &[0x50, 0x60, 0x00, 0x00, 0x0c]);
    assert!(r[20..].iter().all(|b| *b == 0));
    assert_eq!(d.diagnostic, Some(Diagnostic::ConfigLookupMiss { address: 0x6050, length: 0x0c }));
    assert!(read_config(&DeviceInfo::pro_controller(), 0x6051, 0x0d).is_none());
}

#[test]
fn unknown_subcommand_gets_generic_ack() {
    let mut p = Protocol::new(DeviceInfo::pro_controller());
    let d = p.handle(&subcommand(0x22, &[1]), &idle_state(), 0);
    let r = d.reply.unwrap();
    assert_eq!(r[13], 0x80);
    assert_eq!(r[14], 0x22);
    assert_eq!(d.diagnostic, Some(Diagnostic::UnrecognizedSubcommand { subcommand: 0x22 }));
}

#[test]
fn stateless_subcommands_are_acknowledged() {
    let info = DeviceInfo::pro_controller();
    assert_eq!(answer_subcommand(&info, 0x01, &[0; 5]).ack, 0x81);
    assert_eq!(answer_subcommand(&info, 0x01, &[0; 5]).payload[0], 0x03);
    assert_eq!(answer_subcommand(&info, 0x04, &[0; 5]).ack, 0x83);
    for sub in [0x08u8, 0x30, 0x38, 0x40, 0x48] {
        let a = answer_subcommand(&info, sub, &[1, 0, 0, 0, 0]);
        assert_eq!(a.ack, 0x80);
        assert_eq!(a.payload, vec![0; 35]);
        assert_eq!(a.diagnostic, None);
    }
}

#[test]
fn unknown_report_gets_no_reply() {
    let mut p = Protocol::new(DeviceInfo::pro_controller());
    let d = p.handle(&[0x42, 1, 2], &idle_state(), 9);
    assert!(d.reply.is_none());
    assert_eq!(d.diagnostic, Some(Diagnostic::UnrecognizedReport { kind: 0x42 }));
    assert_eq!(p.counter(), 0);
    let e = p.handle(&[0x80, 0x01, 0x00], &idle_state(), 9);
    assert!(e.reply.is_none());
    assert_eq!(e.diagnostic, Some(Diagnostic::UnrecognizedReport { kind: 0x80 }));
}

#[test]
fn full_mode_starts_streaming() {
    let mut p = Protocol::new(DeviceInfo::pro_controller());
    assert!(p.emit_due(&idle_state(), 100).is_none());
    let other = p.handle(&subcommand(0x03, &[0x3f]), &idle_state(), 0);
    assert_eq!(other.reply.unwrap()[13], 0x80);
    assert!(!p.is_streaming());
    p.handle(&subcommand(0x03, &[0x30]), &idle_state(), 0);
    assert!(p.is_streaming());
    assert!(p.emit_due(&idle_state(), 7).is_none());
    let r = p.emit_due(&idle_state(), 8).unwrap();
    assert_eq!(r[0], 0x30);
    assert_eq!(r[1], 0);
    assert_eq!(p.counter(), 8);
    p.handle(&[0x80, 0x02], &idle_state(), 0);
    assert!(p.is_streaming());
}

#[test]
fn empty_report_is_unrecognized() {
    let mut p = Protocol::new(DeviceInfo::pro_controller());
    let d = p.handle(&[], &idle_state(), 9);
    assert!(d.reply.is_none());
    assert!(!d.terminated);
    assert_eq!(d.diagnostic, Some(Diagnostic::UnrecognizedReport { kind: 0 }));
    assert_eq!(p.phase(), Phase::Idle);
}
