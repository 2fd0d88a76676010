use libusbd::input::KeyEvent;
use libusbd::protocol::Phase;
use libusbd::report::DeviceInfo;
use libusbd::session::ControllerLoop;

fn enable_full_mode() -> Vec<u8> {
    let mut r = vec![0u8; 49];
    r[0] = 0x01;
    r[10] = 0x03;
    r[11] = 0x30;
    r
}

#[test]
fn streaming_emits_every_interval_without_reports() {
    let mut l = ControllerLoop::new(DeviceInfo::pro_controller(), 1000);
    assert!(l.tick(&[], &[], &[], 1020).write.is_none());
    let t = l.tick(&[], &[], &enable_full_mode(), 1030);
    assert_eq!(t.write.unwrap()[0], 0x21);
    assert_eq!(l.phase(), Phase::Streaming);
    assert!(l.tick(&[], &[], &[], 1035).write.is_none());
    let first = l.tick(&[], &[], &[], 1038).write.unwrap();
    assert_eq!(first[0], 0x30);
    assert_eq!(first[1], 30);
    let second = l.tick(&[], &[], &[], 1046).write.unwrap();
    assert_eq!(second[0], 0x30);
    assert_eq!(second[1], 38);
    let stop = l.tick(&[], &[], &[0x80, 0x05], 1050);
    assert!(stop.terminated);
    assert!(l.tick(&[], &[], &[], 1100).write.is_none());
}

#[test]
fn ticks_fold_keys_into_reports() {
    let mut l = ControllerLoop::new(DeviceInfo::pro_controller(), 0);
    let t = l.tick(&[KeyEvent { scancode: 0x16, pressed: true }], &[], &[0x10], 5);
    let r = t.write.unwrap();
    assert_eq!(&r[3..6], &[0x08, 0x80, 0x00]);
    assert_eq!(l.state().buttons, 0x088000);
    let t = l.tick(&[KeyEvent { scancode: 0x16, pressed: false }], &[], &[0x10], 9);
    assert_eq!(&t.write.unwrap()[1..6], &[5, 0x91, 0x00, 0x80, 0x00]);
}
