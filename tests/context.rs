use libusbd::{Context, EpDir, EpPoll, EpType, Error, TransferError};

fn must_succeed<T>(r: Result<T, Error>) -> T {
    match r {
        Ok(n) => n,
        Err(err) => panic!("Got error: {:?}", err),
    }
}

#[test]
fn test_init() {
    let mut context = Context::new();

    must_succeed(context.set_vid(0x1234));
    must_succeed(context.set_pid(0x1234));

    must_succeed(context.set_class(0));
    must_succeed(context.set_subclass(0));
    must_succeed(context.set_protocol(0));

    must_succeed(context.set_manufacturer_str("Manufacturer"));
    must_succeed(context.set_product_str("Product"));
    must_succeed(context.set_serial_str("Serial"));

    let iface_num = match context.iface_alloc() {
        Ok(n) => n,
        Err(error) => panic!("Couldn't allocate interface: {:?}", error),
    };

    must_succeed(context.config_finalize());

    must_succeed(context.iface_set_class(iface_num, 3));
    must_succeed(context.iface_set_subclass(iface_num, 1));
    must_succeed(context.iface_set_protocol(iface_num, 1));

    let hid_desc: [u8; 9] = [0x09, 0x21, 0x11, 0x01, 0x00, 0x01, 0x22, 0x5D, 0x00];
    let hid_report_desc: [u8; 65] = [
        0x05, 0x01, 0x09, 0x06, 0xA1, 0x01, 0x05, 0x07, 0x19, 0xE0, 0x29, 0xE7, 0x15, 0x00, 0x25,
        0x01, 0x75, 0x01, 0x95, 0x08, 0x81, 0x02, 0x95, 0x01, 0x75, 0x08, 0x81, 0x01, 0x95, 0x03,
        0x75, 0x01, 0x05, 0x08, 0x19, 0x01, 0x29, 0x03, 0x91, 0x02, 0x95, 0x05, 0x75, 0x01, 0x91,
        0x01, 0x95, 0x06, 0x75, 0x08, 0x15, 0x00, 0x26, 0xFF, 0x00, 0x05, 0x07, 0x19, 0x00, 0x2A,
        0xFF, 0x00, 0x81, 0x00, 0xC0,
    ];

    must_succeed(context.iface_standard_desc(iface_num, 0x21, 0xF, &hid_desc));
    must_succeed(context.iface_nonstandard_desc(iface_num, 0x22, 0xF, &hid_report_desc));
    let ep_out = match context.iface_add_endpoint(iface_num, EpType::INTR, EpDir::IN, 8, 10, 0) {
        Ok(n) => n,
        Err(error) => panic!("Couldn't add endpoint: {:?}", error),
    };
    must_succeed(context.iface_finalize(iface_num));

    let test_send: [u8; 8] = [0x0, 0x0, 0x20, 0x0, 0x0, 0x0, 0x0, 0x0];
    let test_send_2: [u8; 8] = [0x0, 0x0, 0x0, 0x0, 0x0, 0x0, 0x0, 0x0];

    let first = must_succeed(context.ep_write_async(iface_num, ep_out, &test_send));
    must_succeed(context.ep_transfer_ended(iface_num, ep_out, Ok(8)));
    assert_eq!(first.poll(&mut context), EpPoll::Done { bytes: 8 });
    let second = must_succeed(context.ep_write_async(iface_num, ep_out, &test_send_2));
    must_succeed(context.ep_transfer_ended(iface_num, ep_out, Ok(8)));
    assert_eq!(second.poll(&mut context), EpPoll::Done { bytes: 8 });
}

#[test]
fn device_fields_are_fixed_after_config_finalize() {
    let mut context = Context::new();
    assert_eq!(context.set_vid(0x057e), Ok(()));
    assert_eq!(context.config_finalize(), Ok(()));
    assert_eq!(context.set_vid(1), Err(Error::AlreadyFinalized));
    assert_eq!(context.set_manufacturer_str("X"), Err(Error::AlreadyFinalized));
    assert_eq!(context.iface_alloc(), Err(Error::AlreadyFinalized));
    assert_eq!(context.config_finalize(), Err(Error::AlreadyFinalized));
}

#[test]
fn interfaces_are_numbered_in_order() {
    let mut context = Context::new();
    assert_eq!(context.iface_alloc(), Ok(0));
    assert_eq!(context.iface_alloc(), Ok(1));
    assert_eq!(context.iface_set_class(2, 3), Err(Error::InvalidArgument));
}

#[test]
fn interface_finalize_needs_finalized_config() {
    let mut context = Context::new();
    let iface = context.iface_alloc().unwrap();
    assert_eq!(context.iface_finalize(iface), Err(Error::InvalidArgument));
    context.config_finalize().unwrap();
    assert_eq!(context.iface_finalize(iface), Ok(()));
    assert_eq!(context.iface_finalize(iface), Err(Error::AlreadyFinalized));
    assert_eq!(context.iface_set_protocol(iface, 1), Err(Error::AlreadyFinalized));
}

#[test]
fn endpoint_arguments_are_checked() {
    let mut context = Context::new();
    let iface = context.iface_alloc().unwrap();
    context.config_finalize().unwrap();
    assert_eq!(context.iface_add_endpoint(iface, 4, EpDir::IN, 64, 1, 0), Err(Error::InvalidArgument));
    assert_eq!(context.iface_add_endpoint(iface, EpType::INTR, 0x40, 64, 1, 0), Err(Error::InvalidArgument));
    assert_eq!(context.iface_add_endpoint(iface, EpType::INTR, EpDir::OUT, 64, 1, 0), Ok(0));
    assert_eq!(context.iface_add_endpoint(iface, EpType::INTR, EpDir::IN, 64, 1, 0), Ok(1));
}

#[test]
fn endpoint_limit_is_enforced() {
    let mut context = Context::new();
    let iface = context.iface_alloc().unwrap();
    for i in 0..30u64 {
        assert_eq!(context.iface_add_endpoint(iface, EpType::BULK, EpDir::IN, 64, 0, 0), Ok(i));
    }
    assert_eq!(context.iface_add_endpoint(iface, EpType::BULK, EpDir::IN, 64, 0, 0), Err(Error::ResourceLimit));
}

fn configured() -> (Context, u8, u64, u64) {
    let mut context = Context::new();
    let iface = context.iface_alloc().unwrap();
    context.config_finalize().unwrap();
    let ep_in = context.iface_add_endpoint(iface, EpType::INTR, EpDir::OUT, 64, 1, 0).unwrap();
    let ep_out = context.iface_add_endpoint(iface, EpType::INTR, EpDir::IN, 64, 1, 0).unwrap();
    (context, iface, ep_in, ep_out)
}

#[test]
fn transfers_wait_for_enumeration() {
    let (mut context, iface, ep_in, _) = configured();
    assert!(matches!(context.ep_read_async(iface, ep_in, 64), Err(Error::NotEnumerated)));
    assert_eq!(context.ep_transfer_done(iface, ep_in), Err(Error::NotEnumerated));
    context.iface_finalize(iface).unwrap();
    assert!(context.ep_read_async(iface, ep_in, 64).is_ok());
}

#[test]
fn transfers_check_direction_and_overlap() {
    let (mut context, iface, ep_in, ep_out) = configured();
    context.iface_finalize(iface).unwrap();
    assert!(matches!(context.ep_read_async(iface, ep_out, 64), Err(Error::InvalidArgument)));
    assert!(matches!(context.ep_write_async(iface, ep_in, &[1, 2]), Err(Error::InvalidArgument)));
    assert!(matches!(context.ep_read_async(iface, 7, 64), Err(Error::InvalidArgument)));
    assert!(context.ep_read_async(iface, ep_in, 64).is_ok());
    assert!(matches!(context.ep_read_async(iface, ep_in, 64), Err(Error::ResourceLimit)));
    assert!(context.ep_write_async(iface, ep_out, &[1, 2, 3]).is_ok());
}

#[test]
fn a_read_completes_once() {
    let (mut context, iface, ep_in, _) = configured();
    context.iface_finalize(iface).unwrap();
    let f = context.ep_read_async(iface, ep_in, 64).unwrap();
    assert_eq!(context.ep_transfer_done(iface, ep_in), Ok(false));
    assert_eq!(f.poll(&mut context), EpPoll::Pending { recheck_ms: 1 });
    assert_eq!(context.ep_transfer_ended(iface, ep_in, Ok(2)), Ok(()));
    assert_eq!(context.ep_transfer_done(iface, ep_in), Ok(true));
    assert_eq!(context.ep_transferred_bytes(iface, ep_in), Ok(2));
    assert_eq!(f.poll(&mut context), EpPoll::Done { bytes: 2 });
    assert_eq!(f.poll(&mut context), EpPoll::Failed { error: TransferError::DriverError });
    assert_eq!(context.ep_transfer_ended(iface, ep_in, Ok(2)), Err(Error::Invalid));
}

#[test]
fn driver_errors_reach_the_waiting_task() {
    let (mut context, iface, ep_in, _) = configured();
    context.iface_finalize(iface).unwrap();
    let f = context.ep_read_async(iface, ep_in, 64).unwrap();
    context.ep_transfer_ended(iface, ep_in, Err(Error::Timeout)).unwrap();
    assert_eq!(f.poll(&mut context), EpPoll::Failed { error: TransferError::Timeout });
    let g = context.ep_read_async(iface, ep_in, 64).unwrap();
    context.ep_transfer_ended(iface, ep_in, Err(Error::Nondescript)).unwrap();
    assert_eq!(g.poll(&mut context), EpPoll::Failed { error: TransferError::DriverError });
}

#[test]
fn abort_and_stall_end_a_transfer() {
    let (mut context, iface, ep_in, ep_out) = configured();
    context.iface_finalize(iface).unwrap();
    let f = context.ep_read_async(iface, ep_in, 64).unwrap();
    assert_eq!(context.ep_abort(iface, ep_in), Ok(()));
    assert_eq!(context.ep_transfer_done(iface, ep_in), Ok(true));
    assert_eq!(f.poll(&mut context), EpPoll::Failed { error: TransferError::Aborted });
    let g = context.ep_write_async(iface, ep_out, &[0; 64]).unwrap();
    assert_eq!(context.ep_stall(iface, ep_out), Ok(()));
    assert_eq!(g.poll(&mut context), EpPoll::Failed { error: TransferError::Aborted });
    assert_eq!(context.ep_transferred_bytes(iface, ep_out), Ok(0));
}

#[test]
fn interface_numbers_run_out() {
    let mut context = Context::new();
    for i in 0..255u32 {
        assert_eq!(context.iface_alloc(), Ok(i as u8));
    }
    assert_eq!(context.iface_alloc(), Err(Error::ResourceLimit));
}
