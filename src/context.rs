use vstd::prelude::*;
use crate::error::{transfer_error_of, Error, TransferError};

verus! {

/// Endpoint directions, as USB encodes them in an endpoint address.
#[non_exhaustive]
pub struct EpDir;

impl EpDir {
    /// Device to host.
    pub const IN: u8 = 0x80;
    /// Host to device.
    pub const OUT: u8 = 0x00;
}

/// Endpoint transfer types, as USB encodes them in an endpoint's attributes.
#[non_exhaustive]
pub struct EpType;

impl EpType {
    pub const CTRL: u8 = 0;
    pub const ISOC: u8 = 1;
    pub const BULK: u8 = 2;
    pub const INTR: u8 = 3;
}

/// Interfaces a configuration can hold; an interface number is one byte
/// and 0xFF names none.
pub const MAX_INTERFACES: usize = 0xff;
/// Endpoints a device can have beside the control endpoint: fifteen each way.
pub const MAX_ENDPOINTS: usize = 30;
/// How long a pending transfer waits before it is polled again, in milliseconds.
pub const POLL_INTERVAL_MS: u64 = 1;

/// Class codes and state of one interface.
#[derive(Debug, Clone, Copy, PartialEq, Eq, Structural)]
pub struct InterfaceConfig {
    pub class: u8,
    pub subclass: u8,
    pub protocol: u8,
    pub finalized: bool,
}

/// Where the transfer of an endpoint stands.
#[derive(Debug, Clone, Copy, PartialEq, Eq, Structural)]
pub enum Transfer {
    /// Nothing outstanding.
    Idle,
    /// A read of up to `len` bytes is outstanding.
    Reading { len: u32 },
    /// A write of `len` bytes is outstanding.
    Writing { len: u32 },
    /// The transfer completed with `bytes` bytes; not yet observed.
    Finished { bytes: i32 },
    /// The transfer failed; not yet observed.
    Failed { error: Error },
    /// The transfer was aborted; not yet observed.
    Aborted,
    /// The endpoint was stalled, ending any transfer on it.
    Stalled,
}

/// One endpoint of an interface.
#[derive(Debug, Clone, Copy, PartialEq, Eq, Structural)]
pub struct Endpoint {
    pub iface_num: u8,
    pub ep_type: u8,
    pub direction: u8,
    pub max_pkt_size: u32,
    pub interval: u8,
    pub transfer: Transfer,
}

/// A descriptor registered on an interface.
pub struct Descriptor {
    pub iface_num: u8,
    /// Whether it is part of the interface descriptor, or only fetched
    /// with a setup packet.
    pub standard: bool,
    pub desc_type: u8,
    pub index: u8,
    pub data: Vec<u8>,
}

pub struct DescriptorView {
    pub iface_num: u8,
    pub standard: bool,
    pub desc_type: u8,
    pub index: u8,
    pub data: Seq<u8>,
}

impl View for Descriptor {
    type V = DescriptorView;

    open spec fn view(&self) -> DescriptorView {
        DescriptorView {
            iface_num: self.iface_num,
            standard: self.standard,
            desc_type: self.desc_type,
            index: self.index,
            data: self.data@,
        }
    }
}

/// The configuration of the emulated device and the state of its transfers.
pub struct ContextView {
    pub vid: u16,
    pub pid: u16,
    pub version: u16,
    pub class: u8,
    pub subclass: u8,
    pub protocol: u8,
    pub manufacturer: Seq<char>,
    pub product: Seq<char>,
    pub serial: Seq<char>,
    pub finalized: bool,
    pub interfaces: Seq<InterfaceConfig>,
    pub descriptors: Seq<DescriptorView>,
    pub endpoints: Seq<Endpoint>,
}

/// Whether an interface can still be changed.
pub open spec fn iface_status(v: ContextView, iface_num: u8) -> Result<(), Error> {
    if iface_num >= v.interfaces.len() {
        Err(Error::InvalidArgument)
    } else if v.interfaces[iface_num as int].finalized {
        Err(Error::AlreadyFinalized)
    } else {
        Ok(())
    }
}

/// Whether `ep` names an endpoint of the interface that can carry transfers.
pub open spec fn ep_status(v: ContextView, iface_num: u8, ep: u64) -> Result<(), Error> {
    if ep >= v.endpoints.len() || v.endpoints[ep as int].iface_num != iface_num || iface_num
        >= v.interfaces.len() {
        Err(Error::InvalidArgument)
    } else if !v.interfaces[iface_num as int].finalized {
        Err(Error::NotEnumerated)
    } else {
        Ok(())
    }
}

pub open spec fn in_flight(t: Transfer) -> bool {
    t is Reading || t is Writing
}

/// Why a transfer cannot start on an endpoint, if it cannot.
pub open spec fn start_status(v: ContextView, iface_num: u8, ep: u64, direction: u8) -> Result<(), Error> {
    match ep_status(v, iface_num, ep) {
        Err(e) => Err(e),
        Ok(_) => if v.endpoints[ep as int].direction != direction {
            Err(Error::InvalidArgument)
        } else if in_flight(v.endpoints[ep as int].transfer) {
            Err(Error::ResourceLimit)
        } else {
            Ok(())
        },
    }
}

/// The context with the transfer of one endpoint replaced.
pub open spec fn with_transfer(v: ContextView, ep: u64, t: Transfer) -> ContextView {
    ContextView {
        endpoints: v.endpoints.update(ep as int, Endpoint { transfer: t, ..v.endpoints[ep as int] }),
        ..v
    }
}

/// The context with one interface replaced.
pub open spec fn with_interface(v: ContextView, iface_num: u8, i: InterfaceConfig) -> ContextView {
    ContextView { interfaces: v.interfaces.update(iface_num as int, i), ..v }
}

/// Every endpoint belongs to an allocated interface.
pub open spec fn context_wf(v: ContextView) -> bool {
    &&& v.interfaces.len() <= MAX_INTERFACES
    &&& v.endpoints.len() <= MAX_ENDPOINTS
    &&& forall|i: int| 0 <= i < v.endpoints.len() ==> (#[trigger] v.endpoints[i]).iface_num < v.interfaces.len()
}

/// A handle on the transfer outstanding on one endpoint.
#[derive(Debug, Clone, Copy, PartialEq, Eq, Structural)]
pub struct EpFuture {
    pub iface_num: u8,
    pub ep: u64,
}

/// What polling a transfer handle gives.
#[derive(Debug, Clone, Copy, PartialEq, Eq, Structural)]
pub enum EpPoll {
    /// The transfer completed with this many bytes; the handle is spent.
    Done { bytes: i32 },
    /// The transfer ended without data; the handle is spent.
    Failed { error: TransferError },
    /// Still outstanding: poll again after `recheck_ms` milliseconds.
    Pending { recheck_ms: u64 },
}

/// What polling a transfer in state `t` reports.
pub open spec fn poll_of(t: Transfer) -> EpPoll {
    match t {
        Transfer::Reading { .. } | Transfer::Writing { .. } => EpPoll::Pending {
            recheck_ms: POLL_INTERVAL_MS,
        },
        Transfer::Finished { bytes } => EpPoll::Done { bytes },
        Transfer::Failed { error } => EpPoll::Failed { error: transfer_error_of(error) },
        Transfer::Aborted | Transfer::Stalled => EpPoll::Failed { error: TransferError::Aborted },
        Transfer::Idle => EpPoll::Failed { error: TransferError::DriverError },
    }
}

/// The device session: what has been configured, in the order the driver
/// accepts it, and the transfer outstanding on each endpoint.
pub struct Context {
    vid: u16,
    pid: u16,
    version: u16,
    class: u8,
    subclass: u8,
    protocol: u8,
    manufacturer: String,
    product: String,
    serial: String,
    finalized: bool,
    interfaces: Vec<InterfaceConfig>,
    descriptors: Vec<Descriptor>,
    endpoints: Vec<Endpoint>,
}

impl View for Context {
    type V = ContextView;

    closed spec fn view(&self) -> ContextView {
        ContextView {
            vid: self.vid,
            pid: self.pid,
            version: self.version,
            class: self.class,
            subclass: self.subclass,
            protocol: self.protocol,
            manufacturer: self.manufacturer@,
            product: self.product@,
            serial: self.serial@,
            finalized: self.finalized,
            interfaces: self.interfaces@,
            descriptors: self.descriptors@.map_values(|d: Descriptor| d@),
            endpoints: self.endpoints@,
        }
    }
}

impl Context {
    pub open spec fn wf(&self) -> bool {
        context_wf(self@)
    }

    /// An empty, unfinalized configuration.
    pub fn new() -> (r: Context)
        ensures
            r.wf(),
            r@.vid == 0 && r@.pid == 0 && r@.version == 0,
            r@.class == 0 && r@.subclass == 0 && r@.protocol == 0,
            r@.manufacturer.len() == 0 && r@.product.len() == 0 && r@.serial.len() == 0,
            !r@.finalized,
            r@.interfaces.len() == 0,
            r@.descriptors.len() == 0,
            r@.endpoints.len() == 0,
    {
        let r = Context {
            vid: 0,
            pid: 0,
            version: 0,
            class: 0,
            subclass: 0,
            protocol: 0,
            manufacturer: String::new(),
            product: String::new(),
            serial: String::new(),
            finalized: false,
            interfaces: Vec::new(),
            descriptors: Vec::new(),
            endpoints: Vec::new(),
        };
        assert(r@.descriptors =~= Seq::<DescriptorView>::empty());
        r
    }

    /// Sets the device's Vendor ID.
    pub fn set_vid(&mut self, val: u16) -> (r: Result<(), Error>)
        ensures
            old(self)@.finalized ==> r == Err::<(), Error>(Error::AlreadyFinalized) && final(self)@ == old(self)@,
            !old(self)@.finalized ==> r == Ok::<(), Error>(()) && final(self)@ == (ContextView { vid: val, ..old(self)@ }),
    {
        if self.finalized {
            return Err(Error::AlreadyFinalized);
        }
        self.vid = val;
        Ok(())
    }

    /// Sets the device's Product ID.
    pub fn set_pid(&mut self, val: u16) -> (r: Result<(), Error>)
        ensures
            old(self)@.finalized ==> r == Err::<(), Error>(Error::AlreadyFinalized) && final(self)@ == old(self)@,
            !old(self)@.finalized ==> r == Ok::<(), Error>(()) && final(self)@ == (ContextView { pid: val, ..old(self)@ }),
    {
        if self.finalized {
            return Err(Error::AlreadyFinalized);
        }
        self.pid = val;
        Ok(())
    }

    /// Sets the device's version.
    pub fn set_version(&mut self, val: u16) -> (r: Result<(), Error>)
        ensures
            old(self)@.finalized ==> r == Err::<(), Error>(Error::AlreadyFinalized) && final(self)@ == old(self)@,
            !old(self)@.finalized ==> r == Ok::<(), Error>(()) && final(self)@ == (ContextView { version: val, ..old(self)@ }),
    {
        if self.finalized {
            return Err(Error::AlreadyFinalized);
        }
        self.version = val;
        Ok(())
    }

    /// Sets the device's class code.
    pub fn set_class(&mut self, val: u8) -> (r: Result<(), Error>)
        ensures
            old(self)@.finalized ==> r == Err::<(), Error>(Error::AlreadyFinalized) && final(self)@ == old(self)@,
            !old(self)@.finalized ==> r == Ok::<(), Error>(()) && final(self)@ == (ContextView { class: val, ..old(self)@ }),
    {
        if self.finalized {
            return Err(Error::AlreadyFinalized);
        }
        self.class = val;
        Ok(())
    }

    /// Sets the device's subclass code.
    pub fn set_subclass(&mut self, val: u8) -> (r: Result<(), Error>)
        ensures
            old(self)@.finalized ==> r == Err::<(), Error>(Error::AlreadyFinalized) && final(self)@ == old(self)@,
            !old(self)@.finalized ==> r == Ok::<(), Error>(()) && final(self)@ == (ContextView { subclass: val, ..old(self)@ }),
    {
        if self.finalized {
            return Err(Error::AlreadyFinalized);
        }
        self.subclass = val;
        Ok(())
    }

    /// Sets the device's protocol code.
    pub fn set_protocol(&mut self, val: u8) -> (r: Result<(), Error>)
        ensures
            old(self)@.finalized ==> r == Err::<(), Error>(Error::AlreadyFinalized) && final(self)@ == old(self)@,
            !old(self)@.finalized ==> r == Ok::<(), Error>(()) && final(self)@ == (ContextView { protocol: val, ..old(self)@ }),
    {
        if self.finalized {
            return Err(Error::AlreadyFinalized);
        }
        self.protocol = val;
        Ok(())
    }

    /// Sets the device's manufacturer string.
    pub fn set_manufacturer_str(&mut self, val: &str) -> (r: Result<(), Error>)
        ensures
            old(self)@.finalized ==> r == Err::<(), Error>(Error::AlreadyFinalized) && final(self)@ == old(self)@,
            !old(self)@.finalized ==> r == Ok::<(), Error>(()) && final(self)@ == (ContextView { manufacturer: val@, ..old(self)@ }),
    {
        if self.finalized {
            return Err(Error::AlreadyFinalized);
        }
        self.manufacturer = val.to_owned();
        Ok(())
    }

    /// Sets the device's product string.
    pub fn set_product_str(&mut self, val: &str) -> (r: Result<(), Error>)
        ensures
            old(self)@.finalized ==> r == Err::<(), Error>(Error::AlreadyFinalized) && final(self)@ == old(self)@,
            !old(self)@.finalized ==> r == Ok::<(), Error>(()) && final(self)@ == (ContextView { product: val@, ..old(self)@ }),
    {
        if self.finalized {
            return Err(Error::AlreadyFinalized);
        }
        self.product = val.to_owned();
        Ok(())
    }

    /// Sets the device's serial number string.
    pub fn set_serial_str(&mut self, val: &str) -> (r: Result<(), Error>)
        ensures
            old(self)@.finalized ==> r == Err::<(), Error>(Error::AlreadyFinalized) && final(self)@ == old(self)@,
            !old(self)@.finalized ==> r == Ok::<(), Error>(()) && final(self)@ == (ContextView { serial: val@, ..old(self)@ }),
    {
        if self.finalized {
            return Err(Error::AlreadyFinalized);
        }
        self.serial = val.to_owned();
        Ok(())
    }

    /// Fixes the device fields and the number of interfaces. Interfaces are
    /// allocated before this and finalized after it with `iface_finalize`.
    pub fn config_finalize(&mut self) -> (r: Result<(), Error>)
        ensures
            old(self)@.finalized ==> r == Err::<(), Error>(Error::AlreadyFinalized) && final(self)@ == old(self)@,
            !old(self)@.finalized ==> r == Ok::<(), Error>(()) && final(self)@ == (ContextView { finalized: true, ..old(self)@ }),
    {
        if self.finalized {
            return Err(Error::AlreadyFinalized);
        }
        self.finalized = true;
        Ok(())
    }

    /// Allocates the next interface number.
    pub fn iface_alloc(&mut self) -> (r: Result<u8, Error>)
        requires
            old(self).wf(),
        ensures
            final(self).wf(),
            old(self)@.finalized ==> r == Err::<u8, Error>(Error::AlreadyFinalized) && final(self)@ == old(self)@,
            !old(self)@.finalized && old(self)@.interfaces.len() >= MAX_INTERFACES ==> r == Err::<u8, Error>(Error::ResourceLimit) && final(self)@ == old(self)@,
            !old(self)@.finalized && old(self)@.interfaces.len() < MAX_INTERFACES ==> r == Ok::<u8, Error>(old(self)@.interfaces.len() as u8)
                && final(self)@ == (ContextView {
                    interfaces: old(self)@.interfaces.push(InterfaceConfig { class: 0, subclass: 0, protocol: 0, finalized: false }),
                    ..old(self)@
                }),
    {
        if self.finalized {
            return Err(Error::AlreadyFinalized);
        }
        if self.interfaces.len() >= MAX_INTERFACES {
            return Err(Error::ResourceLimit);
        }
        let n = self.interfaces.len() as u8;
        self.interfaces.push(InterfaceConfig { class: 0, subclass: 0, protocol: 0, finalized: false });
        Ok(n)
    }

    fn check_iface(&self, iface_num: u8) -> (r: Result<(), Error>)
        ensures
            r == iface_status(self@, iface_num),
    {
        if iface_num as usize >= self.interfaces.len() {
            Err(Error::InvalidArgument)
        } else if self.interfaces[iface_num as usize].finalized {
            Err(Error::AlreadyFinalized)
        } else {
            Ok(())
        }
    }

    /// Fixes the interface's descriptors, endpoints and class codes. Only
    /// after the configuration is finalized.
    pub fn iface_finalize(&mut self, iface_num: u8) -> (r: Result<(), Error>)
        requires
            old(self).wf(),
        ensures
            final(self).wf(),
            iface_status(old(self)@, iface_num) matches Err(e) ==> r == Err::<(), Error>(e) && final(self)@ == old(self)@,
            iface_status(old(self)@, iface_num) is Ok && !old(self)@.finalized ==> r == Err::<(), Error>(Error::InvalidArgument) && final(self)@ == old(self)@,
            iface_status(old(self)@, iface_num) is Ok && old(self)@.finalized ==> r == Ok::<(), Error>(())
                && final(self)@ == with_interface(old(self)@, iface_num,
                    InterfaceConfig { finalized: true, ..old(self)@.interfaces[iface_num as int] }),
    {
        if let Err(e) = self.check_iface(iface_num) {
            return Err(e);
        }
        if !self.finalized {
            return Err(Error::InvalidArgument);
        }
        let i = iface_num as usize;
        let cfg = self.interfaces[i];
        self.interfaces.set(i, InterfaceConfig { finalized: true, ..cfg });
        Ok(())
    }

    /// Sets the interface class code.
    pub fn iface_set_class(&mut self, iface_num: u8, val: u8) -> (r: Result<(), Error>)
        requires
            old(self).wf(),
        ensures
            final(self).wf(),
            iface_status(old(self)@, iface_num) matches Err(e) ==> r == Err::<(), Error>(e) && final(self)@ == old(self)@,
            iface_status(old(self)@, iface_num) is Ok ==> r == Ok::<(), Error>(())
                && final(self)@ == with_interface(old(self)@, iface_num,
                    InterfaceConfig { class: val, ..old(self)@.interfaces[iface_num as int] }),
    {
        if let Err(e) = self.check_iface(iface_num) {
            return Err(e);
        }
        let i = iface_num as usize;
        let cfg = self.interfaces[i];
        self.interfaces.set(i, InterfaceConfig { class: val, ..cfg });
        Ok(())
    }

    /// Sets the interface subclass code.
    pub fn iface_set_subclass(&mut self, iface_num: u8, val: u8) -> (r: Result<(), Error>)
        requires
            old(self).wf(),
        ensures
            final(self).wf(),
            iface_status(old(self)@, iface_num) matches Err(e) ==> r == Err::<(), Error>(e) && final(self)@ == old(self)@,
            iface_status(old(self)@, iface_num) is Ok ==> r == Ok::<(), Error>(())
                && final(self)@ == with_interface(old(self)@, iface_num,
                    InterfaceConfig { subclass: val, ..old(self)@.interfaces[iface_num as int] }),
    {
        if let Err(e) = self.check_iface(iface_num) {
            return Err(e);
        }
        let i = iface_num as usize;
        let cfg = self.interfaces[i];
        self.interfaces.set(i, InterfaceConfig { subclass: val, ..cfg });
        Ok(())
    }

    /// Sets the interface protocol code.
    pub fn iface_set_protocol(&mut self, iface_num: u8, val: u8) -> (r: Result<(), Error>)
        requires
            old(self).wf(),
        ensures
            final(self).wf(),
            iface_status(old(self)@, iface_num) matches Err(e) ==> r == Err::<(), Error>(e) && final(self)@ == old(self)@,
            iface_status(old(self)@, iface_num) is Ok ==> r == Ok::<(), Error>(())
                && final(self)@ == with_interface(old(self)@, iface_num,
                    InterfaceConfig { protocol: val, ..old(self)@.interfaces[iface_num as int] }),
    {
        if let Err(e) = self.check_iface(iface_num) {
            return Err(e);
        }
        let i = iface_num as usize;
        let cfg = self.interfaces[i];
        self.interfaces.set(i, InterfaceConfig { protocol: val, ..cfg });
        Ok(())
    }

    fn add_descriptor(&mut self, iface_num: u8, standard: bool, desc_type: u8, index: u8, data: &[u8])
        ensures
            final(self)@ == (ContextView {
                descriptors: old(self)@.descriptors.push(
                    DescriptorView { iface_num, standard, desc_type, index, data: data@ },
                ),
                ..old(self)@
            }),
    {
        let mut bytes: Vec<u8> = Vec::new();
        crate::report::push_all(&mut bytes, data);
        assert(bytes@ =~= data@);
        let ghost before = self.descriptors@;
        self.descriptors.push(Descriptor { iface_num, standard, desc_type, index, data: bytes });
        assert(self.descriptors@.map_values(|d: Descriptor| d@) =~= before.map_values(
            |d: Descriptor| d@,
        ).push(DescriptorView { iface_num, standard, desc_type, index, data: data@ }));
    }

    /// Adds a descriptor that the interface descriptor includes and that a
    /// setup packet can fetch too, such as a HID descriptor.
    pub fn iface_standard_desc(&mut self, iface_num: u8, desc_type: u8, unk: u8, p_desc: &[u8]) -> (r: Result<(), Error>)
        requires
            old(self).wf(),
        ensures
            final(self).wf(),
            iface_status(old(self)@, iface_num) matches Err(e) ==> r == Err::<(), Error>(e) && final(self)@ == old(self)@,
            iface_status(old(self)@, iface_num) is Ok ==> r == Ok::<(), Error>(()) && final(self)@ == (ContextView {
                descriptors: old(self)@.descriptors.push(
                    DescriptorView { iface_num, standard: true, desc_type, index: unk, data: p_desc@ },
                ),
                ..old(self)@
            }),
    {
        if let Err(e) = self.check_iface(iface_num) {
            return Err(e);
        }
        self.add_descriptor(iface_num, true, desc_type, unk, p_desc);
        Ok(())
    }

    /// Adds a descriptor that only a setup packet fetches, such as a HID
    /// report descriptor.
    pub fn iface_nonstandard_desc(&mut self, iface_num: u8, desc_type: u8, unk: u8, p_desc: &[u8]) -> (r: Result<(), Error>)
        requires
            old(self).wf(),
        ensures
            final(self).wf(),
            iface_status(old(self)@, iface_num) matches Err(e) ==> r == Err::<(), Error>(e) && final(self)@ == old(self)@,
            iface_status(old(self)@, iface_num) is Ok ==> r == Ok::<(), Error>(()) && final(self)@ == (ContextView {
                descriptors: old(self)@.descriptors.push(
                    DescriptorView { iface_num, standard: false, desc_type, index: unk, data: p_desc@ },
                ),
                ..old(self)@
            }),
    {
        if let Err(e) = self.check_iface(iface_num) {
            return Err(e);
        }
        self.add_descriptor(iface_num, false, desc_type, unk, p_desc);
        Ok(())
    }

    /// Adds an endpoint to the interface and returns its number.
    pub fn iface_add_endpoint(
        &mut self,
        iface_num: u8,
        ep_type: u8,
        direction: u8,
        max_pkt_size: u32,
        interval: u8,
        _unk: u64,
    ) -> (r: Result<u64, Error>)
        requires
            old(self).wf(),
        ensures
            final(self).wf(),
            iface_status(old(self)@, iface_num) matches Err(e) ==> r == Err::<u64, Error>(e) && final(self)@ == old(self)@,
            iface_status(old(self)@, iface_num) is Ok && (ep_type > EpType::INTR || (direction != EpDir::IN && direction != EpDir::OUT))
                ==> r == Err::<u64, Error>(Error::InvalidArgument) && final(self)@ == old(self)@,
            iface_status(old(self)@, iface_num) is Ok && ep_type <= EpType::INTR && (direction == EpDir::IN || direction == EpDir::OUT)
                && old(self)@.endpoints.len() >= MAX_ENDPOINTS ==> r == Err::<u64, Error>(Error::ResourceLimit) && final(self)@ == old(self)@,
            iface_status(old(self)@, iface_num) is Ok && ep_type <= EpType::INTR && (direction == EpDir::IN || direction == EpDir::OUT)
                && old(self)@.endpoints.len() < MAX_ENDPOINTS ==> r == Ok::<u64, Error>(old(self)@.endpoints.len() as u64)
                && final(self)@ == (ContextView {
                    endpoints: old(self)@.endpoints.push(Endpoint {
                        iface_num, ep_type, direction, max_pkt_size, interval, transfer: Transfer::Idle,
                    }),
                    ..old(self)@
                }),
    {
        if let Err(e) = self.check_iface(iface_num) {
            return Err(e);
        }
        if ep_type > EpType::INTR || (direction != EpDir::IN && direction != EpDir::OUT) {
            return Err(Error::InvalidArgument);
        }
        if self.endpoints.len() >= MAX_ENDPOINTS {
            return Err(Error::ResourceLimit);
        }
        let n = self.endpoints.len() as u64;
        self.endpoints.push(Endpoint { iface_num, ep_type, direction, max_pkt_size, interval, transfer: Transfer::Idle });
        Ok(n)
    }

    fn check_ep(&self, iface_num: u8, ep: u64) -> (r: Result<(), Error>)
        requires
            self.wf(),
        ensures
            r == ep_status(self@, iface_num, ep),
    {
        if ep >= self.endpoints.len() as u64 || self.endpoints[ep as usize].iface_num != iface_num
            || iface_num as usize >= self.interfaces.len() {
            Err(Error::InvalidArgument)
        } else if !self.interfaces[iface_num as usize].finalized {
            Err(Error::NotEnumerated)
        } else {
            Ok(())
        }
    }

    fn check_start(&self, iface_num: u8, ep: u64, direction: u8) -> (r: Result<(), Error>)
        requires
            self.wf(),
        ensures
            r == start_status(self@, iface_num, ep, direction),
    {
        if let Err(e) = self.check_ep(iface_num, ep) {
            return Err(e);
        }
        let e = self.endpoints[ep as usize];
        if e.direction != direction {
            Err(Error::InvalidArgument)
        } else if matches!(e.transfer, Transfer::Reading { .. } | Transfer::Writing { .. }) {
            Err(Error::ResourceLimit)
        } else {
            Ok(())
        }
    }

    fn set_transfer(&mut self, ep: u64, t: Transfer)
        requires
            old(self).wf(),
            ep < old(self)@.endpoints.len(),
        ensures
            final(self).wf(),
            final(self)@ == with_transfer(old(self)@, ep, t),
    {
        let e = self.endpoints[ep as usize];
        self.endpoints.set(ep as usize, Endpoint { transfer: t, ..e });
        assert(self@.endpoints =~= with_transfer(old(self)@, ep, t).endpoints);
    }

    /// Schedules a read of up to `len` bytes on a host-to-device endpoint.
    /// The data can be fetched from the driver once the returned handle
    /// reports completion.
    pub fn ep_read_async(&mut self, iface_num: u8, ep: u64, len: u32) -> (r: Result<EpFuture, Error>)
        requires
            old(self).wf(),
        ensures
            final(self).wf(),
            start_status(old(self)@, iface_num, ep, EpDir::OUT) matches Err(e) ==> r == Err::<EpFuture, Error>(e) && final(self)@ == old(self)@,
            start_status(old(self)@, iface_num, ep, EpDir::OUT) is Ok ==> r == Ok::<EpFuture, Error>(EpFuture { iface_num, ep })
                && final(self)@ == with_transfer(old(self)@, ep, Transfer::Reading { len }),
    {
        if let Err(e) = self.check_start(iface_num, ep, EpDir::OUT) {
            return Err(e);
        }
        self.set_transfer(ep, Transfer::Reading { len });
        Ok(EpFuture { iface_num, ep })
    }

    /// Schedules a write of `data` on a device-to-host endpoint.
    pub fn ep_write_async(&mut self, iface_num: u8, ep: u64, data: &[u8]) -> (r: Result<EpFuture, Error>)
        requires
            old(self).wf(),
        ensures
            final(self).wf(),
            start_status(old(self)@, iface_num, ep, EpDir::IN) matches Err(e) ==> r == Err::<EpFuture, Error>(e) && final(self)@ == old(self)@,
            start_status(old(self)@, iface_num, ep, EpDir::IN) is Ok && data@.len() > u32::MAX ==> r == Err::<EpFuture, Error>(Error::InvalidArgument) && final(self)@ == old(self)@,
            start_status(old(self)@, iface_num, ep, EpDir::IN) is Ok && data@.len() <= u32::MAX ==> r == Ok::<EpFuture, Error>(EpFuture { iface_num, ep })
                && final(self)@ == with_transfer(old(self)@, ep, Transfer::Writing { len: data@.len() as u32 }),
    {
        if let Err(e) = self.check_start(iface_num, ep, EpDir::IN) {
            return Err(e);
        }
        if data.len() > u32::MAX as usize {
            return Err(Error::InvalidArgument);
        }
        self.set_transfer(ep, Transfer::Writing { len: data.len() as u32 });
        Ok(EpFuture { iface_num, ep })
    }

    /// Records how the driver ended the transfer outstanding on an endpoint:
    /// the bytes it moved, or its error.
    pub fn ep_transfer_ended(&mut self, iface_num: u8, ep: u64, result: Result<i32, Error>) -> (r: Result<(), Error>)
        requires
            old(self).wf(),
        ensures
            final(self).wf(),
            ep_status(old(self)@, iface_num, ep) matches Err(e) ==> r == Err::<(), Error>(e) && final(self)@ == old(self)@,
            ep_status(old(self)@, iface_num, ep) is Ok && !in_flight(old(self)@.endpoints[ep as int].transfer)
                ==> r == Err::<(), Error>(Error::Invalid) && final(self)@ == old(self)@,
            ep_status(old(self)@, iface_num, ep) is Ok && in_flight(old(self)@.endpoints[ep as int].transfer)
                ==> r == Ok::<(), Error>(()) && final(self)@ == with_transfer(old(self)@, ep, match result {
                    Ok(bytes) => Transfer::Finished { bytes },
                    Err(error) => Transfer::Failed { error },
                }),
    {
        if let Err(e) = self.check_ep(iface_num, ep) {
            return Err(e);
        }
        if !matches!(self.endpoints[ep as usize].transfer, Transfer::Reading { .. } | Transfer::Writing { .. }) {
            return Err(Error::Invalid);
        }
        let t = match result {
            Ok(bytes) => Transfer::Finished { bytes },
            Err(error) => Transfer::Failed { error },
        };
        self.set_transfer(ep, t);
        Ok(())
    }

    /// Stalls an endpoint, which ends any transfer on it.
    pub fn ep_stall(&mut self, iface_num: u8, ep: u64) -> (r: Result<(), Error>)
        requires
            old(self).wf(),
        ensures
            final(self).wf(),
            ep_status(old(self)@, iface_num, ep) matches Err(e) ==> r == Err::<(), Error>(e) && final(self)@ == old(self)@,
            ep_status(old(self)@, iface_num, ep) is Ok ==> r == Ok::<(), Error>(()) && final(self)@ == with_transfer(old(self)@, ep, Transfer::Stalled),
    {
        if let Err(e) = self.check_ep(iface_num, ep) {
            return Err(e);
        }
        self.set_transfer(ep, Transfer::Stalled);
        Ok(())
    }

    /// Aborts the transfer outstanding on an endpoint, if there is one.
    pub fn ep_abort(&mut self, iface_num: u8, ep: u64) -> (r: Result<(), Error>)
        requires
            old(self).wf(),
        ensures
            final(self).wf(),
            ep_status(old(self)@, iface_num, ep) matches Err(e) ==> r == Err::<(), Error>(e) && final(self)@ == old(self)@,
            ep_status(old(self)@, iface_num, ep) is Ok ==> r == Ok::<(), Error>(()) && final(self)@ == if in_flight(old(self)@.endpoints[ep as int].transfer) {
                with_transfer(old(self)@, ep, Transfer::Aborted)
            } else {
                old(self)@
            },
    {
        if let Err(e) = self.check_ep(iface_num, ep) {
            return Err(e);
        }
        if matches!(self.endpoints[ep as usize].transfer, Transfer::Reading { .. } | Transfer::Writing { .. }) {
            self.set_transfer(ep, Transfer::Aborted);
        }
        Ok(())
    }

    /// Whether the endpoint's transfer has ended and not been observed yet.
    pub fn ep_transfer_done(&self, iface_num: u8, ep: u64) -> (r: Result<bool, Error>)
        requires
            self.wf(),
        ensures
            ep_status(self@, iface_num, ep) matches Err(e) ==> r == Err::<bool, Error>(e),
            ep_status(self@, iface_num, ep) is Ok ==> r == Ok::<bool, Error>({
                let t = self@.endpoints[ep as int].transfer;
                t is Finished || t is Failed || t is Aborted
            }),
    {
        if let Err(e) = self.check_ep(iface_num, ep) {
            return Err(e);
        }
        let t = self.endpoints[ep as usize].transfer;
        Ok(matches!(t, Transfer::Finished { .. } | Transfer::Failed { .. } | Transfer::Aborted))
    }

    /// The number of bytes the endpoint's last completed transfer moved;
    /// zero while none has completed.
    pub fn ep_transferred_bytes(&self, iface_num: u8, ep: u64) -> (r: Result<i32, Error>)
        requires
            self.wf(),
        ensures
            ep_status(self@, iface_num, ep) matches Err(e) ==> r == Err::<i32, Error>(e),
            ep_status(self@, iface_num, ep) is Ok ==> r == Ok::<i32, Error>(match self@.endpoints[ep as int].transfer {
                Transfer::Finished { bytes } => bytes,
                _ => 0,
            }),
    {
        if let Err(e) = self.check_ep(iface_num, ep) {
            return Err(e);
        }
        match self.endpoints[ep as usize].transfer {
            Transfer::Finished { bytes } => Ok(bytes),
            _ => Ok(0),
        }
    }
}

impl EpFuture {
    /// One poll of the transfer: its outcome once it has ended, which spends
    /// the handle, else when to poll again.
    pub fn poll(&self, ctx: &mut Context) -> (r: EpPoll)
        requires
            old(ctx).wf(),
        ensures
            final(ctx).wf(),
            ep_status(old(ctx)@, self.iface_num, self.ep) is Err ==> r == (EpPoll::Failed { error: TransferError::DriverError }) && final(ctx)@ == old(ctx)@,
            ep_status(old(ctx)@, self.iface_num, self.ep) is Ok ==> {
                let t = old(ctx)@.endpoints[self.ep as int].transfer;
                &&& r == poll_of(t)
                &&& final(ctx)@ == if in_flight(t) {
                    old(ctx)@
                } else {
                    with_transfer(old(ctx)@, self.ep, Transfer::Idle)
                }
            },
    {
        if ctx.check_ep(self.iface_num, self.ep).is_err() {
            return EpPoll::Failed { error: TransferError::DriverError };
        }
        let t = ctx.endpoints[self.ep as usize].transfer;
        let r = match t {
            Transfer::Reading { .. } | Transfer::Writing { .. } => {
                return EpPoll::Pending { recheck_ms: POLL_INTERVAL_MS };
            },
            Transfer::Finished { bytes } => EpPoll::Done { bytes },
            Transfer::Failed { error } => EpPoll::Failed { error: TransferError::from_driver(error) },
            Transfer::Aborted | Transfer::Stalled => EpPoll::Failed { error: TransferError::Aborted },
            Transfer::Idle => EpPoll::Failed { error: TransferError::DriverError },
        };
        ctx.set_transfer(self.ep, Transfer::Idle);
        r
    }
}

} // verus!
