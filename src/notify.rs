//! Notification channels: event counters registered with the kernel so
//! that guest accesses (IoEventFd) or host interrupts (IrqFd) need no full
//! exit.  A handle owns its registration; releasing it consumes the handle
//! and yields the one deregistration request that undoes it.
use crate::error::{Error, Request};
use crate::ioaddress::{IoAddress, IOEVENTFD_FLAG_PIO};
use vstd::prelude::*;

verus! {

/// Trigger only when the written value equals the registered one.
pub const IOEVENTFD_FLAG_DATAMATCH: u32 = 1;
/// Remove the registration instead of adding it.
pub const IOEVENTFD_FLAG_DEASSIGN: u32 = 4;
pub const IOEVENTFD_FLAG_VIRTIO_CCW_NOTIFY: u32 = 8;

/// Remove the interrupt registration instead of adding it.
pub const IRQFD_FLAG_DEASSIGN: u32 = 1;
pub const IRQFD_FLAG_RESAMPLE: u32 = 2;

/// The registration record of an IoEventFd, less its descriptor.
#[derive(Debug, Clone, Copy, PartialEq, Eq, Structural)]
pub struct IoEventFdRequest {
    pub addr: u64,
    pub len: u32,
    pub datamatch: u64,
    pub flags: u32,
}

/// The registration record that undoes `r`.
pub open spec fn deassign_of(r: IoEventFdRequest) -> IoEventFdRequest {
    IoEventFdRequest { flags: r.flags | IOEVENTFD_FLAG_DEASSIGN, ..r }
}

/// The registration record that watches `address` for accesses of `length`
/// bytes.  The address space picks the port flag; a removal flag among
/// `flags` is dropped, since creating never removes.
pub open spec fn assign_of(address: IoAddress, length: u32, datamatch: u64, flags: u32) -> IoEventFdRequest {
    IoEventFdRequest {
        addr: address.spec_address(),
        len: length,
        datamatch,
        flags: (flags & !(IOEVENTFD_FLAG_DEASSIGN | IOEVENTFD_FLAG_PIO)) | (if address is Port {
            IOEVENTFD_FLAG_PIO
        } else {
            0
        }),
    }
}

/// A live IoEventFd registration.  It cannot be copied, so it is released
/// at most once.
#[derive(Debug)]
pub struct IoEventFd {
    request: IoEventFdRequest,
}

impl IoEventFd {
    /// The registration record to hand to the kernel for a new channel.
    pub fn registration(address: IoAddress, length: u32, datamatch: u64, flags: u32) -> (r: IoEventFdRequest)
        ensures
            r == assign_of(address, length, datamatch, flags),
    {
        IoEventFdRequest {
            addr: address.address(),
            len: length,
            datamatch,
            flags: (flags & !(IOEVENTFD_FLAG_DEASSIGN | IOEVENTFD_FLAG_PIO)) | address.flags(),
        }
    }

    /// Takes in the kernel's answer to `request`: a handle when it was
    /// accepted, the failed request otherwise.
    pub fn finish_create(request: IoEventFdRequest, registered: Result<(), i32>) -> (r: Result<IoEventFd, Error>)
        ensures
            registered is Ok ==> (r matches Ok(h) && h.spec_request() == request),
            registered matches Err(e) ==> r == Err::<IoEventFd, Error>(Error::MachineApi(Request::Ioeventfd, e)),
    {
        match registered {
            Ok(()) => Ok(IoEventFd { request }),
            Err(e) => Err(Error::MachineApi(Request::Ioeventfd, e)),
        }
    }

    pub closed spec fn spec_request(&self) -> IoEventFdRequest {
        self.request
    }

    /// The registration this handle holds.
    pub fn request(&self) -> (r: IoEventFdRequest)
        ensures
            r == self.spec_request(),
    {
        self.request
    }

    /// Ends the registration: consumes the handle and returns the request
    /// that removes it from the kernel.
    pub fn release(self) -> (r: IoEventFdRequest)
        ensures
            r == deassign_of(self.spec_request()),
    {
        IoEventFdRequest { flags: self.request.flags | IOEVENTFD_FLAG_DEASSIGN, ..self.request }
    }
}

/// The removal request of a channel names the very address, length and
/// value it was created with, and differs from the creation request only
/// in carrying the removal flag, which the creation request never does.
pub proof fn lemma_release_undoes_create(address: IoAddress, length: u32, datamatch: u64, flags: u32)
    ensures
        ({
            let a = assign_of(address, length, datamatch, flags);
            let d = deassign_of(a);
            &&& d.addr == a.addr && d.len == a.len && d.datamatch == a.datamatch
            &&& a.flags & IOEVENTFD_FLAG_DEASSIGN == 0
            &&& d.flags & IOEVENTFD_FLAG_DEASSIGN == IOEVENTFD_FLAG_DEASSIGN
            &&& d.flags & !IOEVENTFD_FLAG_DEASSIGN == a.flags
        }),
{
    let p: u32 = if address is Port {
        IOEVENTFD_FLAG_PIO
    } else {
        0
    };
    assert(p == 0 || p == 2);
    assert(((flags & !(4u32 | 2u32)) | p) & 4u32 == 0 && ((((flags & !(4u32 | 2u32)) | p) | 4u32) & 4u32 == 4u32)
        && ((((flags & !(4u32 | 2u32)) | p) | 4u32) & !4u32 == ((flags & !(4u32 | 2u32)) | p))) by (bit_vector)
        requires
            p == 0 || p == 2,
    ;
}

/// The registration record of an IrqFd, less its descriptor.
#[derive(Debug, Clone, Copy, PartialEq, Eq, Structural)]
pub struct IrqFdRequest {
    pub gsi: u32,
    pub flags: u32,
}

/// A live IrqFd registration on interrupt line `gsi`.
#[derive(Debug)]
pub struct IrqFd {
    request: IrqFdRequest,
}

impl IrqFd {
    /// The registration record for a new channel on line `gsi`; a removal
    /// flag among `flags` is dropped.
    pub fn registration(gsi: u32, flags: u32) -> (r: IrqFdRequest)
        ensures
            r == (IrqFdRequest { gsi, flags: flags & !IRQFD_FLAG_DEASSIGN }),
    {
        IrqFdRequest { gsi, flags: flags & !IRQFD_FLAG_DEASSIGN }
    }

    /// Takes in the kernel's answer to `request`.
    pub fn finish_create(request: IrqFdRequest, registered: Result<(), i32>) -> (r: Result<IrqFd, Error>)
        ensures
            registered is Ok ==> (r matches Ok(h) && h.spec_request() == request),
            registered matches Err(e) ==> r == Err::<IrqFd, Error>(Error::MachineApi(Request::Irqfd, e)),
    {
        match registered {
            Ok(()) => Ok(IrqFd { request }),
            Err(e) => Err(Error::MachineApi(Request::Irqfd, e)),
        }
    }

    pub closed spec fn spec_request(&self) -> IrqFdRequest {
        self.request
    }

    /// The registration this handle holds.
    pub fn request(&self) -> (r: IrqFdRequest)
        ensures
            r == self.spec_request(),
    {
        self.request
    }

    /// Ends the registration: consumes the handle and returns the request
    /// that removes it from the kernel.
    pub fn release(self) -> (r: IrqFdRequest)
        ensures
            r == (IrqFdRequest { flags: self.spec_request().flags | IRQFD_FLAG_DEASSIGN, ..self.spec_request() }),
    {
        IrqFdRequest { flags: self.request.flags | IRQFD_FLAG_DEASSIGN, ..self.request }
    }
}

/// Gathers the bytes of non-blocking reads until the eight bytes of a
/// counter value have arrived.  The counter is in the host's byte order,
/// which the caller reads.
#[derive(Debug)]
pub struct CounterReader {
    pending: Vec<u8>,
}

impl CounterReader {
    pub fn new() -> (r: CounterReader)
        ensures
            r.spec_pending() == Seq::<u8>::empty(),
    {
        CounterReader { pending: Vec::new() }
    }

    /// Bytes of the value being gathered that have arrived so far.
    pub closed spec fn spec_pending(&self) -> Seq<u8> {
        self.pending@
    }

    /// How many more bytes the current value needs.
    pub fn space(&self) -> (r: usize)
        requires
            self.spec_pending().len() < 8,
        ensures
            r == 8 - self.spec_pending().len(),
    {
        8 - self.pending.len()
    }

    /// Takes in the bytes of one read.  Once eight bytes have gathered,
    /// they are returned and gathering starts over.
    pub fn feed(&mut self, chunk: &[u8]) -> (r: Option<Vec<u8>>)
        requires
            old(self).spec_pending().len() + chunk@.len() <= 8,
        ensures
            ({
                let all = old(self).spec_pending() + chunk@;
                if all.len() == 8 {
                    (r matches Some(v) && v@ == all) && final(self).spec_pending() == Seq::<u8>::empty()
                } else {
                    r is None && final(self).spec_pending() == all
                }
            }),
    {
        let n = chunk.len();
        let mut i: usize = 0;
        while i < n
            invariant
                n == chunk@.len(),
                i <= n,
                self.pending@ == old(self).pending@ + chunk@.subrange(0, i as int),
            decreases n - i,
        {
            self.pending.push(chunk[i]);
            i = i + 1;
            assert(self.pending@ =~= old(self).pending@ + chunk@.subrange(0, i as int));
        }
        assert(chunk@.subrange(0, n as int) =~= chunk@);
        if self.pending.len() == 8 {
            let mut v: Vec<u8> = Vec::new();
            std::mem::swap(&mut v, &mut self.pending);
            Some(v)
        } else {
            None
        }
    }
}

} // verus!
