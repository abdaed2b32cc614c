use kvm::error::{Error, Request};
use kvm::ioaddress::{IoAddress, IoAction};
use kvm::notify::{
    CounterReader, IoEventFd, IoEventFdRequest, IrqFd, IOEVENTFD_FLAG_DATAMATCH,
    IOEVENTFD_FLAG_DEASSIGN,
};
use kvm::pause::Direction;

struct Guard<'a> {
    handle: Option<IoEventFd>,
    issued: &'a mut Vec<IoEventFdRequest>,
}

impl Drop for Guard<'_> {
    fn drop(&mut self) {
        if let Some(h) = self.handle.take() {
            self.issued.push(h.release());
        }
    }
}

fn create_then_fail(issued: &mut Vec<IoEventFdRequest>) -> Result<(), Error> {
    let req = IoEventFd::registration(IoAddress::Port(0x3f8), 1, 0, 0);
    let handle = IoEventFd::finish_create(req, Ok(()))?;
    let _guard = Guard { handle: Some(handle), issued };
    Err(Error::ReadIoEventFd)?;
    Ok(())
}

#[test]
fn release_issues_one_deassign_even_on_error() {
    let mut issued = Vec::new();
    assert_eq!(create_then_fail(&mut issued), Err(Error::ReadIoEventFd));
    assert_eq!(issued.len(), 1);
    assert_eq!(issued[0].addr, 0x3f8);
    assert_eq!(issued[0].len, 1);
    assert_ne!(issued[0].flags & IOEVENTFD_FLAG_DEASSIGN, 0);
}

#[test]
fn registration_records() {
    let a = IoEventFd::registration(IoAddress::Memory(0xd000), 4, 7, IOEVENTFD_FLAG_DATAMATCH | IOEVENTFD_FLAG_DEASSIGN);
    assert_eq!(a, IoEventFdRequest { addr: 0xd000, len: 4, datamatch: 7, flags: IOEVENTFD_FLAG_DATAMATCH });
    let p = IoEventFd::registration(IoAddress::Port(0x60), 1, 0, 0);
    assert_eq!(p.flags, 2);
    let h = IoEventFd::finish_create(a, Ok(())).unwrap();
    assert_eq!(h.request(), a);
    let d = h.release();
    assert_eq!(d, IoEventFdRequest { flags: IOEVENTFD_FLAG_DATAMATCH | IOEVENTFD_FLAG_DEASSIGN, ..a });
    assert_eq!(
        IoEventFd::finish_create(a, Err(9)).map(|h| h.request()),
        Err(Error::MachineApi(Request::Ioeventfd, 9))
    );
}

#[test]
fn irqfd_records() {
    let r = IrqFd::registration(5, 1 | 2);
    assert_eq!(r.gsi, 5);
    assert_eq!(r.flags, 2);
    let h = IrqFd::finish_create(r, Ok(())).unwrap();
    let d = h.release();
    assert_eq!(d.flags, 3);
    assert_eq!(IrqFd::finish_create(r, Err(2)).map(|h| h.request()), Err(Error::MachineApi(Request::Irqfd, 2)));
}

#[test]
fn counter_reader_gathers_partial_reads() {
    let mut c = CounterReader::new();
    assert_eq!(c.space(), 8);
    let bytes = 0x0102_0304_0506_0708u64.to_le_bytes();
    assert_eq!(c.feed(&bytes[0..3]), None);
    assert_eq!(c.space(), 5);
    assert_eq!(c.feed(&bytes[3..8]), Some(bytes.to_vec()));
    assert_eq!(c.space(), 8);
    assert_eq!(c.feed(&[5, 0, 0, 0, 0, 0, 0, 0]), Some(vec![5, 0, 0, 0, 0, 0, 0, 0]));
}

#[test]
fn io_addresses_keep_their_space() {
    let p = IoAddress::Port(0x3f8);
    assert_eq!(p.checked_add(2), Some(IoAddress::Port(0x3fa)));
    assert_eq!(p.checked_sub(0x3f9), None);
    assert_eq!(IoAddress::Memory(u64::MAX).checked_add(1), None);
    assert_eq!(IoAddress::Memory(8).checked_sub(8), Some(IoAddress::Memory(0)));
    assert_eq!(p.address(), 0x3f8);
    assert_eq!(p.flags(), 2);
    assert_eq!(IoAddress::Memory(1).flags(), 0);
    assert_eq!(p.inb(), IoAction { address: p, direction: Direction::In, size: 1 });
    assert_eq!(p.outw(), IoAction { address: p, direction: Direction::Out, size: 4 });
    assert_eq!(p.ins(2).size, 2);
    assert_eq!(p.outs(8).direction, Direction::Out);
    assert_eq!(p.inw().size, 4);
    assert_eq!(p.outb().size, 1);
}
