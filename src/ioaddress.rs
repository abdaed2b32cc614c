//! Addresses that a notification channel can watch: memory-mapped or
//! port-mapped.  The two spaces never mix; arithmetic keeps the kind.
use crate::pause::Direction;
use vstd::prelude::*;

verus! {

/// Flag of a notification registration that watches port I/O.
pub const IOEVENTFD_FLAG_PIO: u32 = 2;

#[derive(Debug, Clone, Copy, PartialEq, Eq, Hash, Structural)]
pub enum IoAddress {
    Memory(u64),
    Port(u64),
}

/// An access of `size` bytes at an address, in one direction.
#[derive(Debug, Clone, Copy, PartialEq, Eq, Hash, Structural)]
pub struct IoAction {
    pub address: IoAddress,
    pub direction: Direction,
    pub size: usize,
}

impl IoAddress {
    pub open spec fn spec_address(self) -> u64 {
        match self {
            IoAddress::Memory(v) => v,
            IoAddress::Port(v) => v,
        }
    }

    /// The address within its space.
    pub fn address(&self) -> (r: u64)
        ensures
            r == self.spec_address(),
    {
        match self {
            IoAddress::Memory(v) => *v,
            IoAddress::Port(v) => *v,
        }
    }

    /// The registration flags that select this address's space.
    pub fn flags(&self) -> (r: u32)
        ensures
            r == (if self is Port {
                IOEVENTFD_FLAG_PIO
            } else {
                0
            }),
    {
        match self {
            IoAddress::Memory(_) => 0,
            IoAddress::Port(_) => IOEVENTFD_FLAG_PIO,
        }
    }

    /// The address `delta` further on, in the same space; `None` past the end.
    pub fn checked_add(&self, delta: u64) -> (r: Option<IoAddress>)
        ensures
            self.spec_address() + delta <= u64::MAX ==> (r matches Some(n) && (n is Port <==> self is Port)
                && n.spec_address() == self.spec_address() + delta),
            self.spec_address() + delta > u64::MAX ==> r is None,
    {
        match self {
            IoAddress::Memory(v) => match v.checked_add(delta) {
                Some(n) => Some(IoAddress::Memory(n)),
                None => None,
            },
            IoAddress::Port(v) => match v.checked_add(delta) {
                Some(n) => Some(IoAddress::Port(n)),
                None => None,
            },
        }
    }

    /// The address `delta` before, in the same space; `None` below zero.
    pub fn checked_sub(&self, delta: u64) -> (r: Option<IoAddress>)
        ensures
            delta <= self.spec_address() ==> (r matches Some(n) && (n is Port <==> self is Port)
                && n.spec_address() == self.spec_address() - delta),
            delta > self.spec_address() ==> r is None,
    {
        match self {
            IoAddress::Memory(v) => match v.checked_sub(delta) {
                Some(n) => Some(IoAddress::Memory(n)),
                None => None,
            },
            IoAddress::Port(v) => match v.checked_sub(delta) {
                Some(n) => Some(IoAddress::Port(n)),
                None => None,
            },
        }
    }

    /// A read of `size` bytes from this address.
    pub fn ins(&self, size: usize) -> (r: IoAction)
        ensures
            r == (IoAction { address: *self, direction: Direction::In, size }),
    {
        IoAction { address: *self, direction: Direction::In, size }
    }

    /// A write of `size` bytes to this address.
    pub fn outs(&self, size: usize) -> (r: IoAction)
        ensures
            r == (IoAction { address: *self, direction: Direction::Out, size }),
    {
        IoAction { address: *self, direction: Direction::Out, size }
    }

    /// A one-byte read.
    pub fn inb(&self) -> (r: IoAction)
        ensures
            r == (IoAction { address: *self, direction: Direction::In, size: 1 }),
    {
        self.ins(1)
    }

    /// A one-byte write.
    pub fn outb(&self) -> (r: IoAction)
        ensures
            r == (IoAction { address: *self, direction: Direction::Out, size: 1 }),
    {
        self.outs(1)
    }

    /// A four-byte read.
    pub fn inw(&self) -> (r: IoAction)
        ensures
            r == (IoAction { address: *self, direction: Direction::In, size: 4 }),
    {
        self.ins(4)
    }

    /// A four-byte write.
    pub fn outw(&self) -> (r: IoAction)
        ensures
            r == (IoAction { address: *self, direction: Direction::Out, size: 4 }),
    {
        self.outs(4)
    }
}

} // verus!
