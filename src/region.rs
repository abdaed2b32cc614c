//! Guest memory regions and the table a machine keeps of them.  Where two
//! regions overlap, the one with the higher slot number translates the
//! address, as the kernel's own region set does.
use crate::error::{Error, Request};
use crate::memory::Slab;
use vstd::prelude::*;

verus! {

/// Region flag: the kernel logs which pages of the region the guest writes.
pub const LOG_DIRTY_PAGES: u32 = 1;
/// Region flag: guest writes are not stored but reported as MMIO exits.
pub const READ_ONLY: u32 = 2;

/// What a region is, seen as plain values: its slot, flags, guest address,
/// length, and the host address of the storage behind it.
#[derive(Debug, Clone, Copy, PartialEq, Eq, Structural)]
pub struct RegionView {
    pub slot: u32,
    pub flags: u32,
    pub addr: u64,
    pub len: u64,
    pub host: u64,
}

impl RegionView {
    /// True when the guest address `a` falls inside the region.
    pub open spec fn contains(self, a: int) -> bool {
        self.addr <= a < self.addr + self.len
    }
}

/// A builder for a `Region`.
#[derive(Debug)]
pub struct RegionOptions {
    view: RegionView,
}

impl View for RegionOptions {
    type V = RegionView;

    closed spec fn view(&self) -> RegionView {
        self.view
    }
}

impl RegionOptions {
    /// A builder for the region in `slot`: no flags, no backing storage
    /// (length and host address zero), guest address zero.  Bits 0-15 of
    /// the slot name the slot; higher bits name the address space where the
    /// machine has several.
    pub fn new(slot: u32) -> (r: RegionOptions)
        ensures
            r@ == (RegionView { slot, flags: 0, addr: 0, len: 0, host: 0 }),
    {
        RegionOptions { view: RegionView { slot, flags: 0, addr: 0, len: 0, host: 0 } }
    }

    /// Has the kernel log the pages that the guest writes.
    pub fn log_dirty_pages(&mut self)
        ensures
            final(self)@ == (RegionView { flags: old(self)@.flags | LOG_DIRTY_PAGES, ..old(self)@ }),
    {
        self.view.flags = self.view.flags | LOG_DIRTY_PAGES;
    }

    /// Stops logging dirty pages.
    pub fn disable_log_dirty_pages(&mut self)
        ensures
            final(self)@ == (RegionView { flags: old(self)@.flags & !LOG_DIRTY_PAGES, ..old(self)@ }),
    {
        self.view.flags = self.view.flags & !LOG_DIRTY_PAGES;
    }

    /// Makes the region read-only for the guest.
    pub fn read_only(&mut self)
        ensures
            final(self)@ == (RegionView { flags: old(self)@.flags | READ_ONLY, ..old(self)@ }),
    {
        self.view.flags = self.view.flags | READ_ONLY;
    }

    /// Makes the region writable for the guest again.
    pub fn disable_read_only(&mut self)
        ensures
            final(self)@ == (RegionView { flags: old(self)@.flags & !READ_ONLY, ..old(self)@ }),
    {
        self.view.flags = self.view.flags & !READ_ONLY;
    }

    /// Sets the storage that backs the region; it fixes the region's length.
    pub fn source(&mut self, source: &Slab)
        ensures
            final(self)@ == (RegionView { len: source.spec_len() as u64, host: source.spec_address(), ..old(self)@ }),
    {
        self.view.len = source.len() as u64;
        self.view.host = source.address();
    }

    /// Removes the backing storage and hands it back, if there was one.
    pub fn take(&mut self) -> (r: Option<Slab>)
        ensures
            old(self)@.len == 0 || old(self)@.len > usize::MAX ==> r is None,
            old(self)@.len != 0 && old(self)@.len <= usize::MAX ==> (r matches Some(s) && s.spec_address() == old(self)@.host && s.spec_len()
                == old(self)@.len),
            final(self)@ == (RegionView { len: 0, host: 0, ..old(self)@ }),
    {
        let r = if self.view.len == 0 || self.view.len > usize::MAX as u64 {
            None
        } else {
            Some(Slab::from_mapping(self.view.host, self.view.len as usize))
        };
        self.view.len = 0;
        self.view.host = 0;
        r
    }

    /// Sets the guest address the region starts at.
    pub fn addr(&mut self, addr: u64)
        ensures
            final(self)@ == (RegionView { addr, ..old(self)@ }),
    {
        self.view.addr = addr;
    }

    /// The region this builder describes.
    pub fn build(self) -> (r: Region)
        ensures
            r@ == self@,
    {
        Region { view: self.view }
    }
}

/// A guest memory region: a slot, flags, a guest address, a length and the
/// host address of the storage behind it.  A region of length zero covers
/// no address.
#[derive(Debug, Clone, Copy, PartialEq, Eq)]
pub struct Region {
    view: RegionView,
}

impl View for Region {
    type V = RegionView;

    closed spec fn view(&self) -> RegionView {
        self.view
    }
}

/// The record the kernel's region-set request takes.
#[derive(Debug, Clone, Copy, PartialEq, Eq, Structural)]
pub struct MemoryRegion {
    pub slot: u32,
    pub flags: u32,
    pub guest_phys_addr: u64,
    pub memory_size: u64,
    pub userspace_addr: u64,
}

impl Region {
    pub fn slot(&self) -> (r: u32)
        ensures
            r == self@.slot,
    {
        self.view.slot
    }

    pub fn flags(&self) -> (r: u32)
        ensures
            r == self@.flags,
    {
        self.view.flags
    }

    pub fn addr(&self) -> (r: u64)
        ensures
            r == self@.addr,
    {
        self.view.addr
    }

    /// Number of guest bytes the region covers.
    pub fn len(&self) -> (r: u64)
        ensures
            r == self@.len,
    {
        self.view.len
    }

    /// Host address of the storage behind the region.
    pub fn host_address(&self) -> (r: u64)
        ensures
            r == self@.host,
    {
        self.view.host
    }

    /// The builder that describes this region.
    pub fn into_options(self) -> (r: RegionOptions)
        ensures
            r@ == self@,
    {
        RegionOptions { view: self.view }
    }

    /// The record to hand to the kernel for this region.
    pub fn descriptor(&self) -> (r: MemoryRegion)
        ensures
            r == (MemoryRegion {
                slot: self@.slot,
                flags: self@.flags,
                guest_phys_addr: self@.addr,
                memory_size: self@.len,
                userspace_addr: self@.host,
            }),
    {
        MemoryRegion {
            slot: self.view.slot,
            flags: self.view.flags,
            guest_phys_addr: self.view.addr,
            memory_size: self.view.len,
            userspace_addr: self.view.host,
        }
    }
}

/// True when some region in `rs` uses `slot`.
pub open spec fn slot_taken(rs: Seq<RegionView>, slot: u32) -> bool {
    exists|i: int| 0 <= i < rs.len() && #[trigger] rs[i].slot == slot
}

/// True when some region in `rs` contains the guest address `a`.
pub open spec fn covered(rs: Seq<RegionView>, a: int) -> bool {
    exists|i: int| 0 <= i < rs.len() && #[trigger] rs[i].contains(a)
}

/// True when region `i` of `rs` translates the guest address `a`: it
/// contains `a`, and no region that contains `a` has a higher slot.
pub open spec fn translates(rs: Seq<RegionView>, i: int, a: int) -> bool {
    &&& 0 <= i < rs.len()
    &&& rs[i].contains(a)
    &&& forall|j: int| 0 <= j < rs.len() && #[trigger] rs[j].contains(a) ==> rs[j].slot <= rs[i].slot
}

/// True when no two regions of `rs` share a slot.
pub open spec fn slots_unique(rs: Seq<RegionView>) -> bool {
    forall|i: int, j: int| 0 <= i < rs.len() && 0 <= j < rs.len() && i != j ==> #[trigger] rs[i].slot != #[trigger] rs[j].slot
}

/// The regions a machine has mounted, in the order they were mounted.
#[derive(Debug)]
pub struct RegionTable {
    regions: Vec<Region>,
}

impl View for RegionTable {
    type V = Seq<RegionView>;

    closed spec fn view(&self) -> Seq<RegionView> {
        self.regions@.map_values(|r: Region| r@)
    }
}

impl RegionTable {
    #[verifier::type_invariant]
    spec fn inv(self) -> bool {
        slots_unique(self.regions@.map_values(|r: Region| r@))
    }

    /// An empty table.
    pub fn new() -> (r: RegionTable)
        ensures
            r@ == Seq::<RegionView>::empty(),
    {
        let r = RegionTable { regions: Vec::new() };
        assert(r@ =~= Seq::<RegionView>::empty());
        r
    }

    /// Number of mounted regions.
    pub fn len(&self) -> (r: usize)
        ensures
            r == self@.len(),
    {
        self.regions.len()
    }

    /// The region at position `i`, in mount order.
    pub fn get(&self, i: usize) -> (r: &Region)
        requires
            i < self@.len(),
        ensures
            r@ == self@[i as int],
    {
        &self.regions[i]
    }

    /// Whether a region with this slot may still be mounted.
    pub fn check_slot(&self, slot: u32) -> (r: Result<(), Error>)
        ensures
            r == (if slot_taken(self@, slot) {
                Err::<(), Error>(Error::SlotInUse(slot))
            } else {
                Ok(())
            }),
    {
        let mut i: usize = 0;
        while i < self.regions.len()
            invariant
                i <= self@.len(),
                self@.len() == self.regions@.len(),
                forall|k: int| 0 <= k < i ==> #[trigger] self@[k].slot != slot,
            decreases self.regions@.len() - i,
        {
            if self.regions[i].view.slot == slot {
                assert(self@[i as int].slot == slot);
                return Err(Error::SlotInUse(slot));
            }
            i = i + 1;
        }
        Ok(())
    }

    /// The slot the next mount takes when none is chosen: one above every
    /// slot in use, or zero in an empty table.
    pub fn next_slot(&self) -> (r: Result<u32, Error>)
        ensures
            r matches Ok(s) ==> {
                &&& forall|i: int| 0 <= i < self@.len() ==> #[trigger] self@[i].slot < s
                &&& (s == 0 || slot_taken(self@, (s - 1) as u32))
            },
            r matches Err(e) ==> e == Error::NoFreeSlot && slot_taken(self@, u32::MAX),
            r is Err <==> slot_taken(self@, u32::MAX),
    {
        let mut next: u32 = 0;
        let mut i: usize = 0;
        while i < self.regions.len()
            invariant
                i <= self@.len(),
                self@.len() == self.regions@.len(),
                forall|k: int| 0 <= k < i ==> #[trigger] self@[k].slot < next,
                next == 0 || exists|k: int| 0 <= k < i && #[trigger] self@[k].slot == next - 1,
            decreases self.regions@.len() - i,
        {
            let s = self.regions[i].view.slot;
            if s == u32::MAX {
                assert(self@[i as int].slot == u32::MAX);
                return Err(Error::NoFreeSlot);
            }
            if s >= next {
                next = s + 1;
                assert(self@[i as int].slot == next - 1);
            }
            i = i + 1;
        }
        Ok(next)
    }

    /// The region that mounting `slab` at guest address `address` with
    /// `flags` registers: in `slot` when one is given, else in the slot
    /// `next_slot` picks.  Fails when the given slot is taken or no slot is
    /// left.
    pub fn prepare(&self, address: u64, slab: &Slab, flags: u32, slot: Option<u32>) -> (r: Result<Region, Error>)
        ensures
            slot is Some && slot_taken(self@, slot->0) ==> r == Err::<Region, Error>(Error::SlotInUse(slot->0)),
            slot is Some && !slot_taken(self@, slot->0) ==> (r matches Ok(g) && g@ == (RegionView {
                slot: slot->0,
                flags,
                addr: address,
                len: slab.spec_len() as u64,
                host: slab.spec_address(),
            })),
            slot is None && slot_taken(self@, u32::MAX) ==> r == Err::<Region, Error>(Error::NoFreeSlot),
            slot is None && !slot_taken(self@, u32::MAX) ==> (r matches Ok(g) && g@.flags == flags && g@.addr
                == address && g@.len == slab.spec_len() && g@.host == slab.spec_address() && (forall|i: int|
                0 <= i < self@.len() ==> #[trigger] self@[i].slot < g@.slot) && (g@.slot == 0 || slot_taken(
                self@,
                (g@.slot - 1) as u32,
            ))),
    {
        let chosen = match slot {
            Some(s) => match self.check_slot(s) {
                Ok(()) => s,
                Err(e) => return Err(e),
            },
            None => match self.next_slot() {
                Ok(s) => s,
                Err(e) => return Err(e),
            },
        };
        Ok(Region {
            view: RegionView { slot: chosen, flags, addr: address, len: slab.len() as u64, host: slab.address() },
        })
    }

    /// Records `region` once the kernel has answered its registration with
    /// `registered`.  The table grows only when the slot is free and the
    /// kernel accepted the region.
    pub fn mount(&mut self, region: Region, registered: Result<(), i32>) -> (r: Result<(), Error>)
        ensures
            slot_taken(old(self)@, region@.slot) ==> r == Err::<(), Error>(Error::SlotInUse(region@.slot))
                && final(self)@ == old(self)@,
            !slot_taken(old(self)@, region@.slot) && registered is Err ==> r == Err::<(), Error>(
                Error::MachineApi(Request::SetUserMemoryRegion, registered->Err_0),
            ) && final(self)@ == old(self)@,
            !slot_taken(old(self)@, region@.slot) && registered is Ok ==> r == Ok::<(), Error>(())
                && final(self)@ == old(self)@.push(region@),
    {
        match self.check_slot(region.view.slot) {
            Err(e) => Err(e),
            Ok(()) => match registered {
                Err(e) => Err(Error::MachineApi(Request::SetUserMemoryRegion, e)),
                Ok(()) => {
                    proof {
                        use_type_invariant(&*self);
                    }
                    let ghost before = self@;
                    let mut table = RegionTable { regions: Vec::new() };
                    std::mem::swap(self, &mut table);
                    let mut regions = table.regions;
                    regions.push(region);
                    assert(regions@.map_values(|r: Region| r@) =~= before.push(region@));
                    *self = RegionTable { regions };
                    Ok(())
                },
            },
        }
    }

    /// The host address behind the guest range of `n` bytes from `a` on,
    /// through the region that translates `a`.  `None` when no region holds
    /// `a`, the range runs past that region, or the host address would not
    /// fit in 64 bits.  The caller reads or writes the bytes there.
    pub fn translate(&self, a: u64, n: u64) -> (r: Option<u64>)
        ensures
            !covered(self@, a as int) ==> r is None,
            forall|i: int| #[trigger] translates(self@, i, a as int) ==> {
                let off = a - self@[i].addr;
                if off + n <= self@[i].len && self@[i].host + off <= u64::MAX {
                    r == Some((self@[i].host + off) as u64)
                } else {
                    r is None
                }
            },
    {
        match self.locate(a) {
            None => None,
            Some((i, off)) => {
                let region = &self.regions[i];
                if n > region.view.len - off {
                    None
                } else {
                    region.view.host.checked_add(off)
                }
            },
        }
    }

    /// Translates the guest address `a`: the position of the region that
    /// holds it, the one with the highest slot where several do, and the
    /// offset of `a` inside it; `None` when no region holds it.
    pub fn locate(&self, a: u64) -> (r: Option<(usize, u64)>)
        ensures
            r is None <==> !covered(self@, a as int),
            r matches Some((i, off)) ==> translates(self@, i as int, a as int) && off == a - self@[i as int].addr,
            slots_unique(self@),
    {
        proof {
            use_type_invariant(self);
        }
        let mut best: Option<usize> = None;
        let mut i: usize = 0;
        while i < self.regions.len()
            invariant
                i <= self@.len(),
                self@.len() == self.regions@.len(),
                best is None ==> forall|k: int| 0 <= k < i ==> !(#[trigger] self@[k].contains(a as int)),
                best matches Some(b) ==> b < i && self@[b as int].contains(a as int) && forall|k: int|
                    0 <= k < i && #[trigger] self@[k].contains(a as int) ==> self@[k].slot <= self@[b as int].slot,
            decreases self.regions@.len() - i,
        {
            let r = &self.regions[i];
            let len = r.view.len;
            if r.view.addr <= a && a - r.view.addr < len {
                match best {
                    None => {
                        best = Some(i);
                    },
                    Some(b) => {
                        if self.regions[b].view.slot < r.view.slot {
                            best = Some(i);
                        }
                    },
                }
            }
            i = i + 1;
        }
        match best {
            None => None,
            Some(b) => Some((b, a - self.regions[b].view.addr)),
        }
    }
}

/// Where regions overlap, the higher slot wins: a region that contains the
/// address but has a lower slot than another region containing it never
/// translates the address, and with unique slots at most one region does.
pub proof fn lemma_higher_slot_wins(rs: Seq<RegionView>, i: int, j: int, a: int)
    requires
        slots_unique(rs),
        0 <= i < rs.len(),
        0 <= j < rs.len(),
        rs[i].contains(a),
        rs[j].contains(a),
        rs[i].slot < rs[j].slot,
    ensures
        !translates(rs, i, a),
        forall|k: int| #[trigger] translates(rs, k, a) ==> k != i && rs[k].slot >= rs[j].slot,
        forall|k: int, l: int| #[trigger] translates(rs, k, a) && #[trigger] translates(rs, l, a) ==> k == l,
{
    assert forall|k: int, l: int| #[trigger] translates(rs, k, a) && #[trigger] translates(rs, l, a) implies k == l by {
        if k != l {
            assert(rs[k].slot != rs[l].slot);
        }
    }
}

} // verus!
