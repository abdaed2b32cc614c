use kvm::error::{Error, Request};
use kvm::memory::Slab;
use kvm::region::{MemoryRegion, RegionOptions, RegionTable, LOG_DIRTY_PAGES, READ_ONLY};

fn region(slot: u32, addr: u64, len: usize) -> kvm::region::Region {
    let mut o = RegionOptions::new(slot);
    o.addr(addr);
    o.source(&Slab::from_mapping(0x7f00_0000_0000 + addr, len));
    o.build()
}

#[test]
fn overlapping_regions_higher_slot_wins() {
    let mut t = RegionTable::new();
    assert_eq!(t.mount(region(1, 0x1000, 0x1000), Ok(())), Ok(()));
    assert_eq!(t.mount(region(2, 0x1000, 0x1000), Ok(())), Ok(()));
    let (i, off) = t.locate(0x1000).unwrap();
    assert_eq!(t.get(i).slot(), 2);
    assert_eq!(off, 0);
    let (i, off) = t.locate(0x1fff).unwrap();
    assert_eq!(t.get(i).slot(), 2);
    assert_eq!(off, 0xfff);
}

#[test]
fn higher_slot_wins_regardless_of_mount_order() {
    let mut t = RegionTable::new();
    assert_eq!(t.mount(region(7, 0x0, 0x4000), Ok(())), Ok(()));
    assert_eq!(t.mount(region(3, 0x1000, 0x1000), Ok(())), Ok(()));
    let (i, off) = t.locate(0x1800).unwrap();
    assert_eq!(t.get(i).slot(), 7);
    assert_eq!(off, 0x1800);
}

#[test]
fn address_outside_all_regions_is_not_found() {
    let mut t = RegionTable::new();
    assert_eq!(t.locate(0), None);
    assert_eq!(t.mount(region(1, 0x1000, 0x1000), Ok(())), Ok(()));
    assert_eq!(t.locate(0x0fff), None);
    assert_eq!(t.locate(0x2000), None);
    assert_eq!(t.locate(u64::MAX), None);
    assert_eq!(t.translate(0x2000, 1), None);
}

#[test]
fn failed_registration_leaves_table_unchanged() {
    let mut t = RegionTable::new();
    assert_eq!(
        t.mount(region(1, 0, 0x1000), Err(22)),
        Err(Error::MachineApi(Request::SetUserMemoryRegion, 22))
    );
    assert_eq!(t.len(), 0);
    assert_eq!(t.locate(0), None);
}

#[test]
fn duplicate_slot_is_refused() {
    let mut t = RegionTable::new();
    assert_eq!(t.mount(region(4, 0, 0x1000), Ok(())), Ok(()));
    assert_eq!(t.check_slot(4), Err(Error::SlotInUse(4)));
    assert_eq!(t.check_slot(5), Ok(()));
    assert_eq!(t.mount(region(4, 0x8000, 0x1000), Ok(())), Err(Error::SlotInUse(4)));
    assert_eq!(t.len(), 1);
}

#[test]
fn next_slot_is_one_above_the_highest() {
    let mut t = RegionTable::new();
    assert_eq!(t.next_slot(), Ok(0));
    assert_eq!(t.mount(region(5, 0, 0x1000), Ok(())), Ok(()));
    assert_eq!(t.mount(region(2, 0x1000, 0x1000), Ok(())), Ok(()));
    assert_eq!(t.next_slot(), Ok(6));
    assert_eq!(t.mount(region(u32::MAX, 0x2000, 0x1000), Ok(())), Ok(()));
    assert_eq!(t.next_slot(), Err(Error::NoFreeSlot));
}

#[test]
fn translation_to_host_addresses() {
    let mut t = RegionTable::new();
    let slab = Slab::from_mapping(0x7000_0000, 0x100);
    let mut o = RegionOptions::new(0);
    o.addr(0x1000);
    o.source(&slab);
    assert_eq!(t.mount(o.build(), Ok(())), Ok(()));
    assert_eq!(t.translate(0x1010, 3), Some(0x7000_0010));
    assert_eq!(t.translate(0x10fe, 2), Some(0x7000_00fe));
    assert_eq!(t.translate(0x10fe, 3), None);
    assert_eq!(t.translate(0x0fff, 1), None);
}

#[test]
fn one_slab_behind_two_regions() {
    let mut t = RegionTable::new();
    let slab = Slab::from_mapping(0x5000_0000, 0x2000);
    let rw = t.prepare(0, &slab, 0, None).unwrap();
    assert_eq!(t.mount(rw, Ok(())), Ok(()));
    let ro = t.prepare(0x10_0000, &slab, READ_ONLY, None).unwrap();
    assert_eq!(t.mount(ro, Ok(())), Ok(()));
    assert_eq!(t.translate(0x10, 1), Some(0x5000_0010));
    assert_eq!(t.translate(0x10_0010, 1), Some(0x5000_0010));
    let (i, _) = t.locate(0x10_0010).unwrap();
    assert_eq!(t.get(i).flags(), READ_ONLY);
}

#[test]
fn slab_describes_a_mapping() {
    let s = Slab::from_mapping(0x1000, 16);
    assert_eq!(s.len(), 16);
    assert_eq!(s.address(), 0x1000);
}

#[test]
fn region_builder_flags_and_descriptor() {
    let mut o = RegionOptions::new(3);
    o.log_dirty_pages();
    o.read_only();
    o.disable_log_dirty_pages();
    o.addr(0x4000);
    o.source(&Slab::from_mapping(0x9000, 0x2000));
    let r = o.build();
    assert_eq!(r.flags(), READ_ONLY);
    assert_eq!(
        r.descriptor(),
        MemoryRegion { slot: 3, flags: READ_ONLY, guest_phys_addr: 0x4000, memory_size: 0x2000, userspace_addr: 0x9000 }
    );
    let mut o = r.into_options();
    o.disable_read_only();
    o.log_dirty_pages();
    let taken = o.take();
    assert_eq!(taken, Some(Slab::from_mapping(0x9000, 0x2000)));
    assert_eq!(o.take(), None);
    let r = o.build();
    assert_eq!(r.flags(), LOG_DIRTY_PAGES);
    assert_eq!(r.len(), 0);
    assert_eq!(r.host_address(), 0);
}

#[test]
fn prepare_picks_explicit_or_next_slot() {
    let mut t = RegionTable::new();
    let slab = Slab::from_mapping(0x8000, 0x1000);
    let r = t.prepare(0x1000, &slab, READ_ONLY, None).unwrap();
    assert_eq!(r.slot(), 0);
    assert_eq!(r.flags(), READ_ONLY);
    assert_eq!(r.addr(), 0x1000);
    assert_eq!(r.len(), 0x1000);
    assert_eq!(t.mount(r, Ok(())), Ok(()));
    let r = t.prepare(0x2000, &slab, 0, Some(9)).unwrap();
    assert_eq!(r.slot(), 9);
    assert_eq!(t.mount(r, Ok(())), Ok(()));
    assert_eq!(t.prepare(0x3000, &slab, 0, None).map(|r| r.slot()), Ok(10));
    assert_eq!(t.prepare(0x3000, &slab, 0, Some(9)).map(|r| r.slot()), Err(Error::SlotInUse(9)));
}
