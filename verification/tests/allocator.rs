use objalloc::{
    BootInfo, ObjectAllocator, ObjectBlueprint, ObjectBlueprintArch, ObjectSizes, RetypeRequest,
    SlotRegion, UntypedDesc,
};

fn sizes() -> ObjectSizes {
    ObjectSizes {
        endpoint_bits: 4,
        notification_bits: 5,
        tcb_bits: 10,
        page_bits: 12,
        page_table_bits: 12,
    }
}

fn desc(paddr: usize, size_bits: usize, is_device: bool) -> UntypedDesc {
    UntypedDesc { paddr, size_bits, is_device }
}

/// Slots 100.. hold: a small region, a large device region, a mid-sized
/// region and a large region.  Slots 200..300 are empty.
fn bootinfo() -> BootInfo {
    BootInfo {
        untyped_list: vec![
            desc(0x1000, 8, false),
            desc(0x10_0000, 24, true),
            desc(0x20_0000, 12, false),
            desc(0x40_0000, 20, false),
        ],
        untyped: SlotRegion::from_range(100, 104),
        empty: SlotRegion::from_range(200, 300),
    }
}

fn used_flags(a: &ObjectAllocator) -> Vec<bool> {
    a.untyped_entries().iter().map(|e| e.used).collect()
}

#[test]
fn new_hands_out_nothing() {
    let bi = bootinfo();
    let a = ObjectAllocator::new(&bi, sizes());
    assert_eq!(used_flags(&a), vec![false, false, false, false]);
    let descs: Vec<UntypedDesc> = a.untyped_entries().iter().map(|e| e.desc).collect();
    assert_eq!(descs, bi.untyped_list);
    assert_eq!(a.untyped_start_slot(), 100);
    assert_eq!(a.empty_region(), SlotRegion::from_range(200, 300));
    assert_eq!(a.object_sizes(), sizes());
}

#[test]
fn default_owns_nothing() {
    let a = ObjectAllocator::default();
    assert!(a.untyped_entries().is_empty());
    assert_eq!(a.untyped_start_slot(), 0);
    assert_eq!(a.empty_region(), SlotRegion::from_range(0, 0));
    assert_eq!(a.find_untyped(&ObjectBlueprint::Endpoint), None);
    assert_eq!(a.empty_region().first_slot(), None);
}

#[test]
fn first_fit_skips_small_and_device_regions() {
    let mut a = ObjectAllocator::new(&bootinfo(), sizes());
    // 2^10 bytes: the first region has 2^8, the second is device memory
    let slot = a.get_the_first_untyped_slot(&ObjectBlueprint::Untyped { size_bits: 10 });
    assert_eq!(slot, 102);
    assert_eq!(used_flags(&a), vec![false, false, true, false]);
}

#[test]
fn first_fit_takes_lowest_fitting_region() {
    let mut a = ObjectAllocator::new(&bootinfo(), sizes());
    let slot = a.get_the_first_untyped_slot(&ObjectBlueprint::Endpoint);
    assert_eq!(slot, 100);
    assert_eq!(used_flags(&a), vec![true, false, false, false]);
}

#[test]
fn no_region_is_handed_out_twice() {
    let mut a = ObjectAllocator::new(&bootinfo(), sizes());
    let first = a.get_the_first_untyped_slot(&ObjectBlueprint::Endpoint);
    let second = a.get_the_first_untyped_slot(&ObjectBlueprint::Endpoint);
    let third = a.get_the_first_untyped_slot(&ObjectBlueprint::Endpoint);
    assert_eq!((first, second, third), (100, 102, 103));
    assert_eq!(used_flags(&a), vec![true, false, true, true]);
    assert_eq!(a.find_untyped(&ObjectBlueprint::Endpoint), None);
}

#[test]
fn each_hand_out_marks_one_more_region() {
    let mut a = ObjectAllocator::new(&bootinfo(), sizes());
    for expected in 1..=3 {
        a.get_the_first_untyped_slot(&ObjectBlueprint::Untyped { size_bits: 4 });
        let used = used_flags(&a).iter().filter(|u| **u).count();
        assert_eq!(used, expected);
    }
}

#[test]
fn find_untyped_agrees_with_hand_out() {
    let mut a = ObjectAllocator::new(&bootinfo(), sizes());
    let bp = ObjectBlueprint::Untyped { size_bits: 13 };
    let found = a.find_untyped(&bp);
    assert_eq!(found, Some(103));
    assert_eq!(a.get_the_first_untyped_slot(&bp), 103);
    assert_eq!(a.find_untyped(&bp), None);
    assert_eq!(a.find_untyped(&ObjectBlueprint::Untyped { size_bits: 25 }), None);
}

#[test]
fn find_untyped_refuses_a_slot_past_the_word() {
    let bi = BootInfo {
        untyped_list: vec![desc(0, 4, false), desc(0, 16, false)],
        untyped: SlotRegion::from_range(usize::MAX, usize::MAX),
        empty: SlotRegion::from_range(1, 2),
    };
    let a = ObjectAllocator::new(&bi, sizes());
    assert_eq!(a.find_untyped(&ObjectBlueprint::Endpoint), Some(usize::MAX));
    assert_eq!(a.find_untyped(&ObjectBlueprint::Tcb), None);
}

#[test]
fn empty_slot_is_not_consumed() {
    let mut a = ObjectAllocator::new(&bootinfo(), sizes());
    assert_eq!(a.get_empty_slot(), 200);
    assert_eq!(a.get_empty_slot(), 200);
    assert_eq!(a.empty_region(), SlotRegion::from_range(200, 300));
}

#[test]
fn slot_region_first_slot() {
    assert_eq!(SlotRegion::from_range(5, 9).first_slot(), Some(5));
    assert_eq!(SlotRegion::from_range(5, 5).first_slot(), None);
    assert_eq!(SlotRegion::from_range(9, 5).first_slot(), None);
}

#[test]
fn single_allocations_name_kind_untyped_and_slot() {
    let mut a = ObjectAllocator::new(&bootinfo(), sizes());
    let ntfn = a.alloc_ntfn();
    assert_eq!(
        ntfn,
        RetypeRequest { untyped: 100, blueprint: ObjectBlueprint::Notification, dest_slot: 200, count: 1 }
    );
    let ep = a.alloc_ep();
    assert_eq!(
        ep,
        RetypeRequest { untyped: 102, blueprint: ObjectBlueprint::Endpoint, dest_slot: 200, count: 1 }
    );
    let tcb = a.alloc_tcb();
    assert_eq!(
        tcb,
        RetypeRequest { untyped: 103, blueprint: ObjectBlueprint::Tcb, dest_slot: 200, count: 1 }
    );
    assert_eq!(used_flags(&a), vec![true, false, true, true]);
}

#[test]
fn page_allocations_need_page_sized_regions() {
    let mut a = ObjectAllocator::new(&bootinfo(), sizes());
    let frame = a.alloc_frame();
    assert_eq!(
        frame,
        RetypeRequest {
            untyped: 102,
            blueprint: ObjectBlueprint::Arch(ObjectBlueprintArch::_4kPage),
            dest_slot: 200,
            count: 1,
        }
    );
    let pt = a.alloc_page_table();
    assert_eq!(
        pt,
        RetypeRequest {
            untyped: 103,
            blueprint: ObjectBlueprint::Arch(ObjectBlueprintArch::PageTable),
            dest_slot: 200,
            count: 1,
        }
    );
}

#[test]
fn batch_of_endpoints() {
    let mut a = ObjectAllocator::new(&bootinfo(), sizes());
    // 2^3 endpoints of 2^4 bytes need a region of 2^7 bytes
    let b = a.alloc_many_ep(3);
    assert_eq!(
        b.request,
        RetypeRequest { untyped: 100, blueprint: ObjectBlueprint::Endpoint, dest_slot: 200, count: 8 }
    );
    assert_eq!(b.caps, vec![0, 1, 2, 3, 4, 5, 6, 7]);
}

#[test]
fn batch_of_frames_needs_a_large_region() {
    let mut a = ObjectAllocator::new(&bootinfo(), sizes());
    // 2^2 frames of 2^12 bytes need 2^14 bytes: only the last region
    let b = a.alloc_many_frame(2);
    assert_eq!(
        b.request,
        RetypeRequest {
            untyped: 103,
            blueprint: ObjectBlueprint::Arch(ObjectBlueprintArch::_4kPage),
            dest_slot: 200,
            count: 4,
        }
    );
    assert_eq!(b.caps, vec![0, 1, 2, 3]);
    assert_eq!(used_flags(&a), vec![false, false, false, true]);
}

#[test]
fn batch_of_tcbs_of_one() {
    let mut a = ObjectAllocator::new(&bootinfo(), sizes());
    let b = a.alloc_many_tcb(0);
    assert_eq!(
        b.request,
        RetypeRequest { untyped: 102, blueprint: ObjectBlueprint::Tcb, dest_slot: 200, count: 1 }
    );
    assert_eq!(b.caps, vec![0]);
}

#[test]
fn init_starts_over() {
    let mut a = ObjectAllocator::new(&bootinfo(), sizes());
    a.alloc_ep();
    a.alloc_tcb();
    let other = BootInfo {
        untyped_list: vec![desc(0x8000, 16, false)],
        untyped: SlotRegion::from_range(40, 41),
        empty: SlotRegion::from_range(50, 60),
    };
    let small = ObjectSizes { endpoint_bits: 5, ..sizes() };
    a.init(&other, small);
    assert_eq!(used_flags(&a), vec![false]);
    assert_eq!(a.untyped_start_slot(), 40);
    assert_eq!(a.empty_region(), SlotRegion::from_range(50, 60));
    assert_eq!(a.object_sizes(), small);
    assert_eq!(
        a.alloc_ep(),
        RetypeRequest { untyped: 40, blueprint: ObjectBlueprint::Endpoint, dest_slot: 50, count: 1 }
    );
}

#[test]
fn physical_size_bits_by_kind() {
    let s = sizes();
    assert_eq!(ObjectBlueprint::Untyped { size_bits: 21 }.physical_size_bits(&s), 21);
    assert_eq!(ObjectBlueprint::Endpoint.physical_size_bits(&s), 4);
    assert_eq!(ObjectBlueprint::Notification.physical_size_bits(&s), 5);
    assert_eq!(ObjectBlueprint::Tcb.physical_size_bits(&s), 10);
    assert_eq!(ObjectBlueprint::Arch(ObjectBlueprintArch::_4kPage).physical_size_bits(&s), 12);
    assert_eq!(ObjectBlueprint::Arch(ObjectBlueprintArch::PageTable).physical_size_bits(&s), 12);
}

#[test]
fn retype_outcome() {
    let req = RetypeRequest { untyped: 7, blueprint: ObjectBlueprint::Endpoint, dest_slot: 42, count: 1 };
    assert_eq!(req.outcome::<u32>(Ok(())), Ok(42));
    assert_eq!(req.outcome::<u32>(Err(3)), Err(3));
}

#[test]
fn untyped_desc_getters() {
    let d = desc(0xabc000, 14, true);
    assert_eq!(d.paddr(), 0xabc000);
    assert_eq!(d.size_bits(), 14);
    assert!(d.is_device());
}
