use vstd::prelude::*;
use vstd::arithmetic::power2::pow2;
use crate::boot::{BootInfo, ObjectBlueprint, ObjectBlueprintArch, ObjectSizes, SlotRegion, UntypedDesc};
use crate::untyped::{
    UsedUntypedDesc, fits, first_fit, has_fit, is_first_fit, mark_used, used_count,
    lemma_first_fit_exists, lemma_first_fit_unique, lemma_mark_used_counts_one_more,
    lemma_no_untyped_handed_out_twice,
};

verus! {

/// A request to the kernel to retype part of an untyped region into
/// `count` objects of kind `blueprint`, whose capabilities go to the slots
/// from `dest_slot` on.  `untyped` is the slot of the untyped capability.
#[derive(Clone, Copy, PartialEq, Eq, Structural, Debug)]
pub struct RetypeRequest {
    pub untyped: usize,
    pub blueprint: ObjectBlueprint,
    pub dest_slot: usize,
    pub count: usize,
}

impl RetypeRequest {
    /// What a single-object allocation answers, given how the kernel
    /// answered the retype request: the slot of the new object, or the
    /// kernel's error.
    pub fn outcome<E>(&self, result: Result<(), E>) -> (r: Result<usize, E>)
        ensures
            result is Ok ==> r == Ok::<usize, E>(self.dest_slot),
            result matches Err(e) ==> r == Err::<usize, E>(e),
    {
        match result {
            Ok(()) => Ok(self.dest_slot),
            Err(e) => Err(e),
        }
    }
}

/// A retype request for many objects at once, and the capability slots
/// that the allocation reports for them.
#[derive(Debug)]
pub struct BatchRequest {
    pub request: RetypeRequest,
    pub caps: Vec<usize>,
}

/// Hands out the untyped regions of the root task, lowest fitting region
/// first, each region at most once.
#[derive(Debug)]
pub struct ObjectAllocator {
    untyped_list: Vec<UsedUntypedDesc>,
    untyped_start: usize,
    empty: SlotRegion,
    sizes: ObjectSizes,
}

/// The list of regions as given at boot, none of them handed out.
pub open spec fn fresh_entries(descs: Seq<UntypedDesc>) -> Seq<UsedUntypedDesc> {
    Seq::new(descs.len(), |i: int| UsedUntypedDesc { desc: descs[i], used: false })
}

impl ObjectAllocator {
    /// The untyped regions, in the order of their capability slots.
    pub closed spec fn entries(&self) -> Seq<UsedUntypedDesc> {
        self.untyped_list@
    }

    /// The slot that holds the capability of the first untyped region.
    pub closed spec fn untyped_start(&self) -> usize {
        self.untyped_start
    }

    /// The empty slots of the root CNode.
    pub closed spec fn empty(&self) -> SlotRegion {
        self.empty
    }

    /// The object sizes of the kernel configuration.
    pub closed spec fn sizes(&self) -> ObjectSizes {
        self.sizes
    }

    /// A region for an object of `2^bits` bytes can be found, and its
    /// slot number fits in a machine word.
    pub open spec fn can_pick(&self, bits: int) -> bool {
        &&& has_fit(self.entries(), bits)
        &&& self.untyped_start() + first_fit(self.entries(), bits) <= usize::MAX
    }

    /// The slot of the untyped capability that a request for `2^bits`
    /// bytes is given.
    pub open spec fn picked_slot(&self, bits: int) -> int {
        self.untyped_start() + first_fit(self.entries(), bits)
    }

    /// `next` is this allocator after the region for `2^bits` bytes has
    /// been handed out.
    pub open spec fn picked(&self, next: ObjectAllocator, bits: int) -> bool {
        &&& next.entries() == mark_used(self.entries(), first_fit(self.entries(), bits))
        &&& next.untyped_start() == self.untyped_start()
        &&& next.empty() == self.empty()
        &&& next.sizes() == self.sizes()
    }

    /// The root CNode still has an empty slot.
    pub open spec fn has_empty_slot(&self) -> bool {
        self.empty().start < self.empty().end
    }

    /// The request that allocating one object of kind `blueprint` makes.
    pub open spec fn single_request(&self, blueprint: ObjectBlueprint) -> RetypeRequest {
        RetypeRequest {
            untyped: self.picked_slot(blueprint.size_bits_with(self.sizes())) as usize,
            blueprint,
            dest_slot: self.empty().start,
            count: 1,
        }
    }

    /// The request that allocating `2^cnt_bits` objects of kind `object`,
    /// each of `2^object_bits` bytes, makes.
    pub open spec fn batch_request(
        &self,
        object_bits: int,
        cnt_bits: int,
        object: ObjectBlueprint,
    ) -> RetypeRequest {
        RetypeRequest {
            untyped: self.picked_slot(object_bits + cnt_bits) as usize,
            blueprint: object,
            dest_slot: self.empty().start,
            count: pow2(cnt_bits as nat) as usize,
        }
    }

    /// An allocator that owns no untyped memory and no empty slot.
    pub fn default() -> (r: ObjectAllocator)
        ensures
            r.entries() == Seq::<UsedUntypedDesc>::empty(),
            r.untyped_start() == 0,
            r.empty() == (SlotRegion { start: 0, end: 0 }),
            r.sizes() == (ObjectSizes {
                endpoint_bits: 0,
                notification_bits: 0,
                tcb_bits: 0,
                page_bits: 0,
                page_table_bits: 0,
            }),
    {
        ObjectAllocator {
            untyped_list: Vec::new(),
            untyped_start: 0,
            empty: SlotRegion { start: 0, end: 0 },
            sizes: ObjectSizes {
                endpoint_bits: 0,
                notification_bits: 0,
                tcb_bits: 0,
                page_bits: 0,
                page_table_bits: 0,
            },
        }
    }

    /// An allocator over the untyped memory and empty slots that the boot
    /// information lists, with no region handed out yet.
    pub fn new(bootinfo: &BootInfo, sizes: ObjectSizes) -> (r: ObjectAllocator)
        ensures
            r.entries() == fresh_entries(bootinfo.untyped_list@),
            r.untyped_start() == bootinfo.untyped.start,
            r.empty() == bootinfo.empty,
            r.sizes() == sizes,
            bootinfo.well_formed() ==> r.entries().len() == bootinfo.untyped.end
                - bootinfo.untyped.start,
            r.entries().len() == bootinfo.untyped_list@.len(),
            forall|i: int|
                0 <= i < r.entries().len() ==> (#[trigger] r.entries()[i]).desc
                    == bootinfo.untyped_list@[i] && !r.entries()[i].used,
    {
        let mut untyped_list: Vec<UsedUntypedDesc> = Vec::new();
        let n = bootinfo.untyped_list.len();
        for i in 0..n
            invariant
                n == bootinfo.untyped_list@.len(),
                untyped_list@ == fresh_entries(bootinfo.untyped_list@.take(i as int)),
        {
            untyped_list.push(UsedUntypedDesc { desc: bootinfo.untyped_list[i], used: false });
            assert(bootinfo.untyped_list@.take(i + 1) == bootinfo.untyped_list@.take(i as int).push(
                bootinfo.untyped_list@[i as int],
            ));
        }
        assert(bootinfo.untyped_list@.take(n as int) == bootinfo.untyped_list@);
        ObjectAllocator {
            untyped_list,
            untyped_start: bootinfo.untyped.start,
            empty: bootinfo.empty,
            sizes,
        }
    }

    /// Starts over from the boot information: what was handed out before
    /// is forgotten.
    pub fn init(&mut self, bootinfo: &BootInfo, sizes: ObjectSizes)
        ensures
            final(self).entries() == fresh_entries(bootinfo.untyped_list@),
            final(self).untyped_start() == bootinfo.untyped.start,
            final(self).empty() == bootinfo.empty,
            final(self).sizes() == sizes,
            bootinfo.well_formed() ==> final(self).entries().len() == bootinfo.untyped.end
                - bootinfo.untyped.start,
            final(self).entries().len() == bootinfo.untyped_list@.len(),
            forall|i: int|
                0 <= i < final(self).entries().len() ==> (#[trigger] final(self).entries()[i]).desc
                    == bootinfo.untyped_list@[i] && !final(self).entries()[i].used,
    {
        *self = ObjectAllocator::new(bootinfo, sizes);
    }

    /// The slot of the untyped capability that `get_the_first_untyped_slot`
    /// would answer for `blueprint`, or `None` where it has no answer.
    pub fn find_untyped(&self, blueprint: &ObjectBlueprint) -> (r: Option<usize>)
        ensures
            self.can_pick(blueprint.size_bits_with(self.sizes())) ==> r == Some(
                self.picked_slot(blueprint.size_bits_with(self.sizes())) as usize,
            ),
            !self.can_pick(blueprint.size_bits_with(self.sizes())) ==> r is None,
            r matches Some(slot) ==> ({
                let i = slot - self.untyped_start();
                let bits = blueprint.size_bits_with(self.sizes());
                &&& 0 <= i < self.entries().len()
                &&& !self.entries()[i].desc.is_device
                &&& self.entries()[i].desc.size_bits >= bits
                &&& !self.entries()[i].used
                &&& forall|j: int|
                    0 <= j < i ==> (#[trigger] self.entries()[j]).desc.is_device
                        || self.entries()[j].desc.size_bits < bits || self.entries()[j].used
            }),
            r is None ==> forall|j: int|
                0 <= j < self.entries().len() && !(#[trigger] self.entries()[j]).desc.is_device
                    && self.entries()[j].desc.size_bits >= blueprint.size_bits_with(self.sizes())
                    && !self.entries()[j].used ==> self.untyped_start() + j > usize::MAX,
    {
        proof {
            let bits = blueprint.size_bits_with(self.sizes());
            if self.can_pick(bits) {
                lemma_picked_region_is_lowest_usable(*self, bits);
            }
            assert forall|j: int|
                0 <= j < self.entries().len() && !(#[trigger] self.entries()[j]).desc.is_device
                    && self.entries()[j].desc.size_bits >= bits && !self.entries()[j].used
                    && self.untyped_start() + j <= usize::MAX implies self.can_pick(bits) by {
                lemma_usable_region_is_picked_no_later(*self, bits, j);
            }
        }
        let bits = blueprint.physical_size_bits(&self.sizes);
        match first_fit_index(&self.untyped_list, bits) {
            Some(idx) => {
                proof {
                    lemma_first_fit_exists(self.untyped_list@, bits as int);
                    lemma_first_fit_unique(
                        self.untyped_list@,
                        bits as int,
                        idx as int,
                        first_fit(self.untyped_list@, bits as int),
                    );
                }
                self.untyped_start.checked_add(idx)
            },
            None => None,
        }
    }

    /// The untyped regions, in the order of their capability slots, with
    /// whether each has been handed out.
    pub fn untyped_entries(&self) -> (r: &Vec<UsedUntypedDesc>)
        ensures
            r@ == self.entries(),
    {
        &self.untyped_list
    }

    /// The slot that holds the capability of the first untyped region.
    pub fn untyped_start_slot(&self) -> (r: usize)
        ensures
            r == self.untyped_start(),
    {
        self.untyped_start
    }

    /// The empty slots of the root CNode.
    pub fn empty_region(&self) -> (r: SlotRegion)
        ensures
            r == self.empty(),
    {
        self.empty
    }

    /// The object sizes of the kernel configuration.
    pub fn object_sizes(&self) -> (r: ObjectSizes)
        ensures
            r == self.sizes(),
    {
        self.sizes
    }

    /// Hands out the lowest untyped region that is ordinary memory, not yet
    /// handed out, and large enough for an object of kind `blueprint`;
    /// returns the slot of its capability.
    pub fn get_the_first_untyped_slot(&mut self, blueprint: &ObjectBlueprint) -> (slot: usize)
        requires
            old(self).can_pick(blueprint.size_bits_with(old(self).sizes())),
        ensures
            slot == old(self).picked_slot(blueprint.size_bits_with(old(self).sizes())),
            old(self).picked(*final(self), blueprint.size_bits_with(old(self).sizes())),
            ({
                let i = slot - old(self).untyped_start();
                let bits = blueprint.size_bits_with(old(self).sizes());
                &&& 0 <= i < old(self).entries().len()
                &&& !old(self).entries()[i].desc.is_device
                &&& old(self).entries()[i].desc.size_bits >= bits
                &&& !old(self).entries()[i].used
                &&& forall|j: int|
                    0 <= j < i ==> (#[trigger] old(self).entries()[j]).desc.is_device
                        || old(self).entries()[j].desc.size_bits < bits
                        || old(self).entries()[j].used
                &&& final(self).entries().len() == old(self).entries().len()
                &&& final(self).entries()[i].used
                &&& final(self).entries()[i].desc == old(self).entries()[i].desc
                &&& forall|j: int|
                    0 <= j < old(self).entries().len() && j != i ==> #[trigger] final(self).entries()[j]
                        == old(self).entries()[j]
            }),
    {
        proof {
            lemma_picked_region_is_lowest_usable(*old(self), blueprint.size_bits_with(old(self).sizes()));
        }
        let bits = blueprint.physical_size_bits(&self.sizes);
        let found = first_fit_index(&self.untyped_list, bits);
        let idx = found.unwrap();
        proof {
            lemma_first_fit_exists(self.untyped_list@, bits as int);
            lemma_first_fit_unique(
                self.untyped_list@,
                bits as int,
                idx as int,
                first_fit(self.untyped_list@, bits as int),
            );
        }
        let desc = self.untyped_list[idx].desc;
        self.untyped_list.set(idx, UsedUntypedDesc { desc, used: true });
        self.untyped_start + idx
    }

    /// The first empty slot of the root CNode.  The allocator does not
    /// consume it: the next call answers the same slot.
    pub fn get_empty_slot(&mut self) -> (slot: usize)
        requires
            old(self).has_empty_slot(),
        ensures
            slot == old(self).empty().start,
            *final(self) == *old(self),
    {
        let first = self.empty.first_slot();
        first.unwrap()
    }

    fn alloc_one(&mut self, blueprint: ObjectBlueprint) -> (req: RetypeRequest)
        requires
            old(self).can_pick(blueprint.size_bits_with(old(self).sizes())),
            old(self).has_empty_slot(),
        ensures
            old(self).picked(*final(self), blueprint.size_bits_with(old(self).sizes())),
            req == old(self).single_request(blueprint),
            req.dest_slot == old(self).empty().start,
            old(self).empty().start <= req.dest_slot < old(self).empty().end,
            req.count == 1,
    {
        let untyped = self.get_the_first_untyped_slot(&blueprint);
        let dest_slot = self.get_empty_slot();
        RetypeRequest { untyped, blueprint, dest_slot, count: 1 }
    }

    /// Allocates a notification object.
    pub fn alloc_ntfn(&mut self) -> (req: RetypeRequest)
        requires
            old(self).can_pick(old(self).sizes().notification_bits as int),
            old(self).has_empty_slot(),
        ensures
            old(self).picked(*final(self), old(self).sizes().notification_bits as int),
            req == old(self).single_request(ObjectBlueprint::Notification),
            req.dest_slot == old(self).empty().start,
            old(self).empty().start <= req.dest_slot < old(self).empty().end,
            req.count == 1,
    {
        self.alloc_one(ObjectBlueprint::Notification)
    }

    /// Allocates an endpoint.
    pub fn alloc_ep(&mut self) -> (req: RetypeRequest)
        requires
            old(self).can_pick(old(self).sizes().endpoint_bits as int),
            old(self).has_empty_slot(),
        ensures
            old(self).picked(*final(self), old(self).sizes().endpoint_bits as int),
            req == old(self).single_request(ObjectBlueprint::Endpoint),
            req.dest_slot == old(self).empty().start,
            old(self).empty().start <= req.dest_slot < old(self).empty().end,
            req.count == 1,
    {
        self.alloc_one(ObjectBlueprint::Endpoint)
    }

    /// Allocates a 4 KiB frame.
    pub fn alloc_frame(&mut self) -> (req: RetypeRequest)
        requires
            old(self).can_pick(old(self).sizes().page_bits as int),
            old(self).has_empty_slot(),
        ensures
            old(self).picked(*final(self), old(self).sizes().page_bits as int),
            req == old(self).single_request(ObjectBlueprint::Arch(ObjectBlueprintArch::_4kPage)),
            req.dest_slot == old(self).empty().start,
            old(self).empty().start <= req.dest_slot < old(self).empty().end,
            req.count == 1,
    {
        self.alloc_one(ObjectBlueprint::Arch(ObjectBlueprintArch::_4kPage))
    }

    /// Allocates a thread control block.
    pub fn alloc_tcb(&mut self) -> (req: RetypeRequest)
        requires
            old(self).can_pick(old(self).sizes().tcb_bits as int),
            old(self).has_empty_slot(),
        ensures
            old(self).picked(*final(self), old(self).sizes().tcb_bits as int),
            req == old(self).single_request(ObjectBlueprint::Tcb),
            req.dest_slot == old(self).empty().start,
            old(self).empty().start <= req.dest_slot < old(self).empty().end,
            req.count == 1,
    {
        self.alloc_one(ObjectBlueprint::Tcb)
    }

    /// Allocates a page table.
    pub fn alloc_page_table(&mut self) -> (req: RetypeRequest)
        requires
            old(self).can_pick(old(self).sizes().page_table_bits as int),
            old(self).has_empty_slot(),
        ensures
            old(self).picked(*final(self), old(self).sizes().page_table_bits as int),
            req == old(self).single_request(ObjectBlueprint::Arch(ObjectBlueprintArch::PageTable)),
            req.dest_slot == old(self).empty().start,
            old(self).empty().start <= req.dest_slot < old(self).empty().end,
            req.count == 1,
    {
        self.alloc_one(ObjectBlueprint::Arch(ObjectBlueprintArch::PageTable))
    }

    fn alloc_batch(&mut self, object_bits: usize, cnt_bits: usize, object: ObjectBlueprint) -> (b:
        BatchRequest)
        requires
            // the count is a shift of one, and the list of its capability
            // slots must fit in memory
            cnt_bits + 4 < usize::BITS,
            object_bits + cnt_bits <= usize::MAX,
            old(self).can_pick(object_bits + cnt_bits),
            old(self).has_empty_slot(),
        ensures
            old(self).picked(*final(self), object_bits + cnt_bits),
            b.request == old(self).batch_request(object_bits as int, cnt_bits as int, object),
            b.caps@ == Seq::new(pow2(cnt_bits as nat), |i: int| i as usize),
            b.request.count == pow2(cnt_bits as nat),
            b.request.count == b.caps@.len(),
            b.request.dest_slot == old(self).empty().start,
            old(self).empty().start <= b.request.dest_slot < old(self).empty().end,
    {
        proof {
            vstd::bits::lemma_usize_pow2_no_overflow(cnt_bits as nat);
            vstd::bits::lemma_usize_shl_is_mul(1, cnt_bits);
        }
        let cnt: usize = 1usize << cnt_bits;
        let mut caps: Vec<usize> = Vec::with_capacity(cnt);
        let search = ObjectBlueprint::Untyped { size_bits: object_bits + cnt_bits };
        let untyped = self.get_the_first_untyped_slot(&search);
        let dest_slot = self.get_empty_slot();
        for i in 0..cnt
            invariant
                caps@ == Seq::new(i as nat, |k: int| k as usize),
        {
            caps.push(i);
        }
        let b = BatchRequest { request: RetypeRequest { untyped, blueprint: object, dest_slot, count: cnt }, caps };
        proof {
            lemma_batch_request_count(*old(self), object_bits as int, cnt_bits, object);
        }
        b
    }

    /// Allocates `2^cnt_bits` endpoints out of one untyped region large
    /// enough for all of them.
    pub fn alloc_many_ep(&mut self, cnt_bits: usize) -> (b: BatchRequest)
        requires
            // the count is a shift of one, and the list of its capability
            // slots must fit in memory
            cnt_bits + 4 < usize::BITS,
            old(self).sizes().endpoint_bits + cnt_bits <= usize::MAX,
            old(self).can_pick(old(self).sizes().endpoint_bits + cnt_bits),
            old(self).has_empty_slot(),
        ensures
            old(self).picked(*final(self), old(self).sizes().endpoint_bits + cnt_bits),
            b.request == old(self).batch_request(
                old(self).sizes().endpoint_bits as int,
                cnt_bits as int,
                ObjectBlueprint::Endpoint,
            ),
            b.caps@ == Seq::new(pow2(cnt_bits as nat), |i: int| i as usize),
            b.request.count == pow2(cnt_bits as nat),
            b.request.count == b.caps@.len(),
            b.request.dest_slot == old(self).empty().start,
            old(self).empty().start <= b.request.dest_slot < old(self).empty().end,
    {
        let bits = self.sizes.endpoint_bits;
        self.alloc_batch(bits, cnt_bits, ObjectBlueprint::Endpoint)
    }

    /// Allocates `2^cnt_bits` 4 KiB frames out of one untyped region large
    /// enough for all of them.
    pub fn alloc_many_frame(&mut self, cnt_bits: usize) -> (b: BatchRequest)
        requires
            // the count is a shift of one, and the list of its capability
            // slots must fit in memory
            cnt_bits + 4 < usize::BITS,
            old(self).sizes().page_bits + cnt_bits <= usize::MAX,
            old(self).can_pick(old(self).sizes().page_bits + cnt_bits),
            old(self).has_empty_slot(),
        ensures
            old(self).picked(*final(self), old(self).sizes().page_bits + cnt_bits),
            b.request == old(self).batch_request(
                old(self).sizes().page_bits as int,
                cnt_bits as int,
                ObjectBlueprint::Arch(ObjectBlueprintArch::_4kPage),
            ),
            b.caps@ == Seq::new(pow2(cnt_bits as nat), |i: int| i as usize),
            b.request.count == pow2(cnt_bits as nat),
            b.request.count == b.caps@.len(),
            b.request.dest_slot == old(self).empty().start,
            old(self).empty().start <= b.request.dest_slot < old(self).empty().end,
    {
        let bits = self.sizes.page_bits;
        self.alloc_batch(bits, cnt_bits, ObjectBlueprint::Arch(ObjectBlueprintArch::_4kPage))
    }

    /// Allocates `2^cnt_bits` thread control blocks out of one untyped
    /// region large enough for all of them.
    pub fn alloc_many_tcb(&mut self, cnt_bits: usize) -> (b: BatchRequest)
        requires
            // the count is a shift of one, and the list of its capability
            // slots must fit in memory
            cnt_bits + 4 < usize::BITS,
            old(self).sizes().tcb_bits + cnt_bits <= usize::MAX,
            old(self).can_pick(old(self).sizes().tcb_bits + cnt_bits),
            old(self).has_empty_slot(),
        ensures
            old(self).picked(*final(self), old(self).sizes().tcb_bits + cnt_bits),
            b.request == old(self).batch_request(
                old(self).sizes().tcb_bits as int,
                cnt_bits as int,
                ObjectBlueprint::Tcb,
            ),
            b.caps@ == Seq::new(pow2(cnt_bits as nat), |i: int| i as usize),
            b.request.count == pow2(cnt_bits as nat),
            b.request.count == b.caps@.len(),
            b.request.dest_slot == old(self).empty().start,
            old(self).empty().start <= b.request.dest_slot < old(self).empty().end,
    {
        let bits = self.sizes.tcb_bits;
        self.alloc_batch(bits, cnt_bits, ObjectBlueprint::Tcb)
    }
}

/// The region handed out for `2^bits` bytes is ordinary memory, not yet
/// handed out, of at least `2^bits` bytes, however much larger; and every
/// region at a lower index is device memory, too small, or already handed
/// out.
pub proof fn lemma_picked_region_is_lowest_usable(a: ObjectAllocator, bits: int)
    requires
        a.can_pick(bits),
    ensures
        ({
            let i = a.picked_slot(bits) - a.untyped_start();
            &&& 0 <= i < a.entries().len()
            &&& !a.entries()[i].desc.is_device
            &&& a.entries()[i].desc.size_bits >= bits
            &&& !a.entries()[i].used
            &&& forall|j: int|
                0 <= j < i ==> (#[trigger] a.entries()[j]).desc.is_device
                    || a.entries()[j].desc.size_bits < bits || a.entries()[j].used
        }),
{
    lemma_first_fit_exists(a.entries(), bits);
    let i = first_fit(a.entries(), bits);
    assert forall|j: int| 0 <= j < i implies (#[trigger] a.entries()[j]).desc.is_device
        || a.entries()[j].desc.size_bits < bits || a.entries()[j].used by {
        assert(!fits(a.entries()[j], bits));
    }
}

/// Any region that is ordinary memory, not yet handed out and of at least
/// `2^bits` bytes, whatever its size beyond that, can be handed out for
/// `2^bits` bytes (where its slot number fits a machine word), and the
/// region handed out lies at its index or below.
pub proof fn lemma_usable_region_is_picked_no_later(a: ObjectAllocator, bits: int, j: int)
    requires
        0 <= j < a.entries().len(),
        !a.entries()[j].desc.is_device,
        a.entries()[j].desc.size_bits >= bits,
        !a.entries()[j].used,
        a.untyped_start() + j <= usize::MAX,
    ensures
        a.can_pick(bits),
        a.picked_slot(bits) <= a.untyped_start() + j,
{
    assert(fits(a.entries()[j], bits));
    lemma_first_fit_exists(a.entries(), bits);
}

/// A single-object request asks for one object of the given kind, in the
/// first slot of the empty region.
pub proof fn lemma_single_request_targets_first_empty_slot(
    a: ObjectAllocator,
    blueprint: ObjectBlueprint,
)
    requires
        a.empty().start < a.empty().end,
    ensures
        a.single_request(blueprint).dest_slot == a.empty().start,
        a.empty().start <= a.single_request(blueprint).dest_slot < a.empty().end,
        a.single_request(blueprint).count == 1,
        a.single_request(blueprint).blueprint == blueprint,
{
}

/// A batch request asks for `2^cnt_bits` (that is, `1 << cnt_bits`)
/// objects of the given kind, from the first slot of the empty region on.
pub proof fn lemma_batch_request_count(
    a: ObjectAllocator,
    object_bits: int,
    cnt_bits: usize,
    object: ObjectBlueprint,
)
    requires
        cnt_bits < usize::BITS,
    ensures
        a.batch_request(object_bits, cnt_bits as int, object).count == pow2(cnt_bits as nat),
        a.batch_request(object_bits, cnt_bits as int, object).count == 1usize << cnt_bits,
        a.batch_request(object_bits, cnt_bits as int, object).dest_slot == a.empty().start,
        a.batch_request(object_bits, cnt_bits as int, object).blueprint == object,
{
    vstd::bits::lemma_usize_pow2_no_overflow(cnt_bits as nat);
    vstd::bits::lemma_usize_shl_is_mul(1, cnt_bits);
}

/// Right after `new` or `init`, no region is handed out and each entry
/// describes the region at the same place of the boot list.
pub proof fn lemma_fresh_entries_hand_out_nothing(descs: Seq<UntypedDesc>)
    ensures
        fresh_entries(descs).len() == descs.len(),
        forall|i: int|
            0 <= i < descs.len() ==> (#[trigger] fresh_entries(descs)[i]).desc == descs[i]
                && !fresh_entries(descs)[i].used,
{
}

/// Each hand-out takes exactly one region: the region whose slot is
/// answered is ordinary memory of at least `2^bits` bytes that had not been
/// handed out, its slot lies among the untyped slots, it is handed out
/// afterwards, every other region keeps its state, no description changes,
/// and the number of regions handed out grows by one.
pub proof fn lemma_pick_hands_out_one_region(a: ObjectAllocator, b: ObjectAllocator, bits: int)
    requires
        a.can_pick(bits),
        a.picked(b, bits),
    ensures
        ({
            let i = a.picked_slot(bits) - a.untyped_start();
            &&& 0 <= i < a.entries().len()
            &&& !a.entries()[i].desc.is_device
            &&& a.entries()[i].desc.size_bits >= bits
            &&& !a.entries()[i].used
            &&& b.entries().len() == a.entries().len()
            &&& b.entries()[i].used
            &&& forall|j: int| 0 <= j < a.entries().len() && j != i ==> b.entries()[j] == a.entries()[j]
            &&& forall|j: int| 0 <= j < a.entries().len() ==> b.entries()[j].desc == a.entries()[j].desc
            &&& used_count(b.entries()) == used_count(a.entries()) + 1
        }),
{
    lemma_first_fit_exists(a.entries(), bits);
    lemma_mark_used_counts_one_more(a.entries(), first_fit(a.entries(), bits));
}

/// No untyped region is handed out twice: after one hand-out, the next one,
/// of any size, answers another slot.
pub proof fn lemma_successive_picks_differ(
    a: ObjectAllocator,
    b: ObjectAllocator,
    bits1: int,
    bits2: int,
)
    requires
        a.can_pick(bits1),
        a.picked(b, bits1),
        b.can_pick(bits2),
    ensures
        b.picked_slot(bits2) != a.picked_slot(bits1),
{
    lemma_no_untyped_handed_out_twice(a.entries(), bits1, bits2);
}

/// One step of a run of calls: `Some(bits)` for a hand-out of a region for
/// `2^bits` bytes (what `get_the_first_untyped_slot` and every allocation
/// do), `None` for a call that leaves the allocator as it was (the queries
/// and `get_empty_slot`).
pub open spec fn run_step(a: ObjectAllocator, b: ObjectAllocator, step: Option<int>) -> bool {
    match step {
        Some(bits) => a.can_pick(bits) && a.picked(b, bits),
        None => b == a,
    }
}

/// `states` is a run of calls whose `k`-th step takes `states[k]` to
/// `states[k + 1]`.
pub open spec fn is_run(states: Seq<ObjectAllocator>, steps: Seq<Option<int>>) -> bool {
    &&& states.len() == steps.len() + 1
    &&& forall|k: int| 0 <= k < steps.len() ==> run_step(states[k], states[k + 1], #[trigger] steps[k])
}

proof fn lemma_run_keeps_hand_out(
    states: Seq<ObjectAllocator>,
    steps: Seq<Option<int>>,
    i: int,
    k: int,
)
    requires
        is_run(states, steps),
        0 <= i < k <= steps.len(),
        steps[i] is Some,
    ensures
        ({
            let idx = first_fit(states[i].entries(), steps[i]->0);
            &&& 0 <= idx < states[k].entries().len()
            &&& states[k].entries()[idx].used
            &&& states[k].untyped_start() == states[i].untyped_start()
            &&& states[k].entries().len() == states[i].entries().len()
        }),
    decreases k - i,
{
    let bits = steps[i]->0;
    assert(run_step(states[i], states[i + 1], steps[i]));
    lemma_first_fit_exists(states[i].entries(), bits);
    if k > i + 1 {
        lemma_run_keeps_hand_out(states, steps, i, k - 1);
        let prev = states[k - 1];
        assert(run_step(prev, states[k], steps[k - 1]));
        match steps[k - 1] {
            Some(b2) => {
                lemma_first_fit_exists(prev.entries(), b2);
            },
            None => {},
        }
    }
}

/// No untyped region is handed out twice over any run of calls: from
/// `new` or `init` on, through any mix of hand-outs and calls that leave
/// the allocator as it was, the slots that the hand-outs answer are all
/// different.
pub proof fn lemma_hand_outs_never_repeat(
    states: Seq<ObjectAllocator>,
    steps: Seq<Option<int>>,
    i: int,
    j: int,
)
    requires
        is_run(states, steps),
        0 <= i < j < steps.len(),
        steps[i] is Some,
        steps[j] is Some,
    ensures
        states[j].picked_slot(steps[j]->0) != states[i].picked_slot(steps[i]->0),
{
    lemma_run_keeps_hand_out(states, steps, i, j);
    assert(run_step(states[j], states[j + 1], steps[j]));
    lemma_first_fit_exists(states[j].entries(), steps[j]->0);
}

/// Allocation does not consume empty slots: after a hand-out, the next
/// single-object allocation, of any kind, names the same destination slot.
pub proof fn lemma_successive_allocations_share_dest_slot(
    a: ObjectAllocator,
    b: ObjectAllocator,
    bits: int,
    first: ObjectBlueprint,
    second: ObjectBlueprint,
)
    requires
        a.picked(b, bits),
    ensures
        b.single_request(second).dest_slot == a.single_request(first).dest_slot,
{
}

/// The index of the lowest region of `list` that fits `2^bits` bytes, if
/// any fits.
fn first_fit_index(list: &Vec<UsedUntypedDesc>, bits: usize) -> (r: Option<usize>)
    ensures
        r matches Some(i) ==> is_first_fit(list@, bits as int, i as int),
        r is None ==> !has_fit(list@, bits as int),
{
    let mut i: usize = 0;
    while i < list.len()
        invariant
            i <= list@.len(),
            forall|j: int| 0 <= j < i ==> !#[trigger] fits(list@[j], bits as int),
        decreases list@.len() - i,
    {
        let e = list[i];
        if !e.desc.is_device && e.desc.size_bits >= bits && !e.used {
            return Some(i);
        }
        i = i + 1;
    }
    None
}

} // verus!
