use vstd::prelude::*;

verus! {

/// What the kernel tells the root task about one region of untyped memory.
#[derive(Clone, Copy, PartialEq, Eq, Structural, Debug)]
pub struct UntypedDesc {
    /// Physical address of the region.
    pub paddr: usize,
    /// The region spans `2^size_bits` bytes.
    pub size_bits: usize,
    /// Device memory cannot back kernel objects.
    pub is_device: bool,
}

impl UntypedDesc {
    pub fn paddr(&self) -> (r: usize)
        ensures
            r == self.paddr,
    {
        self.paddr
    }

    pub fn size_bits(&self) -> (r: usize)
        ensures
            r == self.size_bits,
    {
        self.size_bits
    }

    pub fn is_device(&self) -> (r: bool)
        ensures
            r == self.is_device,
    {
        self.is_device
    }
}

/// A half-open range `start..end` of slots in the root task's CNode.
#[derive(Clone, Copy, PartialEq, Eq, Structural, Debug)]
pub struct SlotRegion {
    pub start: usize,
    pub end: usize,
}

impl SlotRegion {
    pub fn from_range(start: usize, end: usize) -> (r: SlotRegion)
        ensures
            r.start == start,
            r.end == end,
    {
        SlotRegion { start, end }
    }

    /// The first slot of the region, as the first step of iterating over
    /// `start..end` yields it; `None` when the region holds no slot.
    pub fn first_slot(&self) -> (r: Option<usize>)
        ensures
            r == (if self.start < self.end { Some(self.start) } else { None::<usize> }),
    {
        if self.start < self.end {
            Some(self.start)
        } else {
            None
        }
    }
}

/// The boot information that the allocator reads: the untyped regions, in
/// the order of their capabilities, the slots that hold those capabilities,
/// and the slots that are still empty.
#[derive(Debug)]
pub struct BootInfo {
    pub untyped_list: Vec<UntypedDesc>,
    pub untyped: SlotRegion,
    pub empty: SlotRegion,
}

impl BootInfo {
    /// As the kernel hands it over: one untyped region per slot of the
    /// untyped slot region, in slot order.
    pub open spec fn well_formed(&self) -> bool {
        &&& self.untyped.start <= self.untyped.end
        &&& self.untyped_list@.len() == self.untyped.end - self.untyped.start
    }
}

/// The size, as a power of two, of each kind of kernel object, as the kernel
/// configuration fixes it (`seL4_EndpointBits` and its kin).
#[derive(Clone, Copy, PartialEq, Eq, Structural, Debug)]
pub struct ObjectSizes {
    pub endpoint_bits: usize,
    pub notification_bits: usize,
    pub tcb_bits: usize,
    pub page_bits: usize,
    pub page_table_bits: usize,
}

/// Architecture-specific kinds of kernel object.
#[allow(non_camel_case_types)]
#[derive(Clone, Copy, PartialEq, Eq, Structural, Debug)]
pub enum ObjectBlueprintArch {
    _4kPage,
    PageTable,
}

/// A kind of kernel object that can be retyped out of untyped memory.
#[derive(Clone, Copy, PartialEq, Eq, Structural, Debug)]
pub enum ObjectBlueprint {
    Untyped { size_bits: usize },
    Endpoint,
    Notification,
    Tcb,
    Arch(ObjectBlueprintArch),
}

impl ObjectBlueprint {
    /// log2 of the bytes that one object of this kind occupies.
    pub open spec fn size_bits_with(self, sizes: ObjectSizes) -> int {
        match self {
            ObjectBlueprint::Untyped { size_bits } => size_bits as int,
            ObjectBlueprint::Endpoint => sizes.endpoint_bits as int,
            ObjectBlueprint::Notification => sizes.notification_bits as int,
            ObjectBlueprint::Tcb => sizes.tcb_bits as int,
            ObjectBlueprint::Arch(ObjectBlueprintArch::_4kPage) => sizes.page_bits as int,
            ObjectBlueprint::Arch(ObjectBlueprintArch::PageTable) => sizes.page_table_bits as int,
        }
    }

    pub fn physical_size_bits(&self, sizes: &ObjectSizes) -> (r: usize)
        ensures
            r == self.size_bits_with(*sizes),
    {
        match self {
            ObjectBlueprint::Untyped { size_bits } => *size_bits,
            ObjectBlueprint::Endpoint => sizes.endpoint_bits,
            ObjectBlueprint::Notification => sizes.notification_bits,
            ObjectBlueprint::Tcb => sizes.tcb_bits,
            ObjectBlueprint::Arch(ObjectBlueprintArch::_4kPage) => sizes.page_bits,
            ObjectBlueprint::Arch(ObjectBlueprintArch::PageTable) => sizes.page_table_bits,
        }
    }
}

} // verus!
