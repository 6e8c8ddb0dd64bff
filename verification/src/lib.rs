//! Allocation of seL4 kernel objects out of the untyped memory that the
//! kernel hands to the root task at boot.
//!
//! The library keeps the bookkeeping: which untyped regions have been
//! handed out, which slot of the root CNode receives a new object, and the
//! initial register values of a thread.  The kernel invocations themselves
//! are made by the caller with the values the library computes.

mod boot;
mod untyped;
mod allocator;
mod thread;

pub use boot::{BootInfo, ObjectBlueprint, ObjectBlueprintArch, ObjectSizes, SlotRegion, UntypedDesc};
pub use untyped::{
    UsedUntypedDesc, fits, first_fit, has_fit, is_first_fit, mark_used, used_count,
    lemma_first_fit_exists, lemma_first_fit_unique,
};
pub use allocator::{
    BatchRequest, ObjectAllocator, RetypeRequest, fresh_entries, lemma_pick_hands_out_one_region,
    lemma_successive_picks_differ, lemma_successive_allocations_share_dest_slot,
    run_step, is_run, lemma_hand_outs_never_repeat, lemma_picked_region_is_lowest_usable,
    lemma_usable_region_is_picked_no_later, lemma_single_request_targets_first_empty_slot,
    lemma_batch_request_count, lemma_fresh_entries_hand_out_nothing,
};
pub use thread::{
    ThreadRegisters, thread_registers, ThreadSetupStep, after_setup_step, next_setup_step,
    many_threads_count, lemma_setup_runs_in_order, IPC_BUFFER_BYTES, MANY_THREADS_STACK_BYTES,
    MANY_THREADS_TLS_OFFSET, SINGLE_THREAD_STACK_BYTES, SINGLE_THREAD_TLS_OFFSET, PAGE_BYTES,
};
