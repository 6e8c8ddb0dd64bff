use vstd::prelude::*;
use vstd::arithmetic::power2::pow2;

verus! {

/// Alignment, in bytes, of a thread's TLS pointer.
pub const PAGE_BYTES: u64 = 4096;

/// Bytes of the IPC buffer given to each new thread.
pub const IPC_BUFFER_BYTES: usize = 4096;

/// Bytes of stack given to each thread of a batch.
pub const MANY_THREADS_STACK_BYTES: usize = 4096 * 64;

/// How far below the top of a batch thread's stack its TLS area starts.
pub const MANY_THREADS_TLS_OFFSET: u64 = 4096 * 32;

/// Bytes of stack given to a thread created on its own.
pub const SINGLE_THREAD_STACK_BYTES: usize = 4096 * 256;

/// How far below the top of a single thread's stack its TLS area starts.
pub const SINGLE_THREAD_TLS_OFFSET: u64 = 4096 * 128;

/// The registers that are set before a new thread first runs.
#[derive(Clone, Copy, PartialEq, Eq, Structural, Debug)]
pub struct ThreadRegisters {
    pub pc: u64,
    pub sp: u64,
    pub tp: u64,
    pub gp: u64,
    pub s0: u64,
    pub s1: u64,
    pub a0: u64,
    pub a1: u64,
}

/// The initial registers of a thread that enters at `entry` with `arg`
/// and the address of its IPC buffer as its two arguments, on a stack that
/// ends at `stack_top`.  The TLS pointer is `tls_offset` below the top,
/// rounded down to a page; the stack grows down from the same place.
pub fn thread_registers(
    entry: u64,
    stack_top: u64,
    tls_offset: u64,
    gp: u64,
    arg: u64,
    ipc_buffer: u64,
) -> (r: ThreadRegisters)
    requires
        tls_offset <= stack_top,
    ensures
        r.tp == (stack_top - tls_offset) as u64 & !0xfffu64,
        r.sp == r.tp & !0xfu64,
        r.pc == entry,
        r.gp == gp,
        r.s0 == 0,
        r.s1 == 0,
        r.a0 == arg,
        r.a1 == ipc_buffer,
        r.tp % 4096 == 0,
        r.sp % 16 == 0,
        r.sp == r.tp,
        r.tp <= stack_top - tls_offset < r.tp + 4096,
{
    let base: u64 = stack_top - tls_offset;
    assert((1u64 << 12u64) == 4096u64) by (bit_vector);
    let page_mask: u64 = (1u64 << 12u64) - 1;
    let tp: u64 = base & !page_mask;
    let align_mask: u64 = 16u64 - 1;
    let sp: u64 = tp & !align_mask;
    assert(tp % 4096 == 0 && tp <= base && base < tp + 4096 && sp == tp && sp % 16 == 0
        && tp == base & !0xfffu64 && sp == tp & !0xfu64) by (bit_vector)
        requires
            page_mask == 0xfffu64,
            align_mask == 0xfu64,
            tp == base & !page_mask,
            sp == tp & !align_mask,
    ;
    ThreadRegisters { pc: entry, sp, tp, gp, s0: 0, s1: 0, a0: arg, a1: ipc_buffer }
}

/// The number of threads that a batch of `2^cnt_bits` threads starts, where
/// `args_len` arguments, one per thread, are given for it; `None` where the
/// number of arguments does not match.
pub fn many_threads_count(cnt_bits: usize, args_len: usize) -> (r: Option<usize>)
    requires
        cnt_bits < usize::BITS,
    ensures
        args_len == pow2(cnt_bits as nat) ==> r == Some(args_len),
        args_len != pow2(cnt_bits as nat) ==> r is None,
{
    proof {
        vstd::bits::lemma_usize_pow2_no_overflow(cnt_bits as nat);
        vstd::bits::lemma_usize_shl_is_mul(1, cnt_bits);
    }
    let cnt: usize = 1usize << cnt_bits;
    if args_len == cnt {
        Some(cnt)
    } else {
        None
    }
}

/// The kernel invocations that start a new thread, in order.  `Done` and
/// `Failed` end the start-up.
#[derive(Clone, Copy, PartialEq, Eq, Structural, Debug)]
pub enum ThreadSetupStep {
    /// Give the thread its endpoint, address space and IPC buffer.
    Configure,
    /// Give the thread its priority.
    SetSchedParams,
    /// Read the thread's registers.
    ReadRegisters,
    /// Write the initial registers, on a fresh stack.
    WriteRegisters,
    /// Let the thread run.
    Resume,
    Done,
    Failed,
}

/// The step after `step`, given whether the kernel carried `step` out and
/// whether the thread is to run at once: a failed step ends the start-up,
/// and the thread is resumed only after its registers are written, and only
/// if asked.
pub open spec fn after_setup_step(step: ThreadSetupStep, succeeded: bool, resume: bool) -> ThreadSetupStep {
    match step {
        ThreadSetupStep::Done => ThreadSetupStep::Done,
        ThreadSetupStep::Failed => ThreadSetupStep::Failed,
        _ => if !succeeded {
            ThreadSetupStep::Failed
        } else {
            match step {
                ThreadSetupStep::Configure => ThreadSetupStep::SetSchedParams,
                ThreadSetupStep::SetSchedParams => ThreadSetupStep::ReadRegisters,
                ThreadSetupStep::ReadRegisters => ThreadSetupStep::WriteRegisters,
                ThreadSetupStep::WriteRegisters => if resume {
                    ThreadSetupStep::Resume
                } else {
                    ThreadSetupStep::Done
                },
                _ => ThreadSetupStep::Done,
            }
        },
    }
}

/// The next step of a thread's start-up.
pub fn next_setup_step(step: ThreadSetupStep, succeeded: bool, resume: bool) -> (r: ThreadSetupStep)
    ensures
        r == after_setup_step(step, succeeded, resume),
{
    match step {
        ThreadSetupStep::Done => ThreadSetupStep::Done,
        ThreadSetupStep::Failed => ThreadSetupStep::Failed,
        ThreadSetupStep::Configure => if succeeded {
            ThreadSetupStep::SetSchedParams
        } else {
            ThreadSetupStep::Failed
        },
        ThreadSetupStep::SetSchedParams => if succeeded {
            ThreadSetupStep::ReadRegisters
        } else {
            ThreadSetupStep::Failed
        },
        ThreadSetupStep::ReadRegisters => if succeeded {
            ThreadSetupStep::WriteRegisters
        } else {
            ThreadSetupStep::Failed
        },
        ThreadSetupStep::WriteRegisters => if !succeeded {
            ThreadSetupStep::Failed
        } else if resume {
            ThreadSetupStep::Resume
        } else {
            ThreadSetupStep::Done
        },
        ThreadSetupStep::Resume => if succeeded {
            ThreadSetupStep::Done
        } else {
            ThreadSetupStep::Failed
        },
    }
}

/// A start-up that never fails goes through configuration, priority,
/// reading and writing the registers, and then resumes the thread exactly
/// when asked; any failed step ends it for good.
pub proof fn lemma_setup_runs_in_order(resume: bool)
    ensures
        ({
            let s1 = after_setup_step(ThreadSetupStep::Configure, true, resume);
            let s2 = after_setup_step(s1, true, resume);
            let s3 = after_setup_step(s2, true, resume);
            let s4 = after_setup_step(s3, true, resume);
            &&& s1 == ThreadSetupStep::SetSchedParams
            &&& s2 == ThreadSetupStep::ReadRegisters
            &&& s3 == ThreadSetupStep::WriteRegisters
            &&& resume ==> s4 == ThreadSetupStep::Resume
                && after_setup_step(s4, true, resume) == ThreadSetupStep::Done
            &&& !resume ==> s4 == ThreadSetupStep::Done
        }),
        forall|step: ThreadSetupStep| #![auto]
            step != ThreadSetupStep::Done ==> after_setup_step(step, false, resume)
                == ThreadSetupStep::Failed,
        forall|ok: bool| #![auto]
            after_setup_step(ThreadSetupStep::Failed, ok, resume) == ThreadSetupStep::Failed,
{
}

} // verus!
