use objalloc::{
    many_threads_count, next_setup_step, ThreadSetupStep, thread_registers, ThreadRegisters, MANY_THREADS_STACK_BYTES, MANY_THREADS_TLS_OFFSET,
    SINGLE_THREAD_STACK_BYTES, SINGLE_THREAD_TLS_OFFSET,
};

#[test]
fn registers_of_a_batch_thread() {
    let base: u64 = 0x8010_0000;
    let top = base + MANY_THREADS_STACK_BYTES as u64;
    let r = thread_registers(0x4000_1234, top, MANY_THREADS_TLS_OFFSET, 0x9000, 7, 0x8020_0000);
    assert_eq!(
        r,
        ThreadRegisters {
            pc: 0x4000_1234,
            sp: 0x8012_0000,
            tp: 0x8012_0000,
            gp: 0x9000,
            s0: 0,
            s1: 0,
            a0: 7,
            a1: 0x8020_0000,
        }
    );
}

#[test]
fn tls_pointer_is_rounded_down_to_a_page() {
    let top: u64 = 0x12_3457 + SINGLE_THREAD_TLS_OFFSET;
    let r = thread_registers(1, top, SINGLE_THREAD_TLS_OFFSET, 2, 3, 4);
    assert_eq!(r.tp, 0x12_3000);
    assert_eq!(r.sp, 0x12_3000);
    assert_eq!(r.tp % 4096, 0);
    assert_eq!(r.sp % 16, 0);
}

#[test]
fn tls_pointer_within_the_stack() {
    let base: u64 = 0x7000_0008;
    let top = base + SINGLE_THREAD_STACK_BYTES as u64;
    let r = thread_registers(0, top, SINGLE_THREAD_TLS_OFFSET, 0, 0, 0);
    assert!(r.tp <= top - SINGLE_THREAD_TLS_OFFSET);
    assert!(top - SINGLE_THREAD_TLS_OFFSET < r.tp + 4096);
    assert!(r.sp > base);
}

#[test]
fn many_threads_count_checks_the_arguments() {
    assert_eq!(many_threads_count(3, 8), Some(8));
    assert_eq!(many_threads_count(0, 1), Some(1));
    assert_eq!(many_threads_count(3, 7), None);
    assert_eq!(many_threads_count(2, 0), None);
}

fn run_setup(failing: Option<ThreadSetupStep>, resume: bool) -> Vec<ThreadSetupStep> {
    let mut seen = Vec::new();
    let mut step = ThreadSetupStep::Configure;
    while step != ThreadSetupStep::Done && step != ThreadSetupStep::Failed {
        seen.push(step);
        step = next_setup_step(step, failing != Some(step), resume);
    }
    seen.push(step);
    seen
}

#[test]
fn setup_resumes_only_when_asked() {
    assert_eq!(
        run_setup(None, true),
        vec![ThreadSetupStep::Configure, ThreadSetupStep::SetSchedParams, ThreadSetupStep::ReadRegisters, ThreadSetupStep::WriteRegisters, ThreadSetupStep::Resume, ThreadSetupStep::Done]
    );
    assert_eq!(
        run_setup(None, false),
        vec![ThreadSetupStep::Configure, ThreadSetupStep::SetSchedParams, ThreadSetupStep::ReadRegisters, ThreadSetupStep::WriteRegisters, ThreadSetupStep::Done]
    );
}

#[test]
fn setup_stops_at_the_first_failure() {
    assert_eq!(run_setup(Some(ThreadSetupStep::SetSchedParams), true), vec![ThreadSetupStep::Configure, ThreadSetupStep::SetSchedParams, ThreadSetupStep::Failed]);
    assert_eq!(
        run_setup(Some(ThreadSetupStep::Resume), true),
        vec![ThreadSetupStep::Configure, ThreadSetupStep::SetSchedParams, ThreadSetupStep::ReadRegisters, ThreadSetupStep::WriteRegisters, ThreadSetupStep::Resume, ThreadSetupStep::Failed]
    );
    assert_eq!(next_setup_step(ThreadSetupStep::Failed, true, true), ThreadSetupStep::Failed);
    assert_eq!(next_setup_step(ThreadSetupStep::Done, false, true), ThreadSetupStep::Done);
}
