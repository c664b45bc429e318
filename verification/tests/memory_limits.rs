use edge_runtime::driver::{PollCycle, PollOutcome};
use edge_runtime::errors::ErrorKind;
use edge_runtime::memory::{allocation_failed_message, ArrayBufferAllocator};
use edge_runtime::runtime::{DenoRuntime, WorkerContextInitOpts};
use edge_runtime::units::mib_to_bytes;
use edge_runtime::worker::{UserWorkerRuntimeOpts, WorkerRuntimeOpts};

fn create_basic_user_runtime(memory_limit: u64, worker_timeout_ms: u64) -> DenoRuntime {
    DenoRuntime::new(
        WorkerContextInitOpts {
            service_path: String::from("./test_cases/array_buffers"),
            no_module_cache: false,
            import_map_path: None,
            env_vars: Vec::new(),
            has_events_channel: false,
            maybe_eszip: None,
            maybe_entrypoint: None,
            maybe_module_code: None,
            conf: WorkerRuntimeOpts::UserWorker(UserWorkerRuntimeOpts {
                key: None,
                service_path: None,
                memory_limit_mb: memory_limit,
                worker_timeout_ms,
                cpu_time_soft_limit_ms: 100,
                cpu_time_hard_limit_ms: 200,
                low_memory_multiplier: 5,
                force_create: true,
                net_access_disabled: false,
                allow_remote_modules: true,
                custom_module_root: None,
            }),
        },
        &None,
    )
    .unwrap()
}

fn allocator_of(rt: &DenoRuntime) -> ArrayBufferAllocator {
    let (initial, ceiling) = rt.heap_limits.expect("user workers have heap limits");
    assert_eq!(initial, 0);
    ArrayBufferAllocator::new(ceiling)
}

#[test]
fn test_array_buffer_allocation_below_limit() {
    // A 20 MiB worker allocating a 10 MiB buffer: the allocation is
    // granted and the run completes.
    let mut rt = create_basic_user_runtime(20, 1000);
    let mut allocator = allocator_of(&rt);
    assert!(allocator.try_allocate(mib_to_bytes(10)));
    let cycles = vec![PollCycle {
        termination_requested: false,
        clock_before: Some(0),
        poll: PollOutcome::ReadyOk,
        clock_after: Some(1_000_000),
    }];
    let report = rt.run(&cycles, true, 1);
    assert!(matches!(report.outcome, Some(Ok(()))), "expected no errors");
}

#[test]
fn test_array_buffer_allocation_above_limit() {
    // A 15 MiB worker allocating a 20 MiB buffer: the allocation fails as
    // a script-level range error and the run fails, not the process.
    let mut rt = create_basic_user_runtime(15, 1000);
    let mut allocator = allocator_of(&rt);
    assert!(!allocator.try_allocate(mib_to_bytes(20)));
    assert_eq!(
        allocation_failed_message(),
        "RangeError: Array buffer allocation failed"
    );
    // The context reports the fault through its event loop.
    let cycles = vec![PollCycle {
        termination_requested: false,
        clock_before: Some(0),
        poll: PollOutcome::ReadyErr,
        clock_after: Some(1_000_000),
    }];
    let report = rt.run(&cycles, true, 1);
    match report.outcome {
        Some(Err(e)) => assert_eq!(e, ErrorKind::EngineFault),
        _ => panic!("Invalid Result"),
    }
    // Other workers are unaffected: a fresh context with room succeeds.
    let mut other = create_basic_user_runtime(20, 1000);
    let mut other_allocator = allocator_of(&other);
    assert!(other_allocator.try_allocate(mib_to_bytes(10)));
    let ok_cycles = vec![PollCycle {
        termination_requested: false,
        clock_before: Some(0),
        poll: PollOutcome::ReadyOk,
        clock_after: Some(500_000),
    }];
    assert!(matches!(
        other.run(&ok_cycles, true, 2).outcome,
        Some(Ok(()))
    ));
}

#[test]
fn test_allocator_accounting() {
    let mut a = ArrayBufferAllocator::new(mib_to_bytes(1));
    assert!(a.try_allocate(524_288));
    assert!(a.try_allocate(524_288));
    // The ceiling is exact: one more byte is refused, and nothing changes.
    assert!(!a.try_allocate(1));
    assert_eq!(a.allocated_bytes, 1_048_576);
    a.release(524_288);
    assert!(a.try_allocate(524_288));
    assert!(!a.try_allocate(1));
}
