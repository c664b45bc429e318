use edge_runtime::driver::{PollCycle, PollOutcome};
use edge_runtime::errors::{DenoRuntimeError, ErrorKind};
use edge_runtime::metrics::CPUUsageMetrics;
use edge_runtime::runtime::{DenoRuntime, WorkerContextInitOpts};
use edge_runtime::worker::WorkerRuntimeOpts;

fn cycle(term: bool, before: i64, after: i64, poll: PollOutcome) -> PollCycle {
    PollCycle {
        termination_requested: term,
        clock_before: Some(before),
        poll,
        clock_after: Some(after),
    }
}

fn main_runtime() -> DenoRuntime {
    DenoRuntime::new(
        WorkerContextInitOpts {
            service_path: String::from("./test_cases/main"),
            no_module_cache: false,
            import_map_path: None,
            env_vars: Vec::new(),
            has_events_channel: false,
            maybe_eszip: None,
            maybe_entrypoint: None,
            maybe_module_code: None,
            conf: WorkerRuntimeOpts::MainWorker,
        },
        &None,
    )
    .expect("main runtime creation should succeed")
}

#[test]
fn test_cpu_accounting_sums_diffs() {
    let mut rt = main_runtime();
    let cycles = vec![
        cycle(false, 0, 5, PollOutcome::Pending),
        cycle(false, 5, 9, PollOutcome::Pending),
        cycle(false, 9, 20, PollOutcome::ReadyOk),
    ];
    let report = rt.run(&cycles, true, 7);
    assert_eq!(report.outcome, Some(Ok(())));
    assert_eq!(report.accumulated_ns, 20);
    assert!(rt.is_terminated);
    // Enter/Leave alternate; each Leave's accumulated is the sum of all
    // diffs so far, so the accumulated values are non-decreasing.
    let mut sum: i64 = 0;
    let mut last_accumulated: i64 = 0;
    let mut leaves = 0;
    for m in &report.metrics {
        match m {
            CPUUsageMetrics::Enter(tid) => assert_eq!(*tid, 7),
            CPUUsageMetrics::Leave(u) => {
                assert!(u.diff >= 0);
                sum += u.diff;
                assert_eq!(u.accumulated, sum);
                assert!(u.accumulated >= last_accumulated);
                last_accumulated = u.accumulated;
                leaves += 1;
            }
        }
    }
    assert_eq!(leaves, 3);
    assert_eq!(sum, 20);
}

#[test]
fn test_clock_failure_is_fatal() {
    let mut rt = main_runtime();
    let cycles = vec![PollCycle {
        termination_requested: false,
        clock_before: None,
        poll: PollOutcome::Pending,
        clock_after: None,
    }];
    let report = rt.run(&cycles, true, 1);
    assert_eq!(report.outcome, Some(Err(ErrorKind::ClockError)));
    assert_eq!(report.accumulated_ns, 0);
    assert_eq!(report.metrics.len(), 1);
    assert!(matches!(report.metrics[0], CPUUsageMetrics::Enter(1)));
    assert!(rt.is_terminated);
}

#[test]
fn test_engine_fault_surfaces() {
    let mut rt = main_runtime();
    let cycles = vec![
        cycle(false, 0, 3, PollOutcome::Pending),
        cycle(false, 3, 10, PollOutcome::ReadyErr),
    ];
    let report = rt.run(&cycles, true, 1);
    assert_eq!(report.outcome, Some(Err(ErrorKind::EngineFault)));
    // The faulting cycle's cost is still attributed to the worker.
    assert_eq!(report.accumulated_ns, 10);
    assert!(rt.is_terminated);
}

#[test]
fn test_module_evaluation_failure() {
    let mut rt = main_runtime();
    let cycles = vec![cycle(false, 0, 2, PollOutcome::ReadyOk)];
    let report = rt.run(&cycles, false, 1);
    assert_eq!(report.outcome, Some(Err(ErrorKind::EngineFault)));
}

#[test]
fn test_termination_unblocks_pending_poll() {
    let mut rt = main_runtime();
    assert!(!rt.is_termination_requested);
    rt.request_termination();
    assert!(rt.is_termination_requested);
    let cycles = vec![
        cycle(false, 0, 4, PollOutcome::Pending),
        cycle(true, 4, 6, PollOutcome::Pending),
    ];
    let report = rt.run(&cycles, true, 1);
    // Pending work under a raised termination flag counts as completion.
    assert_eq!(report.outcome, Some(Ok(())));
    assert_eq!(report.accumulated_ns, 6);
    assert!(rt.is_terminated);
}

#[test]
fn test_runtime_error_compares_by_message() {
    let a = DenoRuntimeError(String::from("TypeError: x is not a function"));
    let b = DenoRuntimeError(String::from("TypeError: x is not a function"));
    let c = DenoRuntimeError(String::from("RangeError: out of bounds"));
    assert_eq!(a, b);
    assert_ne!(a, c);
    assert_eq!(a.message(), "TypeError: x is not a function");
    assert_eq!(a.describe(), "[Js Error] TypeError: x is not a function");
}

#[test]
fn test_exhausted_observations_keep_running() {
    let mut rt = main_runtime();
    let cycles = vec![
        cycle(false, 0, 4, PollOutcome::Pending),
        cycle(false, 4, 6, PollOutcome::Pending),
    ];
    let report = rt.run(&cycles, true, 1);
    assert_eq!(report.outcome, None);
    assert_eq!(report.accumulated_ns, 6);
    assert!(!rt.is_terminated);
}
