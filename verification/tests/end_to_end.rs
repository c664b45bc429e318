use edge_runtime::driver::{PollCycle, PollOutcome};
use edge_runtime::metrics::CPUUsageMetrics;
use edge_runtime::pool::{
    AdmissionDecision, SupervisorPolicy, WorkerPool, WorkerPoolPolicy, WorkerState,
};
use edge_runtime::errors::{ErrorKind, LimitKind, LimitTier};
use edge_runtime::supervise::{supervised_run, EngineCycle};
use edge_runtime::runtime::{DenoRuntime, WorkerContextInitOpts};
use edge_runtime::worker::{UserWorkerRuntimeOpts, WorkerRuntimeOpts};

fn spinning_user_opts() -> UserWorkerRuntimeOpts {
    UserWorkerRuntimeOpts {
        key: None,
        service_path: None,
        memory_limit_mb: 64,
        worker_timeout_ms: 10_000,
        cpu_time_soft_limit_ms: 100,
        cpu_time_hard_limit_ms: 200,
        low_memory_multiplier: 5,
        force_create: true,
        net_access_disabled: false,
        allow_remote_modules: true,
        custom_module_root: None,
    }
}

#[test]
fn test_cpu_hard_limit_bounds_overshoot() {
    // Soft limit 100 ms, hard limit 200 ms; the workload spins for about
    // 250 ms of CPU time in 60 ms polls.
    let opts = spinning_user_opts();
    let mut pool = WorkerPool::new(WorkerPoolPolicy::new(
        Some(SupervisorPolicy::PerRequest),
        Some(1),
        Some(10),
    ));
    let admitted = pool.try_admit(opts.clone(), false);
    assert!(matches!(admitted, Ok(AdmissionDecision::Provision(0))));
    pool.mark_running(0);

    let mut rt = DenoRuntime::new(
        WorkerContextInitOpts {
            service_path: String::from("./test_cases/spin"),
            no_module_cache: false,
            import_map_path: None,
            env_vars: Vec::new(),
            has_events_channel: false,
            maybe_eszip: None,
            maybe_entrypoint: None,
            maybe_module_code: None,
            conf: WorkerRuntimeOpts::UserWorker(opts),
        },
        &None,
    )
    .unwrap();

    // Each poll burns 60 ms of CPU; the flag is not raised yet. The fifth
    // poll happens after the supervisor raised termination and does almost
    // no work.
    let step: i64 = 60_000_000;
    let mut cycles = Vec::new();
    for i in 0..4i64 {
        cycles.push(PollCycle {
            termination_requested: false,
            clock_before: Some(i * step),
            poll: PollOutcome::Pending,
            clock_after: Some((i + 1) * step),
        });
    }
    cycles.push(PollCycle {
        termination_requested: true,
        clock_before: Some(4 * step),
        poll: PollOutcome::Pending,
        clock_after: Some(4 * step + 1_000_000),
    });

    let report = rt.run(&cycles, true, 1);
    // Termination turned the pending fifth poll into completion.
    assert_eq!(report.outcome, Some(Ok(())));
    assert!(rt.is_terminated);

    // The supervisor consumes the telemetry in order; the breach is
    // detected on the very cycle that crosses 200 ms.
    let hard_ns: i64 = 200_000_000;
    let mut breach_at: Option<i64> = None;
    for m in &report.metrics {
        if let CPUUsageMetrics::Leave(u) = m {
            let breach = pool.on_cpu_usage(0, *u);
            if breach == Some(ErrorKind::LimitExceeded(LimitTier::Hard, LimitKind::CpuTime)) {
                assert!(breach_at.is_none());
                breach_at = Some(u.accumulated);
                assert!(matches!(pool.workers[0].state, WorkerState::Terminating));
                // Bounded overshoot: past the ceiling by less than the one
                // poll that crossed it.
                assert!(u.accumulated >= hard_ns);
                assert!(u.accumulated < hard_ns + u.diff);
            }
        }
    }
    assert_eq!(breach_at, Some(240_000_000));
    // The recorded total stays within one cheap shutdown poll of the
    // breach.
    assert_eq!(report.accumulated_ns, 241_000_000);
    assert!(report.accumulated_ns < hard_ns + step);

    // The run has returned; the slot is reclaimed and the failure is
    // reported without affecting the pool's ability to serve.
    pool.mark_terminated(0);
    assert!(matches!(pool.workers[0].state, WorkerState::Terminated));
    assert!(matches!(
        pool.try_admit(spinning_user_opts(), false),
        Ok(AdmissionDecision::Provision(1))
    ));
}

#[test]
fn test_supervised_run_closed_loop() {
    // The same scenario through the closed loop: the supervisor itself
    // raises termination at the breach and the run ends one poll later.
    let mut pool = WorkerPool::new(WorkerPoolPolicy::new(
        Some(SupervisorPolicy::PerRequest),
        Some(1),
        Some(10),
    ));
    pool.try_admit(spinning_user_opts(), false).unwrap();
    pool.mark_running(0);
    let step: i64 = 60_000_000;
    let mut cycles = Vec::new();
    for i in 0..6i64 {
        cycles.push(EngineCycle {
            clock_before: Some(i * step),
            poll: edge_runtime::driver::PollOutcome::Pending,
            clock_after: Some((i + 1) * step),
        });
    }
    let (outcome, accumulated) = supervised_run(&mut pool, 0, &cycles, true);
    // The fourth poll crosses 200 ms; the fifth observes the flag and the
    // pending work counts as completion. The sixth never runs.
    assert_eq!(outcome, Some(Ok(())));
    assert_eq!(accumulated, 5 * step);
    assert!(matches!(pool.workers[0].state, WorkerState::Terminating));
    assert_eq!(pool.workers[0].accumulated_cpu_ns, 4 * step);
    assert!(accumulated < 200_000_000 + 2 * step);
    pool.mark_terminated(0);
}

#[test]
fn test_soft_then_hard_escalation() {
    let mut pool = WorkerPool::new(WorkerPoolPolicy::new(
        Some(SupervisorPolicy::PerRequest),
        Some(1),
        None,
    ));
    pool.try_admit(spinning_user_opts(), false).unwrap();
    pool.mark_running(0);
    // 120 ms: soft warning, graceful shutdown requested, still live.
    let soft = pool.on_cpu_usage(
        0,
        edge_runtime::metrics::CPUUsage {
            accumulated: 120_000_000,
            diff: 120_000_000,
        },
    );
    assert_eq!(soft, Some(ErrorKind::LimitExceeded(LimitTier::Soft, LimitKind::CpuTime)));
    assert!(matches!(pool.workers[0].state, WorkerState::SoftLimitWarned));
    // 210 ms: hard breach, forced termination.
    let hard = pool.on_cpu_usage(
        0,
        edge_runtime::metrics::CPUUsage {
            accumulated: 210_000_000,
            diff: 90_000_000,
        },
    );
    assert_eq!(hard, Some(ErrorKind::LimitExceeded(LimitTier::Hard, LimitKind::CpuTime)));
    assert!(matches!(pool.workers[0].state, WorkerState::Terminating));
}
