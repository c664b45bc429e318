use edge_runtime::errors::{ErrorKind, LimitKind, LimitTier};
use edge_runtime::metrics::CPUUsage;
use edge_runtime::pool::{
    effective_memory_limit_bytes, AdmissionDecision, SupervisorPolicy, WorkerPool,
    WorkerPoolPolicy, WorkerState,
};
use edge_runtime::worker::UserWorkerRuntimeOpts;

fn user_opts(key: Option<&str>, force_create: bool) -> UserWorkerRuntimeOpts {
    UserWorkerRuntimeOpts {
        key: key.map(String::from),
        service_path: None,
        memory_limit_mb: 64,
        worker_timeout_ms: 1000,
        cpu_time_soft_limit_ms: 100,
        cpu_time_hard_limit_ms: 200,
        low_memory_multiplier: 5,
        force_create,
        net_access_disabled: false,
        allow_remote_modules: true,
        custom_module_root: None,
    }
}

fn pool_with(policy: SupervisorPolicy, max: Option<usize>) -> WorkerPool {
    WorkerPool::new(WorkerPoolPolicy::new(Some(policy), max, Some(10)))
}

#[test]
fn test_oneshot_forces_parallelism_one() {
    let p = WorkerPoolPolicy::new(Some(SupervisorPolicy::Oneshot), Some(5), Some(10));
    assert_eq!(p.max_parallelism, Some(1));
    let q = WorkerPoolPolicy::new(Some(SupervisorPolicy::PerWorker), Some(5), None);
    assert_eq!(q.max_parallelism, Some(5));
    // No policy given: the supervisor defaults to one worker per key.
    let d = WorkerPoolPolicy::new(None, None, None);
    assert!(matches!(d.supervisor_policy, SupervisorPolicy::PerWorker));
}

#[test]
fn test_oneshot_never_creates_second_worker() {
    let mut pool = pool_with(SupervisorPolicy::Oneshot, None);
    let first = pool.try_admit(user_opts(Some("a"), false), false);
    assert!(matches!(first, Ok(AdmissionDecision::Provision(0))));
    assert_eq!(pool.live_count(), 1);
    // A second admission while one worker is live queues...
    let second = pool.try_admit(user_opts(Some("b"), false), false);
    assert!(matches!(second, Ok(AdmissionDecision::Wait)));
    assert_eq!(pool.live_count(), 1);
    // ...and fails with PoolSaturated once its wait timed out, with no
    // worker state changed either way.
    let timed_out = pool.try_admit(user_opts(Some("b"), false), true);
    assert_eq!(timed_out, Err(ErrorKind::PoolSaturated));
    assert_eq!(pool.live_count(), 1);
}

#[test]
fn test_per_worker_reuses_by_key() {
    let mut pool = pool_with(SupervisorPolicy::PerWorker, Some(1));
    let first = pool.try_admit(user_opts(Some("tenant-1"), false), false);
    assert!(matches!(first, Ok(AdmissionDecision::Provision(0))));
    pool.mark_running(0);
    // The same key reuses the live worker even at the ceiling.
    let again = pool.try_admit(user_opts(Some("tenant-1"), false), false);
    assert!(matches!(again, Ok(AdmissionDecision::Reuse(0))));
    assert_eq!(pool.live_count(), 1);
    // A different key needs a slot and has none.
    let other = pool.try_admit(user_opts(Some("tenant-2"), false), false);
    assert!(matches!(other, Ok(AdmissionDecision::Wait)));
}

#[test]
fn test_force_create_skips_reuse() {
    let mut pool = pool_with(SupervisorPolicy::PerWorker, Some(2));
    assert!(matches!(
        pool.try_admit(user_opts(Some("k"), false), false),
        Ok(AdmissionDecision::Provision(0))
    ));
    let forced = pool.try_admit(user_opts(Some("k"), true), false);
    assert!(matches!(forced, Ok(AdmissionDecision::Provision(1))));
    assert_eq!(pool.live_count(), 2);
}

#[test]
fn test_per_request_fresh_worker_each_time() {
    let mut pool = pool_with(SupervisorPolicy::PerRequest, Some(2));
    assert!(matches!(
        pool.try_admit(user_opts(Some("k"), false), false),
        Ok(AdmissionDecision::Provision(0))
    ));
    assert!(matches!(
        pool.try_admit(user_opts(Some("k"), false), false),
        Ok(AdmissionDecision::Provision(1))
    ));
    assert!(matches!(
        pool.try_admit(user_opts(Some("k"), false), false),
        Ok(AdmissionDecision::Wait)
    ));
    // Reclaiming a slot frees admission again.
    pool.mark_running(0);
    pool.request_termination(0);
    pool.mark_terminated(0);
    assert_eq!(pool.live_count(), 1);
    assert!(matches!(
        pool.try_admit(user_opts(Some("k"), false), false),
        Ok(AdmissionDecision::Provision(2))
    ));
}

#[test]
fn test_hard_limit_forces_termination() {
    let mut pool = pool_with(SupervisorPolicy::PerRequest, Some(1));
    pool.try_admit(user_opts(None, false), false).unwrap();
    pool.mark_running(0);
    // 250 ms accumulated against a 200 ms hard ceiling.
    let breach = pool.on_cpu_usage(
        0,
        CPUUsage {
            accumulated: 250_000_000,
            diff: 250_000_000,
        },
    );
    assert_eq!(breach, Some(ErrorKind::LimitExceeded(LimitTier::Hard, LimitKind::CpuTime)));
    assert!(matches!(pool.workers[0].state, WorkerState::Terminating));
    // A stale metric of the terminating worker changes nothing.
    let stale = pool.on_cpu_usage(
        0,
        CPUUsage {
            accumulated: 260_000_000,
            diff: 10_000_000,
        },
    );
    assert_eq!(stale, None);
    assert!(matches!(pool.workers[0].state, WorkerState::Terminating));
    assert_eq!(pool.workers[0].accumulated_cpu_ns, 250_000_000);
    pool.mark_terminated(0);
    assert!(matches!(pool.workers[0].state, WorkerState::Terminated));
}

#[test]
fn test_soft_limit_warns_without_killing() {
    let mut pool = pool_with(SupervisorPolicy::PerRequest, Some(1));
    pool.try_admit(user_opts(None, false), false).unwrap();
    pool.mark_running(0);
    // 150 ms accumulated: past the 100 ms soft ceiling, under the hard one.
    let breach = pool.on_cpu_usage(
        0,
        CPUUsage {
            accumulated: 150_000_000,
            diff: 150_000_000,
        },
    );
    assert_eq!(breach, Some(ErrorKind::LimitExceeded(LimitTier::Soft, LimitKind::CpuTime)));
    assert!(matches!(pool.workers[0].state, WorkerState::SoftLimitWarned));
    // The warning fires once; the worker keeps running.
    let again = pool.on_cpu_usage(
        0,
        CPUUsage {
            accumulated: 160_000_000,
            diff: 10_000_000,
        },
    );
    assert_eq!(again, None);
    assert!(matches!(pool.workers[0].state, WorkerState::SoftLimitWarned));
}

#[test]
fn test_wall_clock_timeout_terminates() {
    let mut pool = pool_with(SupervisorPolicy::PerRequest, Some(1));
    pool.try_admit(user_opts(None, false), false).unwrap();
    pool.mark_running(0);
    assert_eq!(pool.check_wall_clock(0, 999), None);
    assert!(matches!(pool.workers[0].state, WorkerState::Running));
    let breach = pool.check_wall_clock(0, 1000);
    assert_eq!(
        breach,
        Some(ErrorKind::LimitExceeded(LimitTier::Hard, LimitKind::WallClock))
    );
    assert!(matches!(pool.workers[0].state, WorkerState::Terminating));
}

#[test]
fn test_low_memory_multiplier_scales_ceiling() {
    let opts = user_opts(None, false);
    assert_eq!(effective_memory_limit_bytes(&opts, false), 64 * 1048576);
    assert_eq!(effective_memory_limit_bytes(&opts, true), 64 * 1048576 / 5);
}
