//! Bootstrap and driving of one isolated script execution context.
//!
//! [`DenoRuntime::new`] makes every bootstrap decision for one worker from
//! plain inputs: the environment it will see, its capability set, the
//! memory ceiling of its allocator, its stdio policy, where its code bundle
//! comes from and which certificate stores its TLS stack loads. The engine
//! work those decisions configure — creating the isolate, loading the
//! bundle, binding host APIs — happens outside this library.
//!
//! [`DenoRuntime::run`] drives the context's event loop over the driver's
//! per-cycle observations and raises the termination-complete flag when
//! the run ends, whatever its outcome.

use vstd::prelude::*;
use crate::cert::{resolve_ca_stores, spec_selector_resolves, CaStore};
use crate::driver::{
    clocks_monotone,
    drive_event_loop,
    spec_accumulated,
    spec_executed,
    spec_metrics,
    spec_run_outcome,
    PollCycle,
    RunReport,
};
use crate::env::{visible_env, worker_env_vars};
use crate::permissions::{permissions_for, spec_net_access_disabled, Permissions};
use crate::units::{mib_to_bytes, BYTES_PER_MIB};
use crate::worker::WorkerRuntimeOpts;

verus! {

/// Module-cache strategy for bundling a worker's code.
#[derive(Clone, Copy, Debug, PartialEq, Eq, Structural)]
pub enum CacheSetting {
    /// Use cached modules.
    Use,
    /// Ignore the cache and fetch everything anew.
    ReloadAll,
}

/// Where a worker's standard streams go.
#[derive(Clone, Copy, Debug, PartialEq, Eq, Structural)]
pub enum StdioPolicy {
    /// Inherit the host's streams.
    Inherit,
    /// Discard everything: `user`-role workers write to the null device.
    DiscardToNull,
}

/// Where the worker's code bundle comes from.
#[derive(Clone, Copy, Debug, PartialEq, Eq, Structural)]
pub enum BundleSource {
    /// A precompiled bundle was supplied.
    Provided,
    /// The bundler generates one, with this cache strategy; when
    /// `only_module_code` is set, from the inline module code alone.
    Generate { cache: CacheSetting, only_module_code: bool },
}

/// Which module the context evaluates first.
#[derive(Clone, Debug)]
pub enum MainModuleSource {
    /// An explicitly named entrypoint.
    Entrypoint(String),
    /// The service directory's index module.
    ServiceIndex,
}

/// Plain-valued inputs for creating one worker's execution context.
pub struct WorkerContextInitOpts {
    /// The service source directory this worker executes.
    pub service_path: String,
    /// Bypass the module cache when bundling.
    pub no_module_cache: bool,
    /// Import map to apply when bundling.
    pub import_map_path: Option<String>,
    /// Environment entries the creator hands this worker.
    pub env_vars: Vec<(String, String)>,
    /// Whether a lifecycle-event channel was supplied; an `events`-role
    /// worker cannot exist without one.
    pub has_events_channel: bool,
    /// A precompiled code bundle, when one was supplied.
    pub maybe_eszip: Option<Vec<u8>>,
    /// An explicit entrypoint module, when one was named.
    pub maybe_entrypoint: Option<String>,
    /// Inline module code, when supplied instead of a source tree.
    pub maybe_module_code: Option<String>,
    /// The worker's role configuration.
    pub conf: WorkerRuntimeOpts,
}

/// One worker's bootstrapped execution context: the decisions that
/// configure the engine, plus the run's accounting flags.
pub struct DenoRuntime {
    /// The environment entries provided at creation, kept as handed in.
    pub env_vars: Vec<(String, String)>,
    /// The environment actually exposed to the script, after the role's
    /// visibility rule and the supervisor's identity injection.
    pub exposed_env_vars: Vec<(String, String)>,
    /// The worker's role configuration.
    pub conf: WorkerRuntimeOpts,
    /// Raised by the supervisor to stop the run at the next poll boundary.
    pub is_termination_requested: bool,
    /// Raised once the run has returned.
    pub is_terminated: bool,
    /// The worker's capability set.
    pub permissions: Permissions,
    /// Whether the bundler may fetch remote modules for this worker.
    pub allow_remote_modules: bool,
    /// Heap bounds of the context's limiting allocator, for `user`-role
    /// workers: initial size and the memory ceiling in bytes.
    pub heap_limits: Option<(u64, u64)>,
    /// Where the worker's standard streams go.
    pub stdio: StdioPolicy,
    /// Where the worker's code bundle comes from.
    pub bundle: BundleSource,
    /// Which module the context evaluates first.
    pub main_module: MainModuleSource,
    /// The certificate stores the worker's TLS stack loads.
    pub ca_stores: Vec<CaStore>,
}

impl DenoRuntime {
    /// Makes every bootstrap decision for one worker.
    ///
    /// The worker's environment follows the role's visibility rule; a
    /// `user`-role worker additionally gets the limiting allocator sized
    /// to its memory ceiling, null stdio and its configured network
    /// permission. The bundle is the supplied one, or is generated under
    /// the requested cache strategy — from the inline module code alone
    /// when neither a bundle nor an entrypoint accompanies it. Creation
    /// fails exactly when the certificate-store selector names an
    /// unrecognized store, and returns that name.
    pub fn new(opts: WorkerContextInitOpts, ca_store_selector: &Option<String>) -> (r: Result<
        DenoRuntime,
        String,
    >)
        requires
            opts.conf is EventsWorker ==> opts.has_events_channel,
            opts.conf matches WorkerRuntimeOpts::UserWorker(u) ==> u.memory_limit_mb
                * BYTES_PER_MIB <= u64::MAX,
        ensures
            match r {
                Ok(rt) => {
                    &&& rt.conf == opts.conf
                    &&& rt.env_vars == opts.env_vars
                    &&& rt.exposed_env_vars.deep_view() == visible_env(
                        opts.conf,
                        Seq::empty(),
                        opts.env_vars.deep_view(),
                    )
                    &&& !rt.is_termination_requested
                    &&& !rt.is_terminated
                    &&& rt.permissions.net_access_disabled == spec_net_access_disabled(opts.conf)
                    &&& rt.allow_remote_modules == match opts.conf {
                        WorkerRuntimeOpts::UserWorker(u) => u.allow_remote_modules,
                        _ => true,
                    }
                    &&& rt.heap_limits == match opts.conf {
                        WorkerRuntimeOpts::UserWorker(u) => Some(
                            (0u64, (u.memory_limit_mb * BYTES_PER_MIB) as u64),
                        ),
                        _ => None::<(u64, u64)>,
                    }
                    &&& rt.stdio == if opts.conf is UserWorker {
                        StdioPolicy::DiscardToNull
                    } else {
                        StdioPolicy::Inherit
                    }
                    &&& rt.bundle == if opts.maybe_eszip is Some {
                        BundleSource::Provided
                    } else {
                        BundleSource::Generate {
                            cache: if opts.no_module_cache {
                                CacheSetting::ReloadAll
                            } else {
                                CacheSetting::Use
                            },
                            only_module_code: opts.maybe_module_code is Some
                                && opts.maybe_eszip is None && opts.maybe_entrypoint is None,
                        }
                    }
                    &&& match opts.maybe_entrypoint {
                        Some(e) => (rt.main_module matches MainModuleSource::Entrypoint(m) && m@
                            == e@),
                        None => rt.main_module is ServiceIndex,
                    }
                    &&& spec_selector_resolves(ca_store_selector.deep_view(), Ok(rt.ca_stores@))
                },
                Err(bad) => spec_selector_resolves(ca_store_selector.deep_view(), Err(bad@)),
            },
    {
        let ca_stores = match resolve_ca_stores(ca_store_selector) {
            Ok(stores) => stores,
            Err(bad) => {
                return Err(bad);
            },
        };
        let empty_process_env: Vec<(String, String)> = Vec::new();
        let exposed_env_vars = worker_env_vars(&opts.conf, &empty_process_env, &opts.env_vars);
        let permissions = permissions_for(&opts.conf);
        let (allow_remote_modules, heap_limits, stdio) = match &opts.conf {
            WorkerRuntimeOpts::UserWorker(u) => (
                u.allow_remote_modules,
                Some((0u64, mib_to_bytes(u.memory_limit_mb))),
                StdioPolicy::DiscardToNull,
            ),
            _ => (true, None, StdioPolicy::Inherit),
        };
        let bundle = if opts.maybe_eszip.is_some() {
            BundleSource::Provided
        } else {
            BundleSource::Generate {
                cache: if opts.no_module_cache {
                    CacheSetting::ReloadAll
                } else {
                    CacheSetting::Use
                },
                only_module_code: opts.maybe_module_code.is_some() && opts.maybe_eszip.is_none()
                    && opts.maybe_entrypoint.is_none(),
            }
        };
        let main_module = match opts.maybe_entrypoint {
            Some(e) => MainModuleSource::Entrypoint(e),
            None => MainModuleSource::ServiceIndex,
        };
        Ok(
            DenoRuntime {
                env_vars: opts.env_vars,
                exposed_env_vars,
                conf: opts.conf,
                is_termination_requested: false,
                is_terminated: false,
                permissions,
                allow_remote_modules,
                heap_limits,
                stdio,
                bundle,
                main_module,
                ca_stores,
            },
        )
    }

    /// Raises the termination flag: the driver treats pending work as
    /// completion at its next poll boundary instead of blocking.
    pub fn request_termination(&mut self)
        ensures
            *final(self) == (DenoRuntime { is_termination_requested: true, ..*old(self) }),
    {
        self.is_termination_requested = true;
    }

    /// Drives this context's event loop over the given per-cycle
    /// observations, attributing the measured CPU time to this worker.
    ///
    /// `mod_ok` is the outcome the engine reported for the entry module's
    /// evaluation. The report carries the run's result — `None` when the
    /// observations ran out with work still pending — the total CPU time,
    /// and the telemetry emitted; the worker is marked terminated the
    /// moment the run ends, whatever its outcome.
    pub fn run(&mut self, cycles: &Vec<PollCycle>, mod_ok: bool, thread_id: u64) -> (report:
        RunReport)
        requires
            clocks_monotone(cycles@),
            spec_accumulated(cycles@, cycles@.len() as int) <= i64::MAX,
        ensures
            report.outcome == spec_run_outcome(cycles@, mod_ok),
            report.accumulated_ns == spec_accumulated(cycles@, spec_executed(cycles@)),
            report.metrics@ == spec_metrics(cycles@, spec_executed(cycles@), thread_id),
            final(self).is_terminated == (report.outcome is Some || old(self).is_terminated),
            final(self).env_vars == old(self).env_vars,
            final(self).exposed_env_vars == old(self).exposed_env_vars,
            final(self).conf == old(self).conf,
            final(self).is_termination_requested == old(self).is_termination_requested,
            final(self).permissions == old(self).permissions,
            final(self).heap_limits == old(self).heap_limits,
    {
        let report = drive_event_loop(cycles, mod_ok, thread_id);
        if report.outcome.is_some() {
            self.is_terminated = true;
        }
        report
    }
}

} // verus!
