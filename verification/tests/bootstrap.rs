use edge_runtime::cert::CaStore;
use edge_runtime::env::worker_env_vars;
use edge_runtime::permissions::{permissions_for, subprocess_denied_message};
use edge_runtime::runtime::{
    BundleSource, CacheSetting, DenoRuntime, MainModuleSource, StdioPolicy, WorkerContextInitOpts,
};
use edge_runtime::worker::{UserWorkerRuntimeOpts, WorkerRuntimeOpts};

fn basic_user_opts(memory_limit_mb: u64, worker_timeout_ms: u64) -> UserWorkerRuntimeOpts {
    UserWorkerRuntimeOpts {
        key: None,
        service_path: None,
        memory_limit_mb,
        worker_timeout_ms,
        cpu_time_soft_limit_ms: 100,
        cpu_time_hard_limit_ms: 200,
        low_memory_multiplier: 5,
        force_create: true,
        net_access_disabled: false,
        allow_remote_modules: true,
        custom_module_root: None,
    }
}

fn init_opts(env_vars: Vec<(String, String)>, conf: WorkerRuntimeOpts) -> WorkerContextInitOpts {
    WorkerContextInitOpts {
        service_path: String::from("./test_cases/main"),
        no_module_cache: false,
        import_map_path: None,
        env_vars,
        has_events_channel: false,
        maybe_eszip: None,
        maybe_entrypoint: None,
        maybe_module_code: None,
        conf,
    }
}

#[test]
fn test_main_runtime_creation() {
    let rt = DenoRuntime::new(init_opts(Vec::new(), WorkerRuntimeOpts::MainWorker), &None)
        .expect("It should not panic");
    // A main-role worker keeps the privileged host surface: inherited
    // stdio, no allocator ceiling, network access.
    assert_eq!(rt.stdio, StdioPolicy::Inherit);
    assert_eq!(rt.heap_limits, None);
    assert!(rt.permissions.can_access_net());
    assert!(!rt.is_termination_requested);
    assert!(!rt.is_terminated);
}

#[test]
fn test_user_runtime_creation() {
    let rt = DenoRuntime::new(
        init_opts(
            Vec::new(),
            WorkerRuntimeOpts::UserWorker(basic_user_opts(20, 1000)),
        ),
        &None,
    )
    .expect("It should not panic");
    // A user-role worker is boxed in: null stdio and a 20 MiB allocator
    // ceiling.
    assert_eq!(rt.stdio, StdioPolicy::DiscardToNull);
    assert_eq!(rt.heap_limits, Some((0, 20 * 1048576)));
}

#[test]
fn test_os_env_vars() {
    let process_like = vec![(String::from("Supa_Test"), String::from("Supa_Value"))];
    let main_rt = DenoRuntime::new(
        init_opts(process_like.clone(), WorkerRuntimeOpts::MainWorker),
        &None,
    )
    .unwrap();
    let user_rt = DenoRuntime::new(
        init_opts(
            Vec::new(),
            WorkerRuntimeOpts::UserWorker(basic_user_opts(64, 1000)),
        ),
        &None,
    )
    .unwrap();
    // The main-role worker sees the injected variables; the user-role
    // worker was given none and sees none.
    assert!(!main_rt.env_vars.is_empty());
    assert!(user_rt.env_vars.is_empty());
    assert!(main_rt
        .exposed_env_vars
        .iter()
        .any(|(k, v)| k == "Supa_Test" && v == "Supa_Value"));
    assert!(user_rt
        .exposed_env_vars
        .iter()
        .all(|(k, _)| k == "SB_EXECUTION_ID"));
}

#[test]
fn test_user_env_is_allow_list_plus_identity() {
    let process_env = vec![(String::from("HOME"), String::from("/root"))];
    let provided = vec![(String::from("ALLOWED"), String::from("yes"))];
    let mut opts = basic_user_opts(64, 1000);
    opts.key = Some(String::from("exec-key-1"));
    let conf = WorkerRuntimeOpts::UserWorker(opts);
    let env = worker_env_vars(&conf, &process_env, &provided);
    assert_eq!(
        env,
        vec![
            (String::from("ALLOWED"), String::from("yes")),
            (String::from("SB_EXECUTION_ID"), String::from("exec-key-1")),
        ]
    );
    // Nothing of the process environment leaks into a user-role worker.
    assert!(env.iter().all(|(k, _)| k != "HOME"));
    // A main-role worker sees the pass-through set first.
    let main_env = worker_env_vars(&WorkerRuntimeOpts::MainWorker, &process_env, &provided);
    assert_eq!(main_env[0], (String::from("HOME"), String::from("/root")));
    assert_eq!(main_env.len(), 2);
}

#[test]
fn test_net_access_by_role() {
    let mut opts = basic_user_opts(64, 1000);
    opts.net_access_disabled = true;
    let restricted = permissions_for(&WorkerRuntimeOpts::UserWorker(opts));
    assert!(!restricted.can_access_net());
    let open = permissions_for(&WorkerRuntimeOpts::UserWorker(basic_user_opts(64, 1000)));
    assert!(open.can_access_net());
    let main = permissions_for(&WorkerRuntimeOpts::MainWorker);
    assert!(main.can_access_net());
}

#[test]
fn test_subprocess_spawning_denied() {
    let p = permissions_for(&WorkerRuntimeOpts::MainWorker);
    assert!(!p.can_spawn_subprocess());
    assert_eq!(
        subprocess_denied_message(),
        "Spawning subprocesses is not allowed on Supabase Edge Runtime"
    );
}

#[test]
fn test_bundle_and_entrypoint_decisions() {
    // A supplied bundle wins.
    let mut opts = init_opts(Vec::new(), WorkerRuntimeOpts::MainWorker);
    opts.maybe_eszip = Some(vec![1, 2, 3]);
    opts.maybe_module_code = Some(String::from("Deno.serve(() => new Response('ok'));"));
    let rt = DenoRuntime::new(opts, &None).unwrap();
    assert_eq!(rt.bundle, BundleSource::Provided);
    assert!(matches!(rt.main_module, MainModuleSource::ServiceIndex));

    // Inline module code alone bundles just that code.
    let mut opts = init_opts(Vec::new(), WorkerRuntimeOpts::MainWorker);
    opts.maybe_module_code = Some(String::from("Deno.serve(() => new Response('ok'));"));
    let rt = DenoRuntime::new(opts, &None).unwrap();
    assert_eq!(
        rt.bundle,
        BundleSource::Generate {
            cache: CacheSetting::Use,
            only_module_code: true
        }
    );

    // An explicit entrypoint overrides the service index and suppresses
    // the inline-code shortcut; disabling the cache reloads everything.
    let mut opts = init_opts(Vec::new(), WorkerRuntimeOpts::MainWorker);
    opts.maybe_entrypoint = Some(String::from("file:///src/entry.ts"));
    opts.maybe_module_code = Some(String::from("x"));
    opts.no_module_cache = true;
    let rt = DenoRuntime::new(opts, &None).unwrap();
    assert_eq!(
        rt.bundle,
        BundleSource::Generate {
            cache: CacheSetting::ReloadAll,
            only_module_code: false
        }
    );
    match &rt.main_module {
        MainModuleSource::Entrypoint(e) => assert_eq!(e, "file:///src/entry.ts"),
        MainModuleSource::ServiceIndex => panic!("entrypoint expected"),
    }
}

#[test]
fn test_ca_store_selection() {
    // No selector: the Mozilla store.
    let rt = DenoRuntime::new(init_opts(Vec::new(), WorkerRuntimeOpts::MainWorker), &None).unwrap();
    assert_eq!(rt.ca_stores, vec![CaStore::Mozilla]);

    // A messy selector: fields are trimmed and empty ones dropped.
    let rt = DenoRuntime::new(
        init_opts(Vec::new(), WorkerRuntimeOpts::MainWorker),
        &Some(String::from(" system , ,mozilla ")),
    )
    .unwrap();
    assert_eq!(rt.ca_stores, vec![CaStore::System, CaStore::Mozilla]);

    // An unrecognized store rejects the creation, naming the store.
    match DenoRuntime::new(
        init_opts(Vec::new(), WorkerRuntimeOpts::MainWorker),
        &Some(String::from("mozilla,keychain")),
    ) {
        Err(bad) => assert_eq!(bad, "keychain"),
        Ok(_) => panic!("an unknown store must be rejected"),
    }
}
