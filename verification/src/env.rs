//! Which environment variables a worker may see.
//!
//! Pass-through process environment variables are exposed to `main`-role
//! workers only. A `user`-role worker receives exactly the entries provided
//! at its creation, never process-inherited ones, plus the execution
//! identity the supervisor itself injects under `SB_EXECUTION_ID`.

use vstd::prelude::*;
use crate::worker::{UserWorkerRuntimeOpts, WorkerRuntimeOpts};

verus! {

/// The execution identity injected into a `user`-role worker's environment:
/// its key, or the empty string when it has none.
pub open spec fn execution_id_view(u: UserWorkerRuntimeOpts) -> Seq<char> {
    match u.key {
        Some(k) => k@,
        None => Seq::empty(),
    }
}

/// The environment a worker of the given role sees, as key/value pairs:
/// `process_env` is the host's pass-through set, `provided` the entries
/// named explicitly at worker creation.
pub open spec fn visible_env(
    conf: WorkerRuntimeOpts,
    process_env: Seq<(Seq<char>, Seq<char>)>,
    provided: Seq<(Seq<char>, Seq<char>)>,
) -> Seq<(Seq<char>, Seq<char>)> {
    match conf {
        WorkerRuntimeOpts::MainWorker => process_env + provided,
        WorkerRuntimeOpts::EventsWorker => provided,
        WorkerRuntimeOpts::UserWorker(u) => provided.push(
            ("SB_EXECUTION_ID"@, execution_id_view(u)),
        ),
    }
}

/// Appends a copy of every entry of `src` to `dst`.
fn append_env(dst: &mut Vec<(String, String)>, src: &Vec<(String, String)>)
    ensures
        final(dst).deep_view() == old(dst).deep_view() + src.deep_view(),
{
    let ghost dst0 = old(dst).deep_view();
    let mut i: usize = 0;
    while i < src.len()
        invariant
            i <= src.len(),
            dst.deep_view() =~~= dst0 + src.deep_view().subrange(0, i as int),
        decreases src.len() - i,
    {
        let ghost prev = dst.deep_view();
        let entry = &src[i];
        dst.push((entry.0.clone(), entry.1.clone()));
        proof {
            assert(dst.deep_view() =~~= prev.push(src.deep_view()[i as int]));
            assert(src.deep_view().subrange(0, i + 1) =~~= src.deep_view().subrange(
                0,
                i as int,
            ).push(src.deep_view()[i as int]));
        }
        i = i + 1;
    }
    assert(dst.deep_view() =~~= dst0 + src.deep_view());
}

/// Assembles the environment one worker will see.
///
/// A `main`-role worker sees the pass-through process environment followed
/// by the explicitly provided entries; an `events`-role worker sees only the
/// provided entries; a `user`-role worker sees the provided entries plus the
/// injected `SB_EXECUTION_ID` identity, and nothing of `process_env`.
pub fn worker_env_vars(
    conf: &WorkerRuntimeOpts,
    process_env: &Vec<(String, String)>,
    provided: &Vec<(String, String)>,
) -> (r: Vec<(String, String)>)
    ensures
        r.deep_view() == visible_env(*conf, process_env.deep_view(), provided.deep_view()),
{
    let mut out: Vec<(String, String)> = Vec::new();
    match conf {
        WorkerRuntimeOpts::MainWorker => {
            append_env(&mut out, process_env);
            append_env(&mut out, provided);
            assert(out.deep_view() =~~= process_env.deep_view() + provided.deep_view());
        },
        WorkerRuntimeOpts::EventsWorker => {
            append_env(&mut out, provided);
            assert(out.deep_view() =~~= provided.deep_view());
        },
        WorkerRuntimeOpts::UserWorker(u) => {
            append_env(&mut out, provided);
            let id = match &u.key {
                Some(k) => k.clone(),
                None => String::new(),
            };
            out.push((String::from_str("SB_EXECUTION_ID"), id));
            assert(out.deep_view() =~~= provided.deep_view().push(
                ("SB_EXECUTION_ID"@, execution_id_view(*u)),
            ));
        },
    }
    out
}

/// Environment isolation law: every entry a `user`-role worker sees was
/// either provided explicitly at its creation or is the supervisor-injected
/// `SB_EXECUTION_ID`; nothing leaks from the process environment. A
/// `main`-role worker, by contrast, sees every pass-through process entry.
pub proof fn lemma_env_visibility(
    conf: WorkerRuntimeOpts,
    process_env: Seq<(Seq<char>, Seq<char>)>,
    provided: Seq<(Seq<char>, Seq<char>)>,
)
    ensures
        conf is UserWorker ==> forall|i: int|
            0 <= i < visible_env(conf, process_env, provided).len() ==> (provided.contains(
                #[trigger] visible_env(conf, process_env, provided)[i],
            ) || visible_env(conf, process_env, provided)[i].0 == "SB_EXECUTION_ID"@),
        conf is MainWorker ==> forall|i: int|
            0 <= i < process_env.len() ==> #[trigger] visible_env(conf, process_env, provided)[i]
                == process_env[i],
{
    match conf {
        WorkerRuntimeOpts::UserWorker(u) => {
            let r = visible_env(conf, process_env, provided);
            assert forall|i: int| 0 <= i < r.len() implies (provided.contains(#[trigger] r[i])
                || r[i].0 == "SB_EXECUTION_ID"@) by {
                if i < provided.len() {
                    assert(r[i] == provided[i]);
                }
            }
        },
        _ => {},
    }
}

} // verus!
