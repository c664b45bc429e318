//! Host-capability permissions derived from a worker's role.
//!
//! A `user`-role worker may have outbound network access withheld; `main`-
//! and `events`-role workers always keep it. Spawning subprocesses is denied
//! to every worker of this runtime, with an explicit script-level message.

use vstd::prelude::*;
use crate::worker::WorkerRuntimeOpts;

verus! {

/// The capability set bound into one worker's execution context.
#[derive(Clone, Copy, Debug, PartialEq, Eq, Structural)]
pub struct Permissions {
    /// Outbound network connections are denied when set.
    pub net_access_disabled: bool,
}

/// Whether the given role configuration withholds network access.
pub open spec fn spec_net_access_disabled(conf: WorkerRuntimeOpts) -> bool {
    match conf {
        WorkerRuntimeOpts::UserWorker(u) => u.net_access_disabled,
        _ => false,
    }
}

/// Derives the capability set for one worker from its role configuration.
pub fn permissions_for(conf: &WorkerRuntimeOpts) -> (p: Permissions)
    ensures
        p.net_access_disabled == spec_net_access_disabled(*conf),
{
    match conf {
        WorkerRuntimeOpts::UserWorker(u) => Permissions { net_access_disabled: u.net_access_disabled },
        _ => Permissions { net_access_disabled: false },
    }
}

impl Permissions {
    /// Whether this worker may establish outbound network connections.
    #[verifier::allow_in_spec]
    pub fn can_access_net(&self) -> bool
        returns
            !self.net_access_disabled,
    {
        !self.net_access_disabled
    }

    /// Whether this worker may spawn subprocesses: never, in this runtime.
    #[verifier::allow_in_spec]
    pub fn can_spawn_subprocess(&self) -> bool
        returns
            false,
    {
        false
    }
}

/// The script-level message shown when a worker tries to spawn a subprocess.
pub fn subprocess_denied_message() -> (s: String)
    ensures
        s@ == "Spawning subprocesses is not allowed on Supabase Edge Runtime"@,
{
    String::from_str("Spawning subprocesses is not allowed on Supabase Edge Runtime")
}

/// Network isolation law: a `user`-role worker configured with
/// `net_access_disabled` cannot establish outbound connections, while a
/// `main`-role worker always can.
pub proof fn lemma_net_isolation(conf: WorkerRuntimeOpts, p: Permissions)
    requires
        p.net_access_disabled == spec_net_access_disabled(conf),
    ensures
        (conf matches WorkerRuntimeOpts::UserWorker(u) && u.net_access_disabled) ==> !p.can_access_net(),
        conf is MainWorker ==> p.can_access_net(),
{
}

} // verus!
