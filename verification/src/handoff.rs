//! The connection bridge: moving an accepted connection's transport from
//! the outer listener into a worker's in-process HTTP server.
//!
//! Connections live in a registry of exclusively-owned resources. Handing
//! one off takes its stream out of the registry, wires it to the worker's
//! HTTP server together with the half-close watcher registered for its
//! descriptor, and exposes the watcher as a resource of its own. A stream
//! whose transport is still referenced elsewhere is never taken over:
//! handoff fails with [`ErrorKind::ResourceBusy`] and changes nothing, so
//! the original owner's state is untouched and the failure is idempotent.

use vstd::prelude::*;
use crate::errors::ErrorKind;

verus! {

/// One entry of the bridge's resource registry.
#[derive(Clone, Copy, Debug, PartialEq, Eq, Structural)]
pub enum Resource {
    /// An accepted stream awaiting handoff. `in_use_elsewhere` records that
    /// another holder still references the transport.
    UnixStream { fd: u64, in_use_elsewhere: bool },
    /// A stream wired into a worker's HTTP server; `has_watcher` records
    /// whether a half-close watcher tracks it.
    HttpConn { fd: u64, has_watcher: bool },
    /// The half-close watcher of one handed-off connection, exposed to the
    /// worker; `has_channel` records whether its watch channel exists.
    ConnWatcher { has_channel: bool },
}

/// The bridge's state: the resource registry and the half-close watchers
/// registered per descriptor.
pub struct BridgeState {
    /// Registered resources, keyed by resource identifier.
    pub resources: Vec<(u64, Resource)>,
    /// The identifier the next registered resource will receive.
    pub next_rid: u64,
    /// Descriptors for which a half-close watcher is registered.
    pub watchers: Vec<u64>,
}

/// Whether some registry entry carries the identifier.
pub open spec fn spec_rid_present(rs: Seq<(u64, Resource)>, rid: u64) -> bool {
    exists|i: int| 0 <= i < rs.len() && (#[trigger] rs[i]).0 == rid
}

impl BridgeState {
    /// Registry invariant: resource identifiers are unique and below the
    /// allocator cursor, and at most one watcher is registered per
    /// descriptor.
    pub open spec fn wf(self) -> bool {
        &&& forall|i: int, j: int|
            0 <= i < j < self.resources@.len() ==> (#[trigger] self.resources@[i]).0 != (
            #[trigger] self.resources@[j]).0
        &&& forall|i: int|
            0 <= i < self.resources@.len() ==> (#[trigger] self.resources@[i]).0 < self.next_rid
        &&& forall|i: int, j: int|
            0 <= i < j < self.watchers@.len() ==> #[trigger] self.watchers@[i]
                != #[trigger] self.watchers@[j]
    }

    /// An empty registry.
    pub fn new() -> (s: BridgeState)
        ensures
            s.wf(),
            s.resources@.len() == 0,
            s.watchers@.len() == 0,
            s.next_rid == 0,
    {
        BridgeState { resources: Vec::new(), next_rid: 0, watchers: Vec::new() }
    }

    /// Registers a resource, handing back its fresh identifier.
    pub fn add_resource(&mut self, r: Resource) -> (rid: u64)
        requires
            old(self).wf(),
            old(self).next_rid < u64::MAX,
        ensures
            final(self).wf(),
            rid == old(self).next_rid,
            final(self).resources@ == old(self).resources@.push((rid, r)),
            final(self).next_rid == old(self).next_rid + 1,
            final(self).watchers == old(self).watchers,
    {
        let rid = self.next_rid;
        self.resources.push((rid, r));
        self.next_rid = rid + 1;
        rid
    }

    /// Registers a half-close watcher for a descriptor without one.
    pub fn register_watcher(&mut self, fd: u64)
        requires
            old(self).wf(),
            !old(self).watchers@.contains(fd),
        ensures
            final(self).wf(),
            final(self).resources == old(self).resources,
            final(self).next_rid == old(self).next_rid,
            final(self).watchers@ == old(self).watchers@.push(fd),
    {
        self.watchers.push(fd);
    }

    /// The registry's entry for `rid`, when one exists.
    fn find_resource(&self, rid: u64) -> (r: Option<usize>)
        ensures
            match r {
                Some(i) => 0 <= i < self.resources@.len() && self.resources@[i as int].0 == rid,
                None => !spec_rid_present(self.resources@, rid),
            },
    {
        let mut i: usize = 0;
        while i < self.resources.len()
            invariant
                i <= self.resources@.len(),
                forall|j: int| 0 <= j < i ==> (#[trigger] self.resources@[j]).0 != rid,
            decreases self.resources@.len() - i,
        {
            if self.resources[i].0 == rid {
                return Some(i);
            }
            i = i + 1;
        }
        None
    }

    /// The position of `fd` among the registered watchers, when present.
    fn find_watcher(&self, fd: u64) -> (r: Option<usize>)
        ensures
            match r {
                Some(i) => 0 <= i < self.watchers@.len() && self.watchers@[i as int] == fd,
                None => !self.watchers@.contains(fd),
            },
    {
        let mut i: usize = 0;
        while i < self.watchers.len()
            invariant
                i <= self.watchers@.len(),
                forall|j: int| 0 <= j < i ==> self.watchers@[j] != fd,
            decreases self.watchers@.len() - i,
        {
            if self.watchers[i] == fd {
                return Some(i);
            }
            i = i + 1;
        }
        None
    }
}

/// Starts a worker's HTTP server on a handed-off stream.
///
/// The stream resource is taken out of the registry only when this bridge
/// is its sole owner; a transport still referenced elsewhere fails with
/// [`ErrorKind::ResourceBusy`] and leaves every resource, watcher and the
/// original owner untouched. On success the stream becomes an `HttpConn`
/// resource wired to the half-close watcher registered for its descriptor
/// (consuming that registration), the watcher itself is exposed as a
/// second resource, and both fresh identifiers are returned.
pub fn op_http_start(state: &mut BridgeState, stream_rid: u64) -> (r: Result<(u64, u64), ErrorKind>)
    requires
        old(state).wf(),
        old(state).next_rid < u64::MAX - 1,
    ensures
        final(state).wf(),
        match r {
            Ok((conn_rid, watcher_rid)) => exists|k: int|
                #![trigger old(state).resources@[k]]
                {
                    let rs = old(state).resources@;
                    &&& 0 <= k < rs.len()
                    &&& rs[k].0 == stream_rid
                    &&& match rs[k].1 {
                        Resource::UnixStream { fd, in_use_elsewhere } => {
                            let tracked_conn = old(state).watchers@.contains(fd);
                            &&& !in_use_elsewhere
                            &&& conn_rid == old(state).next_rid
                            &&& watcher_rid == old(state).next_rid + 1
                            &&& final(state).next_rid == old(state).next_rid + 2
                            &&& final(state).resources@ == rs.remove(k).push(
                                (conn_rid, Resource::HttpConn { fd, has_watcher: tracked_conn }),
                            ).push(
                                (watcher_rid, Resource::ConnWatcher { has_channel: tracked_conn }),
                            )
                            &&& !final(state).watchers@.contains(fd)
                            &&& forall|w: u64|
                                final(state).watchers@.contains(w) <==> (
                                old(state).watchers@.contains(w) && w != fd)
                        },
                        _ => false,
                    }
                },
            Err(e) => {
                &&& *final(state) == *old(state)
                &&& match e {
                    ErrorKind::ResourceBusy => exists|k: int|
                        #![trigger old(state).resources@[k]]
                        {
                            let rs = old(state).resources@;
                            &&& 0 <= k < rs.len()
                            &&& rs[k].0 == stream_rid
                            &&& (rs[k].1 matches Resource::UnixStream {
                                in_use_elsewhere: true,
                                ..
                            })
                        },
                    ErrorKind::BadResourceId => forall|k: int|
                        0 <= k < old(state).resources@.len() && (#[trigger] old(
                            state,
                        ).resources@[k]).0 == stream_rid ==> !(old(state).resources@[k].1
                            is UnixStream),
                    _ => false,
                }
            },
        },
{
    let found = state.find_resource(stream_rid);
    let k = match found {
        Some(k) => k,
        None => {
            return Err(ErrorKind::BadResourceId);
        },
    };
    let (fd, busy) = match state.resources[k].1 {
        Resource::UnixStream { fd, in_use_elsewhere } => (fd, in_use_elsewhere),
        _ => {
            proof {
                assert(forall|j: int|
                    0 <= j < state.resources@.len() && (#[trigger] state.resources@[j]).0
                        == stream_rid ==> j == k);
            }
            return Err(ErrorKind::BadResourceId);
        },
    };
    if busy {
        // Another holder still references this transport: do not take it
        // over, do not disturb the owner.
        return Err(ErrorKind::ResourceBusy);
    }
    let ghost rs0 = state.resources@;
    let ghost watchers0 = state.watchers@;
    state.resources.remove(k);
    proof {
        lemma_resources_remove_wf(rs0, k as int, state.next_rid);
    }
    let tracked_conn = match state.find_watcher(fd) {
        Some(w) => {
            proof {
                lemma_remove_unique_contains(watchers0, w as int);
            }
            state.watchers.remove(w);
            true
        },
        None => false,
    };
    assert(forall|w: u64|
        state.watchers@.contains(w) <==> (watchers0.contains(w) && w != fd));
    let conn_rid = state.add_resource(Resource::HttpConn { fd, has_watcher: tracked_conn });
    let watcher_rid = state.add_resource(Resource::ConnWatcher { has_channel: tracked_conn });
    Ok((conn_rid, watcher_rid))
}

/// Removing a registry entry keeps identifiers unique and below the cursor.
proof fn lemma_resources_remove_wf(rs: Seq<(u64, Resource)>, k: int, bound: u64)
    requires
        0 <= k < rs.len(),
        forall|i: int, j: int| 0 <= i < j < rs.len() ==> (#[trigger] rs[i]).0 != (#[trigger] rs[j]).0,
        forall|i: int| 0 <= i < rs.len() ==> (#[trigger] rs[i]).0 < bound,
    ensures
        forall|i: int, j: int|
            0 <= i < j < rs.len() - 1 ==> (#[trigger] rs.remove(k)[i]).0 != (#[trigger] rs.remove(
                k,
            )[j]).0,
        forall|i: int| 0 <= i < rs.len() - 1 ==> (#[trigger] rs.remove(k)[i]).0 < bound,
{
    let t = rs.remove(k);
    assert forall|i: int, j: int| 0 <= i < j < t.len() implies (#[trigger] t[i]).0 != (
    #[trigger] t[j]).0 by {
        let i2 = if i < k {
            i
        } else {
            i + 1
        };
        let j2 = if j < k {
            j
        } else {
            j + 1
        };
        assert(t[i] == rs[i2]);
        assert(t[j] == rs[j2]);
    }
    assert forall|i: int| 0 <= i < t.len() implies (#[trigger] t[i]).0 < bound by {
        if i < k {
            assert(t[i] == rs[i]);
        } else {
            assert(t[i] == rs[i + 1]);
        }
    }
}

/// What a protocol upgrade hands to the layer taking the connection over:
/// the connection's resource, the negotiated protocol, and bytes already
/// read past the upgrade point.
#[derive(Debug)]
pub struct HttpUpgradeResult {
    /// The connection resource whose ownership transfers.
    pub conn_rid: u64,
    /// The negotiated protocol's name.
    pub conn_type: String,
    /// Bytes read from the stream beyond the upgrade handshake.
    pub read_buf: Vec<u8>,
}

/// The bridge's protocol-upgrade hook: an explicit no-op contract point.
///
/// Ownership of a connection's resource transfers exactly once, to the
/// protocol layer that takes it over; the bridge itself touches nothing
/// and manages no lifecycle thereafter.
pub fn op_http_upgrade(state: &mut BridgeState, rid: u64) -> (r: Result<(), ErrorKind>)
    ensures
        *final(state) == *old(state),
        r is Ok,
{
    let _ = rid;
    Ok(())
}

/// Removing one entry of a duplicate-free sequence keeps exactly the other
/// values.
proof fn lemma_remove_unique_contains(s: Seq<u64>, w: int)
    requires
        0 <= w < s.len(),
        forall|i: int, j: int| 0 <= i < j < s.len() ==> #[trigger] s[i] != #[trigger] s[j],
    ensures
        forall|x: u64| s.remove(w).contains(x) <==> (s.contains(x) && x != s[w]),
        forall|i: int, j: int|
            0 <= i < j < s.len() - 1 ==> #[trigger] s.remove(w)[i] != #[trigger] s.remove(w)[j],
{
    let t = s.remove(w);
    assert forall|x: u64| t.contains(x) <==> (s.contains(x) && x != s[w]) by {
        if t.contains(x) {
            let i = choose|i: int| 0 <= i < t.len() && t[i] == x;
            if i < w {
                assert(s[i] == x);
            } else {
                assert(s[i + 1] == x);
            }
        }
        if s.contains(x) && x != s[w] {
            let i = choose|i: int| 0 <= i < s.len() && s[i] == x;
            if i < w {
                assert(t[i] == x);
            } else {
                assert(i > w);
                assert(t[i - 1] == x);
            }
        }
    }
}

} // verus!
