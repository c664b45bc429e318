//! Half-close synchronization between the connection bridge and a worker.
//!
//! A single-writer watch cell carries a [`ConnSync`] value from the peer side
//! of one handed-off connection. The stream adapter consults the cell on
//! shutdown: the underlying close must wait until the watcher reports
//! [`ConnSync::Recv`] (the peer has finished reading what was written), so a
//! worker torn down mid-response never truncates in-flight bytes. A broken
//! watch channel lets the close proceed, recording a tracking failure:
//! hanging forever would be strictly worse.

use vstd::prelude::*;
use crate::errors::ErrorKind;

verus! {

/// State of one connection's half-close protocol, published through the
/// watch cell by the bridge's shutdown path.
#[derive(Clone, Copy, Debug, PartialEq, Eq, Structural)]
pub enum ConnSync {
    /// The peer has received everything written; closing is safe.
    Recv,
    /// An in-flight write must drain before the close may be issued.
    MustComplete,
    /// The connection's protocol work is finished.
    Done,
}

/// One observation of the watch cell made while shutting a stream down.
#[derive(Clone, Copy, Debug, PartialEq, Eq, Structural)]
pub enum WatchEvent {
    /// The cell currently holds this value.
    Value(ConnSync),
    /// The sender was dropped; no further value will ever arrive.
    SenderDropped,
}

/// What the stream adapter must do next with the underlying transport.
#[derive(Clone, Copy, Debug, PartialEq, Eq, Structural)]
pub enum ShutdownAction {
    /// Issue the underlying close now.
    Close,
    /// Issue the underlying close now, recording that the connection could
    /// not be tracked to its end.
    CloseWithTrackingFailure,
    /// Keep the close pending and consult the cell again on its next value.
    KeepWaiting,
}

/// Decides one step of the graceful shutdown of a handed-off stream.
///
/// `watcher` is the adapter's view of the watch cell: `None` when the
/// connection was handed off without a tracking watcher, otherwise the
/// latest observation. The close is issued immediately for untracked
/// connections; a tracked connection closes only once the peer reports
/// `Recv`, or once the channel itself fails, in which case the failure is
/// surfaced as [`ErrorKind::TrackingFailure`] by [`tracking_failure_of`].
pub fn shutdown_step(watcher: &Option<WatchEvent>) -> (action: ShutdownAction)
    ensures
        watcher is None ==> action == ShutdownAction::Close,
        watcher == Some(WatchEvent::Value(ConnSync::Recv)) ==> action == ShutdownAction::Close,
        watcher == Some(WatchEvent::SenderDropped) ==> action
            == ShutdownAction::CloseWithTrackingFailure,
        forall|v: ConnSync|
            v != ConnSync::Recv && watcher == Some(WatchEvent::Value(v)) ==> action
                == ShutdownAction::KeepWaiting,
{
    match watcher {
        None => ShutdownAction::Close,
        Some(WatchEvent::Value(ConnSync::Recv)) => ShutdownAction::Close,
        Some(WatchEvent::SenderDropped) => ShutdownAction::CloseWithTrackingFailure,
        Some(WatchEvent::Value(_)) => ShutdownAction::KeepWaiting,
    }
}

/// The error recorded when a shutdown step saw the watch channel fail;
/// `None` for the steps that track the connection correctly.
pub fn tracking_failure_of(action: &ShutdownAction) -> (r: Option<ErrorKind>)
    ensures
        r is Some <==> action == ShutdownAction::CloseWithTrackingFailure,
        r is Some ==> r == Some(ErrorKind::TrackingFailure),
{
    match action {
        ShutdownAction::CloseWithTrackingFailure => Some(ErrorKind::TrackingFailure),
        _ => None,
    }
}

} // verus!
