//! The live dashboard feed: what the server does on each event of a
//! WebSocket connection that streams dashboard snapshots.

use vstd::prelude::*;

verus! {

/// Seconds between two snapshots of the live feed.
pub const LIVE_REFRESH_SECS: u64 = 5;

/// What happened on a live connection.
#[derive(Clone, Copy, Debug, PartialEq, Eq, Structural)]
pub enum LiveEvent {
    /// The refresh interval elapsed.
    Tick,
    /// The client sent a message other than a close.
    Received,
    /// The client closed the connection, or it ended.
    Closed,
    /// Receiving from the client failed.
    ReceiveFailed,
    /// Sending a snapshot to the client failed.
    SendFailed,
    /// Building a snapshot failed (it is logged and the feed goes on).
    SnapshotFailed,
}

/// What the server does next.
#[derive(Clone, Copy, Debug, PartialEq, Eq, Structural)]
pub enum LiveAction {
    /// Build a snapshot and send it.
    SendSnapshot,
    /// Keep waiting for the next event.
    Continue,
    /// End the connection.
    Stop,
}

/// The server's answer to one event of a live connection: a snapshot on
/// every tick, the end of the feed when the client is gone or a send
/// fails, and otherwise nothing but waiting.
pub fn live_step(event: &LiveEvent) -> (a: LiveAction)
    ensures
        *event == LiveEvent::Tick ==> a == LiveAction::SendSnapshot,
        (*event == LiveEvent::Closed || *event == LiveEvent::ReceiveFailed || *event
            == LiveEvent::SendFailed) ==> a == LiveAction::Stop,
        (*event == LiveEvent::Received || *event == LiveEvent::SnapshotFailed) ==> a
            == LiveAction::Continue,
{
    match event {
        LiveEvent::Tick => LiveAction::SendSnapshot,
        LiveEvent::Closed | LiveEvent::ReceiveFailed | LiveEvent::SendFailed => LiveAction::Stop,
        LiveEvent::Received | LiveEvent::SnapshotFailed => LiveAction::Continue,
    }
}

} // verus!
