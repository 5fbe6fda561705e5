//! Values that a `MitchMsg` envelope carries.
use vstd::prelude::*;

use super::{FailedMsg, JoinMsg, PingMsg, PullMsg, SyncMsg};

verus! {

/// The message carried by a `MitchMsg`.
#[derive(Debug)]
pub enum Value {
    /// Liveness probe.
    Ping(PingMsg),
    /// A member failed.
    Failed(FailedMsg),
    /// A member joins.
    Join(JoinMsg),
    /// Request for swarm members.
    Pull(PullMsg),
    /// Swarm members, answering a pull.
    Sync(SyncMsg),
}

} // verus!
