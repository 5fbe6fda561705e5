//! Notifications for external observers of the swarm.
use vstd::prelude::*;

use crate::member_info::MemberInfo;

verus! {

/// Notification for a swarm event.
#[derive(Debug)]
pub enum SwarmNotification {
    /// A new member joined the swarm.
    Joined(MemberInfo),
    /// A swarm member failed and left the swarm.
    Failed(u32),
}

} // verus!
