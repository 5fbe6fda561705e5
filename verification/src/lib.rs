//! Membership-gossiping swarm library, based on SWIM/Lifeguard.
use vstd::prelude::*;

pub mod detector;
pub mod errors;
pub mod group;
pub mod member_info;
pub mod membership;
pub mod observer;
pub mod protomitch;
pub mod protomitch_pb;
pub mod reactor;

pub use group::MitchConfig;
pub use member_info::MemberInfo;
pub use observer::SwarmNotification;

verus! {

/// Minimum protocol version supported by this library.
pub const MIN_PROTO: u32 = 0;

/// Maximum protocol version supported by this library.
pub const MAX_PROTO: u32 = 0;

} // verus!
