//! The predicates of relations.
use vstd::prelude::*;

verus! {

/// A virtual entity computed from another (for instance a sum of two meters).
pub const CALCULATES_FOR: &'static str = "calculates_for";

/// Topology: a device inside a room.
pub const IS_CHILD_OF: &'static str = "is_child_of";

/// Automation and event chains.
pub const TRIGGERS: &'static str = "triggers";

/// The system's communication gateway.
pub const HAS_GATEWAY: &'static str = "has_gateway";

/// The physical interface a gateway goes through.
pub const USES_INTERFACE: &'static str = "uses_interface";

/// The gateway a device is reached through.
pub const CONNECTED_TO: &'static str = "connected_to";

} // verus!
