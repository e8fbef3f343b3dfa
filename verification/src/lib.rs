//! Approval-elicitation bridge and event/op relay.
//!
//! This crate holds the decision logic of an asynchronous bridge that lets an
//! interactive agent session pause for a human-in-the-loop patch approval
//! without blocking its own execution, and that keeps the session's outbound
//! operation stream and inbound notification stream flowing in order.
//!
//! Every function here is pure: the surrounding runtime (transport, engine,
//! task spawning) performs the actions these functions decide on.

pub mod agent;
pub mod patch_approval;
pub mod protocol;
