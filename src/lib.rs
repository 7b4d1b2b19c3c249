//! The decision core of an anonymous question relay: askers write to a bot,
//! their questions go to a moderation group, and a moderator's answer is
//! published together with the question and forwarded back to the asker.
//!
//! `conversation` holds each chat's dialogue state, `correlation` the
//! questions handed to the moderators, and `relay` the routing of inbound
//! messages and the steps of the work they start, as a machine from state
//! and call outcome to next state and call. `laws` states what holds of it.
use vstd::prelude::*;

pub mod conversation;
pub mod correlation;
pub mod laws;
pub mod relay;

verus! {

} // verus!
