use vstd::prelude::*;

use std::sync::atomic::{AtomicBool, Ordering};
use std::sync::Arc;

verus! {

/// How a reply to a command reaches Discord.
#[derive(Clone, Copy, Debug, PartialEq, Eq, Structural)]
pub enum ResponseRoute {
    /// As the interaction's initial response.
    Initial,
    /// As an edit of the response that was already made.
    Edit,
}

/// The route of a reply, given whether it is the first response to the
/// interaction.
pub fn route_for(first_response: bool) -> (r: ResponseRoute)
    ensures
        r == if first_response {
            ResponseRoute::Initial
        } else {
            ResponseRoute::Edit
        },
{
    if first_response {
        ResponseRoute::Initial
    } else {
        ResponseRoute::Edit
    }
}

/// Whether an interaction has been responded to, shared by every copy of
/// a command's context.
#[derive(Clone)]
pub struct ResponseFlag {
    responded: Arc<AtomicBool>,
}

impl ResponseFlag {
    /// A flag for an interaction that has not been responded to.
    pub fn new() -> (r: ResponseFlag) {
        ResponseFlag { responded: Arc::new(AtomicBool::new(false)) }
    }

    /// Marks the interaction as responded to. Returns whether this call was
    /// the one that did so; which call that is depends on the other tasks
    /// that share the flag.
    pub fn claim(&self) -> (first: bool) {
        self.responded.compare_exchange(false, true, Ordering::Release, Ordering::Acquire).is_ok()
    }

    /// Marks the interaction as responded to and gives the route of the
    /// reply being sent: the initial response exactly when this call was
    /// the first to mark it.
    pub fn send_route(&self) -> (r: ResponseRoute) {
        let first = self.claim();
        route_for(first)
    }
}

} // verus!
