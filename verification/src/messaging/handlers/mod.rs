//! The handlers of the supported event types.

pub mod user_action;

use crate::messaging::registry::{HandlerFunc, Registry};
use vstd::prelude::*;

verus! {

/// Registers the handler of every supported event type.
pub fn register_handlers(registry: &mut Registry)
    ensures
        final(registry)@ == old(registry)@.insert("user-action"@, HandlerFunc::UserAction),
{
    registry.register("user-action".to_owned(), HandlerFunc::UserAction);
}

} // verus!
