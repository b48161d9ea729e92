//! The dispatch registry: which handler serves which event type.
//!
//! The registry is filled once at start-up and only read afterwards. A name
//! that is registered twice keeps the handler registered last.

use crate::messaging::handlers::user_action::{decode_user_action, user_action_handler};
use crate::messaging::model::Context;
use crate::misc::error::{Error, SsuResult};
use crate::misc::name_map::{insert_all, lemma_lookup_after_insertions};
use crate::service::bg::{Message, MessageView};
use vstd::hash_map::StringHashMap;
use vstd::prelude::*;

verus! {

/// The handlers that exist. Dispatch is a lookup by name followed by a match
/// on this closed set, so an unknown event type simply finds nothing.
#[derive(Debug, Clone, Copy, PartialEq, Eq, Structural)]
pub enum HandlerFunc {
    /// [`user_action_handler`].
    UserAction,
}

/// What running `handler` on the message `text` returns: the content of the
/// message for the sink, or the reason why there is none.
pub open spec fn handler_result(handler: HandlerFunc, text: Seq<char>) -> Result<MessageView, Error> {
    match handler {
        HandlerFunc::UserAction => match decode_user_action(text) {
            Ok(message) => Ok(MessageView::UserAction(message)),
            Err(error) => Err(error),
        },
    }
}

impl HandlerFunc {
    /// Runs the handler on one message.
    pub fn call(&self, context: Context) -> (handled: SsuResult<Message>)
        ensures
            match handler_result(*self, context.msg@) {
                Ok(message) => handled is Ok && handled->Ok_0@ == message,
                Err(error) => handled == Err::<Message, Error>(error),
            },
    {
        match self {
            HandlerFunc::UserAction => user_action_handler(context),
        }
    }
}

/// One registration.
#[derive(Debug)]
pub struct Handler {
    pub name: String,
    pub description: String,
    pub handler_func: HandlerFunc,
}

/// Event type to handler.
pub struct Registry {
    handlers: StringHashMap<Handler>,
}

impl View for Registry {
    type V = Map<Seq<char>, HandlerFunc>;

    open spec fn view(&self) -> Map<Seq<char>, HandlerFunc> {
        self.registrations().map_values(|h: Handler| h.handler_func)
    }
}

/// A registry without handlers.
pub fn new_registry() -> (registry: Registry)
    ensures
        registry.registrations() == (Map::<Seq<char>, Handler>::empty()),
        registry@ == (Map::<Seq<char>, HandlerFunc>::empty()),
{
    let registry = Registry { handlers: StringHashMap::new() };
    assert(registry@ =~= Map::<Seq<char>, HandlerFunc>::empty());
    registry
}

impl Registry {
    /// The registrations by event type, each as it was made.
    pub closed spec fn registrations(&self) -> Map<Seq<char>, Handler> {
        self.handlers@
    }

    /// Registers `handler` for the event type `event_name`, replacing the
    /// handler that the name had, if any. The registration carries the name
    /// and an empty description.
    pub fn register(&mut self, event_name: String, handler: HandlerFunc)
        ensures
            final(self)@ == old(self)@.insert(event_name@, handler),
            final(self).registrations().contains_key(event_name@),
            final(self).registrations() == old(self).registrations().insert(
                event_name@,
                final(self).registrations()[event_name@],
            ),
            final(self).registrations()[event_name@].name@ == event_name@,
            final(self).registrations()[event_name@].description@.len() == 0,
            final(self).registrations()[event_name@].handler_func == handler,
    {
        let entry = Handler {
            name: event_name.clone(),
            description: String::new(),
            handler_func: handler,
        };
        self.handlers.insert(event_name, entry);
        assert(self@ =~= old(self)@.insert(event_name@, handler));
    }

    /// The handler registered for `event_name`, if there is one.
    pub fn get_handler(&self, event_name: &str) -> (found: Option<HandlerFunc>)
        ensures
            found == (if self@.contains_key(event_name@) {
                Some(self@[event_name@])
            } else {
                None
            }),
    {
        match self.handlers.get(event_name) {
            None => None,
            Some(handler) => Some(handler.handler_func),
        }
    }

    /// The registration made for `event_name`, if there is one.
    pub fn get_registration(&self, event_name: &str) -> (found: Option<&Handler>)
        ensures
            match found {
                Some(handler) => self.registrations().contains_key(event_name@) && *handler
                    == self.registrations()[event_name@],
                None => !self.registrations().contains_key(event_name@),
            },
    {
        self.handlers.get(event_name)
    }
}

/// Resolving an event type after any number of registrations finds the
/// handler of the last registration made under exactly that name. A type
/// that none of them named resolves as it did before: to nothing, if it was
/// never registered, however many other types were.
pub proof fn lemma_resolve_after_registrations(
    table: Map<Seq<char>, HandlerFunc>,
    registrations: Seq<(Seq<char>, HandlerFunc)>,
    name: Seq<char>,
)
    ensures
        insert_all(table, registrations).contains_key(name) <==> (table.contains_key(name)
            || exists|i: int| 0 <= i < registrations.len() && (#[trigger] registrations[i]).0 == name),
        (forall|i: int| 0 <= i < registrations.len() ==> (#[trigger] registrations[i]).0 != name)
            && table.contains_key(name) ==> insert_all(table, registrations)[name] == table[name],
        forall|i: int|
            0 <= i < registrations.len() && (#[trigger] registrations[i]).0 == name && (forall|j: int|
                i < j < registrations.len() ==> (#[trigger] registrations[j]).0 != name)
                ==> insert_all(table, registrations)[name] == registrations[i].1,
{
    lemma_lookup_after_insertions(table, registrations, name);
}

} // verus!
