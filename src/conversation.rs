use std::collections::HashMap;
use vstd::prelude::*;

verus! {

/// Where a chat stands in its dialogue with the bot.
#[derive(Clone, Copy, Debug, PartialEq, Eq, Structural)]
pub enum State {
    /// No question is being collected; the next message is greeted.
    Start,
    /// The chat was prompted; its next message is the question.
    AskQuestion,
}

impl Default for State {
    fn default() -> (r: State)
        ensures
            r == State::Start,
    {
        State::Start
    }
}

/// The state of `chat` in `states`: a chat never seen is at `Start`.
pub open spec fn state_of(states: Map<i64, State>, chat: i64) -> State {
    if states.contains_key(chat) {
        states[chat]
    } else {
        State::Start
    }
}

/// Per-chat dialogue states. A chat has one state at a time; one that was
/// never set is at `Start`.
pub struct ConversationStore {
    states: HashMap<i64, State>,
}

impl View for ConversationStore {
    type V = Map<i64, State>;

    closed spec fn view(&self) -> Map<i64, State> {
        self.states@
    }
}

impl ConversationStore {
    pub fn new() -> (r: ConversationStore)
        ensures
            r@ == Map::<i64, State>::empty(),
    {
        ConversationStore { states: HashMap::new() }
    }

    pub fn get(&self, chat: i64) -> (r: State)
        ensures
            r == state_of(self@, chat),
    {
        broadcast use vstd::std_specs::hash::group_hash_axioms;

        match self.states.get(&chat) {
            Some(s) => *s,
            None => State::Start,
        }
    }

    /// Sets the state of `chat`; every other chat keeps its own.
    pub fn set(&mut self, chat: i64, state: State)
        ensures
            final(self)@ == old(self)@.insert(chat, state),
    {
        broadcast use vstd::std_specs::hash::group_hash_axioms;

        self.states.insert(chat, state);
    }
}

} // verus!
