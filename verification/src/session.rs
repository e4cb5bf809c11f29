//! The state of every conversation heard from so far.

use crate::dialogue::{dispatch, transition, Step};
use crate::event::Event;
use crate::state::{State, StateView};
use std::collections::HashMap;
use vstd::prelude::*;
use vstd::std_specs::hash::group_hash_axioms;

verus! {

broadcast use group_hash_axioms;

/// The state that `sessions` holds for `conversation`: the one on record, or `Start` where
/// none is.
pub open spec fn state_of(sessions: Map<i64, StateView>, conversation: i64) -> StateView {
    if sessions.contains_key(conversation) {
        sessions[conversation]
    } else {
        StateView::Start
    }
}

/// The states of all conversations, by conversation id. A conversation comes on record with
/// its first `set` and stays there.
pub struct SessionStore {
    sessions: HashMap<i64, State>,
}

impl View for SessionStore {
    type V = Map<i64, StateView>;

    closed spec fn view(&self) -> Map<i64, StateView> {
        Map::new(
            |conversation: i64| self.sessions@.contains_key(conversation),
            |conversation: i64| self.sessions@[conversation]@,
        )
    }
}

impl SessionStore {
    /// A store with no conversation on record.
    pub fn new() -> (store: SessionStore)
        ensures
            store@ == Map::<i64, StateView>::empty(),
    {
        let store = SessionStore { sessions: HashMap::new() };
        assert(store@ =~= Map::<i64, StateView>::empty());
        store
    }

    /// The state on record for `conversation`, if there is one.
    pub fn get(&self, conversation: i64) -> (found: Option<State>)
        ensures
            match found {
                Some(state) => self@.contains_key(conversation) && state@ == self@[conversation],
                None => !self@.contains_key(conversation),
            },
    {
        match self.sessions.get(&conversation) {
            Some(state) => Some(state.clone()),
            None => None,
        }
    }

    /// Puts `state` on record for `conversation`, in place of what was there. No other
    /// conversation is touched.
    pub fn set(&mut self, conversation: i64, state: State)
        ensures
            final(self)@ == old(self)@.insert(conversation, state@),
    {
        self.sessions.insert(conversation, state);
        assert(self@ =~= old(self)@.insert(conversation, state@));
    }

    /// The state that `conversation` is in: the one on record, or `Start` for a conversation
    /// not heard from before.
    pub fn current(&self, conversation: i64) -> (state: State)
        ensures
            state@ == state_of(self@, conversation),
    {
        match self.get(conversation) {
            Some(state) => state,
            None => State::default(),
        }
    }

    /// Decides what to do about `event`, going by the state its conversation is in. The store
    /// is left as it is: `record` takes the outcome.
    pub fn handle(&self, event: Event) -> (step: Step)
        ensures
            step@ == transition(state_of(self@, event.conversation), event@),
    {
        dispatch(self.current(event.conversation), event)
    }

    /// Closes the handling of an event. Where everything the step asked for went through, the
    /// conversation moves on to `next`; where anything failed on the way, it stays where it
    /// was, and so does every other conversation.
    pub fn record(&mut self, conversation: i64, next: State, delivered: bool)
        ensures
            final(self)@ == if delivered {
                old(self)@.insert(conversation, next@)
            } else {
                old(self)@
            },
    {
        if delivered {
            self.set(conversation, next);
        }
    }
}

} // verus!
