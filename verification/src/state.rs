//! The steps of a conversation and what each one has collected so far.

use crate::text::texts;
use vstd::prelude::*;

verus! {

/// Where a conversation stands.
#[derive(Debug, PartialEq, Eq)]
pub enum State {
    /// Nothing was heard from the conversation yet.
    Start,
    /// The main menu is on offer.
    Menu,
    /// The buy-and-sell submenu is on offer.
    BuyAndSell,
    /// Photos of the item are coming in; the list only grows.
    SellSomething { photos: Vec<String> },
    /// The photos are fixed and a description is awaited.
    AddDescription { photos: Vec<String> },
    /// Photos and description are in; the user decides what to do with them.
    Confirm { photos: Vec<String>, description: String },
    /// An anonymous poll under construction. No event leads here.
    AnonPoll { question: String, selections: Vec<String> },
}

/// A conversation's state as a mathematical value.
pub enum StateView {
    Start,
    Menu,
    BuyAndSell,
    SellSomething { photos: Seq<Seq<char>> },
    AddDescription { photos: Seq<Seq<char>> },
    Confirm { photos: Seq<Seq<char>>, description: Seq<char> },
    AnonPoll { question: Seq<char>, selections: Seq<Seq<char>> },
}

impl View for State {
    type V = StateView;

    open spec fn view(&self) -> StateView {
        match *self {
            State::Start => StateView::Start,
            State::Menu => StateView::Menu,
            State::BuyAndSell => StateView::BuyAndSell,
            State::SellSomething { photos } => StateView::SellSomething { photos: texts(photos@) },
            State::AddDescription { photos } => StateView::AddDescription { photos: texts(photos@) },
            State::Confirm { photos, description } => StateView::Confirm {
                photos: texts(photos@),
                description: description@,
            },
            State::AnonPoll { question, selections } => StateView::AnonPoll {
                question: question@,
                selections: texts(selections@),
            },
        }
    }
}

impl Default for State {
    /// A conversation that was never heard from is at `Start`.
    fn default() -> (state: State)
        ensures
            state@ == StateView::Start,
    {
        State::Start
    }
}

/// A copy of a list of strings.
pub fn copy_texts(v: &Vec<String>) -> (copy: Vec<String>)
    ensures
        texts(copy@) == texts(v@),
{
    let mut copy: Vec<String> = Vec::new();
    let mut i: usize = 0;
    while i < v.len()
        invariant
            i <= v.len(),
            copy.len() == i,
            forall|j: int| 0 <= j < i ==> copy@[j]@ == v@[j]@,
        decreases v.len() - i,
    {
        copy.push(v[i].clone());
        i += 1;
    }
    assert(texts(copy@) =~= texts(v@));
    copy
}

impl Clone for State {
    fn clone(&self) -> (copy: State)
        ensures
            copy@ == self@,
    {
        match self {
            State::Start => State::Start,
            State::Menu => State::Menu,
            State::BuyAndSell => State::BuyAndSell,
            State::SellSomething { photos } => State::SellSomething { photos: copy_texts(photos) },
            State::AddDescription { photos } => State::AddDescription {
                photos: copy_texts(photos),
            },
            State::Confirm { photos, description } => State::Confirm {
                photos: copy_texts(photos),
                description: description.clone(),
            },
            State::AnonPoll { question, selections } => State::AnonPoll {
                question: question.clone(),
                selections: copy_texts(selections),
            },
        }
    }
}

/// The steps of gathering a seller's particulars.
#[derive(Clone, Debug, PartialEq, Eq)]
pub enum StateBuyAndSell {
    Start,
    ReceiveFullName,
    ReceiveAge { full_name: String },
}

impl Default for StateBuyAndSell {
    fn default() -> (state: StateBuyAndSell)
        ensures
            state == StateBuyAndSell::Start,
    {
        StateBuyAndSell::Start
    }
}

} // verus!
