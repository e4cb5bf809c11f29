//! The dialogue that leads a user from the main menu to a published listing.
//!
//! `transition` is the whole table: what each event does to a conversation in each state. The
//! functions below it compute that table, one per state, and `dispatch` picks among them.

use crate::backend::Submission;
use crate::event::{Event, EventView, Payload, PayloadView};
use crate::labels::{
    BUY_AND_SELL, CANCEL, CONFIRM, DONE_UPLOADING, EDIT_DESCRIPTION, HELP, LIST_MY_ITEMS,
    LIST_SOMETHING_NEW, MAIN_MENU, SEARCH_LISTINGS, START_AGAIN,
};
use crate::listing::{AddListing, AddListingView};
use crate::prompt::Prompt;
use crate::state::{State, StateView};
use crate::text::{same_text, texts};
use vstd::prelude::*;

verus! {

/// What the caller is to do about an event.
#[derive(Clone, Debug, PartialEq, Eq)]
pub enum Step {
    /// Send the prompts in order; once they are out the conversation is in `next`.
    Settled { next: State, prompts: Vec<Prompt> },
    /// Hand `listing` to the backend before anything is sent. Until `confirm_submitted` has
    /// seen the answer the conversation stays in `resume`.
    Submit { listing: AddListing, resume: State },
}

/// A step as a mathematical value.
pub enum StepView {
    Settled { next: StateView, prompts: Seq<Prompt> },
    Submit { listing: AddListingView, resume: StateView },
}

impl View for Step {
    type V = StepView;

    open spec fn view(&self) -> StepView {
        match *self {
            Step::Settled { next, prompts } => StepView::Settled { next: next@, prompts: prompts@ },
            Step::Submit { listing, resume } => StepView::Submit {
                listing: listing@,
                resume: resume@,
            },
        }
    }
}

/// Whether the event is a text message that reads exactly `label`.
pub open spec fn said(event: EventView, label: &str) -> bool {
    event.payload == PayloadView::Text(label@)
}

/// The step that shows the main menu and nothing else.
pub open spec fn show_menu() -> StepView {
    StepView::Settled { next: StateView::Menu, prompts: seq![Prompt::MainMenu] }
}

/// The step that sends `notice` and then shows the main menu.
pub open spec fn menu_after(notice: Prompt) -> StepView {
    StepView::Settled { next: StateView::Menu, prompts: seq![notice, Prompt::MainMenu] }
}

/// The step that starts a listing afresh, with no photos.
pub open spec fn ask_for_photos() -> StepView {
    StepView::Settled {
        next: StateView::SellSomething { photos: Seq::empty() },
        prompts: seq![Prompt::UploadPhotos],
    }
}

/// The step that asks for a description of the item shown in `photos`.
pub open spec fn ask_for_description(photos: Seq<Seq<char>>) -> StepView {
    StepView::Settled {
        next: StateView::AddDescription { photos },
        prompts: seq![Prompt::Describe],
    }
}

/// What becomes of an event that the state has no use for: the user is told, by the kind of
/// message sent, and the conversation returns to the main menu.
pub open spec fn fallback(event: EventView) -> StepView {
    match event.payload {
        PayloadView::Text(_) => menu_after(Prompt::UnknownOption),
        _ => menu_after(Prompt::Unexpected),
    }
}

/// The dialogue: the step taken when `event` arrives in a conversation that is in `state`.
///
/// The text "Main menu" leads to the main menu from every state. Otherwise each state
/// listens for its own options, and a state that was handed no rules leaves the conversation
/// as it is and says nothing.
pub open spec fn transition(state: StateView, event: EventView) -> StepView {
    if said(event, MAIN_MENU) {
        show_menu()
    } else {
        match state {
            StateView::Start => show_menu(),
            StateView::Menu => {
                if said(event, BUY_AND_SELL) {
                    StepView::Settled {
                        next: StateView::BuyAndSell,
                        prompts: seq![Prompt::BuyAndSellMenu],
                    }
                } else if said(event, HELP) {
                    StepView::Settled { next: StateView::Menu, prompts: seq![Prompt::Help] }
                } else {
                    menu_after(Prompt::UnknownOption)
                }
            },
            StateView::BuyAndSell => {
                if said(event, LIST_SOMETHING_NEW) {
                    ask_for_photos()
                } else if said(event, LIST_MY_ITEMS) {
                    StepView::Settled {
                        next: StateView::BuyAndSell,
                        prompts: seq![Prompt::ItemTutoring, Prompt::ItemCatSitting],
                    }
                } else if said(event, SEARCH_LISTINGS) {
                    menu_after(Prompt::ListingsLink)
                } else {
                    fallback(event)
                }
            },
            StateView::SellSomething { photos } => {
                if let PayloadView::Photo(reference) = event.payload {
                    StepView::Settled {
                        next: StateView::SellSomething { photos: photos.push(reference) },
                        prompts: Seq::empty(),
                    }
                } else if said(event, DONE_UPLOADING) {
                    ask_for_description(photos)
                } else if said(event, CANCEL) {
                    menu_after(Prompt::Cancelled)
                } else {
                    fallback(event)
                }
            },
            StateView::AddDescription { photos } => {
                if said(event, CANCEL) {
                    menu_after(Prompt::Cancelled)
                } else if let PayloadView::Text(description) = event.payload {
                    StepView::Settled {
                        next: StateView::Confirm { photos, description },
                        prompts: seq![Prompt::ConfirmOptions],
                    }
                } else {
                    fallback(event)
                }
            },
            StateView::Confirm { photos, description } => {
                if said(event, START_AGAIN) {
                    ask_for_photos()
                } else if said(event, EDIT_DESCRIPTION) {
                    ask_for_description(photos)
                } else if said(event, CANCEL) {
                    menu_after(Prompt::Cancelled)
                } else if said(event, CONFIRM) {
                    match event.sender {
                        Some(user) => StepView::Submit {
                            listing: AddListingView { user_telegram_id: user, description },
                            resume: state,
                        },
                        None => menu_after(Prompt::Published),
                    }
                } else {
                    fallback(event)
                }
            },
            StateView::AnonPoll { .. } => StepView::Settled {
                next: state,
                prompts: Seq::empty(),
            },
        }
    }
}

/// How a conversation goes on once the backend has answered a submission: the state it is
/// in from then on, and the prompts to send. If the backend took the listing, word of the
/// publication goes out and the main menu is shown; otherwise nothing is sent and the
/// conversation stays in `resume`.
pub open spec fn submitted(resume: StateView, answer: Submission) -> (StateView, Seq<Prompt>) {
    if answer.accepted() {
        (StateView::Menu, seq![Prompt::Published, Prompt::MainMenu])
    } else {
        (resume, Seq::empty())
    }
}

/// Whether the event is a text message that reads exactly `label`.
pub fn hears(event: &Event, label: &str) -> (heard: bool)
    ensures
        heard == said(event@, label),
{
    match &event.payload {
        Payload::Text(text) => same_text(text.as_str(), label),
        _ => false,
    }
}

/// The list that holds `prompt` and nothing else.
fn only(prompt: Prompt) -> (prompts: Vec<Prompt>)
    ensures
        prompts@ == seq![prompt],
{
    let prompts = vec![prompt];
    assert(prompts@ =~= seq![prompt]);
    prompts
}

/// Shows the main menu.
pub fn goto_menu() -> (step: Step)
    ensures
        step@ == show_menu(),
{
    Step::Settled { next: State::Menu, prompts: only(Prompt::MainMenu) }
}

/// Sends `notice`, then shows the main menu.
pub fn goto_menu_after(notice: Prompt) -> (step: Step)
    ensures
        step@ == menu_after(notice),
{
    Step::Settled { next: State::Menu, prompts: vec![notice, Prompt::MainMenu] }
}

/// Handles an event that the state has no use for.
pub fn default(event: &Event) -> (step: Step)
    ensures
        step@ == if said(event@, MAIN_MENU) {
            show_menu()
        } else {
            fallback(event@)
        },
{
    if hears(event, MAIN_MENU) {
        goto_menu()
    } else {
        match &event.payload {
            Payload::Text(_) => goto_menu_after(Prompt::UnknownOption),
            _ => goto_menu_after(Prompt::Unexpected),
        }
    }
}

/// Handles the first event of a conversation.
pub fn start(event: &Event) -> (step: Step)
    ensures
        step@ == transition(StateView::Start, event@),
{
    goto_menu()
}

/// Handles an event at the main menu.
pub fn menu(event: &Event) -> (step: Step)
    ensures
        step@ == transition(StateView::Menu, event@),
{
    if hears(event, MAIN_MENU) {
        goto_menu()
    } else if hears(event, BUY_AND_SELL) {
        Step::Settled { next: State::BuyAndSell, prompts: only(Prompt::BuyAndSellMenu) }
    } else if hears(event, HELP) {
        Step::Settled { next: State::Menu, prompts: only(Prompt::Help) }
    } else {
        goto_menu_after(Prompt::UnknownOption)
    }
}

/// Starts a listing afresh: asks for photos and holds none.
pub fn goto_sell_something() -> (step: Step)
    ensures
        step@ == ask_for_photos(),
{
    let step = Step::Settled {
        next: State::SellSomething { photos: Vec::new() },
        prompts: only(Prompt::UploadPhotos),
    };
    assert(texts(Seq::<String>::empty()) =~= Seq::<Seq<char>>::empty());
    step
}

/// Handles an event at the buy-and-sell submenu.
pub fn buy_and_sell(event: &Event) -> (step: Step)
    ensures
        step@ == transition(StateView::BuyAndSell, event@),
{
    if hears(event, MAIN_MENU) {
        goto_menu()
    } else if hears(event, LIST_SOMETHING_NEW) {
        goto_sell_something()
    } else if hears(event, LIST_MY_ITEMS) {
        Step::Settled {
            next: State::BuyAndSell,
            prompts: vec![Prompt::ItemTutoring, Prompt::ItemCatSitting],
        }
    } else if hears(event, SEARCH_LISTINGS) {
        goto_menu_after(Prompt::ListingsLink)
    } else {
        default(event)
    }
}

/// Asks for a description of the item shown in `photos`.
pub fn goto_edit_description(photos: Vec<String>) -> (step: Step)
    ensures
        step@ == ask_for_description(texts(photos@)),
{
    Step::Settled { next: State::AddDescription { photos }, prompts: only(Prompt::Describe) }
}

/// Handles an event while photos are coming in.
pub fn sell_something(photos: Vec<String>, event: Event) -> (step: Step)
    ensures
        step@ == transition(StateView::SellSomething { photos: texts(photos@) }, event@),
{
    if hears(&event, MAIN_MENU) {
        goto_menu()
    } else if hears(&event, DONE_UPLOADING) {
        goto_edit_description(photos)
    } else if hears(&event, CANCEL) {
        goto_menu_after(Prompt::Cancelled)
    } else {
        match event.payload {
            Payload::Photo(reference) => {
                let ghost before = photos@;
                let mut photos = photos;
                photos.push(reference);
                assert(texts(photos@) =~= texts(before).push(reference@));
                Step::Settled { next: State::SellSomething { photos }, prompts: Vec::new() }
            },
            _ => default(&event),
        }
    }
}

/// Handles an event while a description is awaited.
pub fn added_description(photos: Vec<String>, event: Event) -> (step: Step)
    ensures
        step@ == transition(StateView::AddDescription { photos: texts(photos@) }, event@),
{
    if hears(&event, MAIN_MENU) {
        goto_menu()
    } else if hears(&event, CANCEL) {
        goto_menu_after(Prompt::Cancelled)
    } else {
        match event.payload {
            Payload::Text(description) => Step::Settled {
                next: State::Confirm { photos, description },
                prompts: only(Prompt::ConfirmOptions),
            },
            _ => default(&event),
        }
    }
}

/// Handles an event while the user decides what to do with a finished listing.
pub fn confirm(photos: Vec<String>, description: String, event: Event) -> (step: Step)
    ensures
        step@ == transition(
            StateView::Confirm { photos: texts(photos@), description: description@ },
            event@,
        ),
{
    if hears(&event, MAIN_MENU) {
        goto_menu()
    } else if hears(&event, START_AGAIN) {
        goto_sell_something()
    } else if hears(&event, EDIT_DESCRIPTION) {
        goto_edit_description(photos)
    } else if hears(&event, CANCEL) {
        goto_menu_after(Prompt::Cancelled)
    } else if hears(&event, CONFIRM) {
        match event.sender {
            Some(user) => Step::Submit {
                listing: AddListing { user_telegram_id: user, description: description.clone() },
                resume: State::Confirm { photos, description },
            },
            None => goto_menu_after(Prompt::Published),
        }
    } else {
        default(&event)
    }
}

/// Decides how a conversation goes on once the backend has answered a submission: the state
/// it is in from then on, and the prompts to send in order.
pub fn confirm_submitted(resume: State, answer: Submission) -> (outcome: (State, Vec<Prompt>))
    ensures
        (outcome.0@, outcome.1@) == submitted(resume@, answer),
{
    if answer.accepted() {
        (State::Menu, vec![Prompt::Published, Prompt::MainMenu])
    } else {
        (resume, Vec::new())
    }
}

/// Decides what to do about `event` in a conversation that is in `state`.
pub fn dispatch(state: State, event: Event) -> (step: Step)
    ensures
        step@ == transition(state@, event@),
{
    match state {
        State::Start => start(&event),
        State::Menu => menu(&event),
        State::BuyAndSell => buy_and_sell(&event),
        State::SellSomething { photos } => sell_something(photos, event),
        State::AddDescription { photos } => added_description(photos, event),
        State::Confirm { photos, description } => confirm(photos, description, event),
        State::AnonPoll { question, selections } => {
            if hears(&event, MAIN_MENU) {
                goto_menu()
            } else {
                Step::Settled {
                    next: State::AnonPoll { question, selections },
                    prompts: Vec::new(),
                }
            }
        },
    }
}

} // verus!
