//! Answering the press of an inline button.
//!
//! A press is answered on its own: no conversation's state is read or changed.

use vstd::prelude::*;
use vstd::string::StringExecFns;

verus! {

/// The message a pressed button hangs under, as far as the bot can still reach it.
#[derive(Clone, Debug, PartialEq, Eq)]
pub struct Origin {
    /// The text of the message, if it has one.
    pub text: Option<String>,
}

/// The press of an inline button.
#[derive(Clone, Debug, PartialEq, Eq)]
pub struct ButtonPress {
    /// What the button sends back, if anything. The answer to the press does not depend on it.
    pub data: Option<String>,
    /// The message the button hangs under, if the bot can still reach it.
    pub message: Option<Origin>,
    /// The identifier of the message, if it was sent through inline mode.
    pub inline_message_id: Option<String>,
}

/// What the transport is asked to do about a press.
#[derive(Clone, Debug, PartialEq, Eq)]
pub enum CallbackAction {
    /// Tell the client that the press was seen.
    Acknowledge,
    /// Replace the text of the message the button hangs under.
    EditMessage { text: String },
    /// Replace the text of the inline message with this identifier.
    EditInline { id: String, text: String },
}

/// A text that may be missing, as a mathematical value.
pub open spec fn text_of(text: Option<String>) -> Option<Seq<char>> {
    match text {
        Some(text) => Some(text@),
        None => None,
    }
}

/// A press as a mathematical value. `message` is `Some` where the bot can reach the message,
/// and holds that message's text.
pub struct ButtonPressView {
    pub data: Option<Seq<char>>,
    pub message: Option<Option<Seq<char>>>,
    pub inline_message_id: Option<Seq<char>>,
}

impl View for ButtonPress {
    type V = ButtonPressView;

    open spec fn view(&self) -> ButtonPressView {
        ButtonPressView {
            data: text_of(self.data),
            message: match self.message {
                Some(origin) => Some(text_of(origin.text)),
                None => None,
            },
            inline_message_id: text_of(self.inline_message_id),
        }
    }
}

/// An action as a mathematical value.
pub enum CallbackActionView {
    Acknowledge,
    EditMessage { text: Seq<char> },
    EditInline { id: Seq<char>, text: Seq<char> },
}

impl View for CallbackAction {
    type V = CallbackActionView;

    open spec fn view(&self) -> CallbackActionView {
        match *self {
            CallbackAction::Acknowledge => CallbackActionView::Acknowledge,
            CallbackAction::EditMessage { text } => CallbackActionView::EditMessage { text: text@ },
            CallbackAction::EditInline { id, text } => CallbackActionView::EditInline {
                id: id@,
                text: text@,
            },
        }
    }
}

/// The actions of `actions` in order, each as a mathematical value.
pub open spec fn actions_of(actions: Seq<CallbackAction>) -> Seq<CallbackActionView> {
    Seq::new(actions.len(), |i: int| actions[i]@)
}

/// The edit that follows the acknowledgement, if any. A message within reach is rewritten to
/// say that it was removed, provided it has a text; failing such a message, an inline message
/// is rewritten to "error".
pub open spec fn edit_for(press: ButtonPressView) -> Seq<CallbackActionView> {
    match press.message {
        Some(Some(content)) => seq![CallbackActionView::EditMessage { text: "Removed: "@ + content }],
        Some(None) => Seq::empty(),
        None => match press.inline_message_id {
            Some(id) => seq![CallbackActionView::EditInline { id, text: "error"@ }],
            None => Seq::empty(),
        },
    }
}

/// What is done about a press: it is acknowledged, always and first, and then the message is
/// edited as `edit_for` says. What the button sent back plays no part.
pub open spec fn answer(press: ButtonPressView) -> Seq<CallbackActionView> {
    seq![CallbackActionView::Acknowledge] + edit_for(press)
}

/// Decides what to do about the press of an inline button.
pub fn callback_handler(press: &ButtonPress) -> (actions: Vec<CallbackAction>)
    ensures
        actions_of(actions@) == answer(press@),
        actions@.len() >= 1,
        actions@[0] == CallbackAction::Acknowledge,
        forall|i: int| 1 <= i < actions@.len() ==> actions@[i] != CallbackAction::Acknowledge,
{
    let mut actions: Vec<CallbackAction> = Vec::new();
    actions.push(CallbackAction::Acknowledge);
    match &press.message {
        Some(origin) => {
            match &origin.text {
                Some(content) => {
                    let text = "Removed: ".to_owned().concat(content.as_str());
                    actions.push(CallbackAction::EditMessage { text });
                },
                None => {},
            }
        },
        None => {
            match &press.inline_message_id {
                Some(id) => {
                    actions.push(
                        CallbackAction::EditInline { id: id.clone(), text: "error".to_owned() },
                    );
                },
                None => {},
            }
        },
    }
    assert(actions_of(actions@) =~= answer(press@));
    actions
}

} // verus!
