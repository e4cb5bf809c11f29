//! What holds of the dialogue whatever the conversation has been through.

use crate::dialogue::{transition, StepView};
use crate::event::{EventView, PayloadView};
use crate::labels::{CANCEL, DONE_UPLOADING, EDIT_DESCRIPTION, MAIN_MENU, START_AGAIN};
use crate::prompt::Prompt;
use crate::state::StateView;
use vstd::prelude::*;

verus! {

/// The labels that the laws below tell apart differ from one another.
proof fn labels_differ()
    ensures
        MAIN_MENU@ != CANCEL@,
        MAIN_MENU@ != START_AGAIN@,
        MAIN_MENU@ != EDIT_DESCRIPTION@,
        DONE_UPLOADING@ != CANCEL@,
        START_AGAIN@ != CANCEL@,
        START_AGAIN@ != EDIT_DESCRIPTION@,
        EDIT_DESCRIPTION@ != CANCEL@,
{
    reveal_strlit("Main menu");
    reveal_strlit("Cancel");
    reveal_strlit("Start again");
    reveal_strlit("Edit description");
    reveal_strlit("Done uploading");
    assert(MAIN_MENU@.len() == 9);
    assert(CANCEL@.len() == 6);
    assert(START_AGAIN@.len() == 11);
    assert(EDIT_DESCRIPTION@.len() == 16);
    assert(DONE_UPLOADING@.len() == 14);
}

/// The text "Main menu" leads to the main menu from every state, whatever the state holds,
/// and nothing but the menu is shown.
pub proof fn main_menu_from_every_state(state: StateView, event: EventView)
    requires
        event.payload == PayloadView::Text(MAIN_MENU@),
    ensures
        transition(state, event) == (StepView::Settled {
            next: StateView::Menu,
            prompts: seq![Prompt::MainMenu],
        }),
{
}

/// In each state that offers "Cancel" (photos coming in, description awaited, listing up
/// for confirmation) the text "Cancel" says so and leads to the main menu.
pub proof fn cancel_returns_to_menu(state: StateView, event: EventView)
    requires
        state is SellSomething || state is AddDescription || state is Confirm,
        event.payload == PayloadView::Text(CANCEL@),
    ensures
        transition(state, event) == (StepView::Settled {
            next: StateView::Menu,
            prompts: seq![Prompt::Cancelled, Prompt::MainMenu],
        }),
{
    labels_differ();
}

/// "Start again" on a finished listing asks for photos anew and keeps none of those
/// collected before.
pub proof fn start_again_discards_photos(
    photos: Seq<Seq<char>>,
    description: Seq<char>,
    event: EventView,
)
    requires
        event.payload == PayloadView::Text(START_AGAIN@),
    ensures
        transition(StateView::Confirm { photos, description }, event) == (StepView::Settled {
            next: StateView::SellSomething { photos: Seq::empty() },
            prompts: seq![Prompt::UploadPhotos],
        }),
{
    labels_differ();
}

/// "Edit description" on a finished listing asks for the description again and keeps the
/// photos as they are.
pub proof fn edit_description_keeps_photos(
    photos: Seq<Seq<char>>,
    description: Seq<char>,
    event: EventView,
)
    requires
        event.payload == PayloadView::Text(EDIT_DESCRIPTION@),
    ensures
        transition(StateView::Confirm { photos, description }, event) == (StepView::Settled {
            next: StateView::AddDescription { photos },
            prompts: seq![Prompt::Describe],
        }),
{
    labels_differ();
}

/// The state a conversation reaches from `state` when `events` arrive one after the other and
/// every reply goes out. `None` where one of them hands a listing to the backend: how the
/// conversation goes on from there is for the backend's answer to say.
pub open spec fn replay(state: StateView, events: Seq<EventView>) -> Option<StateView>
    decreases events.len(),
{
    if events.len() == 0 {
        Some(state)
    } else {
        match transition(state, events[0]) {
            StepView::Settled { next, .. } => replay(next, events.drop_first()),
            StepView::Submit { .. } => None,
        }
    }
}

/// The references of the photos that `events` carry, in their order.
pub open spec fn references(events: Seq<EventView>) -> Seq<Seq<char>> {
    Seq::new(events.len(), |i: int| events[i].payload->Photo_0)
}

/// While photos are coming in, a run of uploads adds each photo's reference to the end of
/// the list, in the order of arrival, and changes nothing else: after N uploads into an empty
/// list it holds exactly those N references.
pub proof fn uploads_accumulate(photos: Seq<Seq<char>>, events: Seq<EventView>)
    requires
        forall|i: int| 0 <= i < events.len() ==> events[i].payload is Photo,
    ensures
        replay(StateView::SellSomething { photos }, events) == Some(
            StateView::SellSomething { photos: photos + references(events) },
        ),
        (photos + references(events)).len() == photos.len() + events.len(),
    decreases events.len(),
{
    reveal_strlit("Main menu");
    if events.len() == 0 {
        assert(photos + references(events) =~= photos);
    } else {
        let first = events[0].payload->Photo_0;
        let rest = events.drop_first();
        assert(transition(StateView::SellSomething { photos }, events[0]) == (
            StepView::Settled {
                next: StateView::SellSomething { photos: photos.push(first) },
                prompts: Seq::empty(),
            }
        ));
        uploads_accumulate(photos.push(first), rest);
        assert(photos.push(first) + references(rest) =~= photos + references(events));
    }
}

} // verus!
