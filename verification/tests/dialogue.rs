use listing_bot::backend::Submission;
use listing_bot::dialogue::{
    added_description, buy_and_sell, confirm, confirm_submitted, dispatch, goto_edit_description,
    goto_menu, goto_menu_after, goto_sell_something, hears, menu, sell_something, start, Step,
};
use listing_bot::event::{Event, Payload};
use listing_bot::listing::AddListing;
use listing_bot::prompt::Prompt;
use listing_bot::state::State;

fn text(words: &str) -> Event {
    Event { conversation: 1, sender: Some(123), payload: Payload::Text(words.to_string()) }
}

fn photo(reference: &str) -> Event {
    Event { conversation: 1, sender: Some(123), payload: Payload::Photo(reference.to_string()) }
}

fn other() -> Event {
    Event { conversation: 1, sender: Some(123), payload: Payload::Unsupported }
}

fn refs(items: &[&str]) -> Vec<String> {
    items.iter().map(|item| item.to_string()).collect()
}

fn settled(next: State, prompts: Vec<Prompt>) -> Step {
    Step::Settled { next, prompts }
}

fn to_menu(prompts: Vec<Prompt>) -> Step {
    Step::Settled { next: State::Menu, prompts }
}

fn couch() -> State {
    State::Confirm { photos: refs(&["ref1", "ref2"]), description: "Free couch".to_string() }
}

fn every_state() -> Vec<State> {
    vec![
        State::Start,
        State::Menu,
        State::BuyAndSell,
        State::SellSomething { photos: refs(&["a"]) },
        State::AddDescription { photos: refs(&["a", "b"]) },
        couch(),
        State::AnonPoll { question: "Tea?".to_string(), selections: refs(&["yes", "no"]) },
    ]
}

#[test]
fn fresh_conversation_goes_to_the_menu_on_any_text() {
    assert_eq!(dispatch(State::default(), text("hello")), to_menu(vec![Prompt::MainMenu]));
    assert_eq!(dispatch(State::Start, text("")), to_menu(vec![Prompt::MainMenu]));
}

#[test]
fn fresh_conversation_goes_to_the_menu_on_anything() {
    assert_eq!(dispatch(State::Start, photo("p")), to_menu(vec![Prompt::MainMenu]));
    assert_eq!(dispatch(State::Start, other()), to_menu(vec![Prompt::MainMenu]));
    assert_eq!(start(&text("Help")), to_menu(vec![Prompt::MainMenu]));
}

#[test]
fn menu_opens_the_buy_and_sell_submenu() {
    let step = dispatch(State::Menu, text("Buy-and-Sell"));
    assert_eq!(step, settled(State::BuyAndSell, vec![Prompt::BuyAndSellMenu]));
    let reply = Prompt::BuyAndSellMenu.reply();
    assert_eq!(
        reply.markup,
        listing_bot::prompt::Markup::Keyboard(refs(&[
            "List something new",
            "List my items",
            "Search listings",
            "Main menu",
        ]))
    );
}

#[test]
fn menu_shows_help_and_stays() {
    assert_eq!(menu(&text("Help")), settled(State::Menu, vec![Prompt::Help]));
}

#[test]
fn menu_answers_anything_else_with_unknown_option() {
    let expected = to_menu(vec![Prompt::UnknownOption, Prompt::MainMenu]);
    assert_eq!(menu(&text("Anonymous poll")), expected);
    assert_eq!(menu(&text("help")), expected);
    assert_eq!(menu(&photo("p")), expected);
    assert_eq!(menu(&other()), expected);
}

#[test]
fn buy_and_sell_starts_a_listing_without_photos() {
    assert_eq!(
        buy_and_sell(&text("List something new")),
        settled(State::SellSomething { photos: vec![] }, vec![Prompt::UploadPhotos])
    );
    assert_eq!(goto_sell_something(), buy_and_sell(&text("List something new")));
}

#[test]
fn buy_and_sell_lists_the_items_and_stays() {
    assert_eq!(
        buy_and_sell(&text("List my items")),
        settled(State::BuyAndSell, vec![Prompt::ItemTutoring, Prompt::ItemCatSitting])
    );
}

#[test]
fn buy_and_sell_links_to_the_listings_and_returns_to_the_menu() {
    assert_eq!(
        buy_and_sell(&text("Search listings")),
        to_menu(vec![Prompt::ListingsLink, Prompt::MainMenu])
    );
}

#[test]
fn buy_and_sell_falls_back_on_anything_else() {
    assert_eq!(
        buy_and_sell(&text("Sell")),
        to_menu(vec![Prompt::UnknownOption, Prompt::MainMenu])
    );
    assert_eq!(buy_and_sell(&photo("p")), to_menu(vec![Prompt::Unexpected, Prompt::MainMenu]));
    assert_eq!(buy_and_sell(&other()), to_menu(vec![Prompt::Unexpected, Prompt::MainMenu]));
}

#[test]
fn photo_is_appended_in_silence() {
    assert_eq!(
        sell_something(refs(&["a"]), photo("b")),
        settled(State::SellSomething { photos: refs(&["a", "b"]) }, vec![])
    );
}

#[test]
fn uploads_keep_their_order_of_arrival() {
    let names: Vec<String> = (0..20u32).map(|n| format!("photo-{}", n)).collect();
    let mut state = State::SellSomething { photos: vec![] };
    for name in &names {
        state = match dispatch(state, photo(name)) {
            Step::Settled { next, prompts } => {
                assert!(prompts.is_empty());
                next
            }
            Step::Submit { .. } => panic!("an upload submits nothing"),
        };
    }
    assert_eq!(state, State::SellSomething { photos: names });
}

#[test]
fn two_photos_then_done_uploading() {
    let first = dispatch(State::SellSomething { photos: vec![] }, photo("ref1"));
    let Step::Settled { next, .. } = first else { panic!("settled") };
    let second = dispatch(next, photo("ref2"));
    let Step::Settled { next, .. } = second else { panic!("settled") };
    assert_eq!(
        dispatch(next, text("Done uploading")),
        settled(State::AddDescription { photos: refs(&["ref1", "ref2"]) }, vec![Prompt::Describe])
    );
}

#[test]
fn done_uploading_is_taken_without_any_photo() {
    assert_eq!(
        sell_something(vec![], text("Done uploading")),
        settled(State::AddDescription { photos: vec![] }, vec![Prompt::Describe])
    );
}

#[test]
fn sell_something_falls_back_on_anything_else() {
    assert_eq!(
        sell_something(refs(&["a"]), text("done")),
        to_menu(vec![Prompt::UnknownOption, Prompt::MainMenu])
    );
    assert_eq!(
        sell_something(refs(&["a"]), other()),
        to_menu(vec![Prompt::Unexpected, Prompt::MainMenu])
    );
}

#[test]
fn any_other_text_is_the_description() {
    assert_eq!(
        added_description(refs(&["a"]), text("Free couch")),
        settled(
            State::Confirm { photos: refs(&["a"]), description: "Free couch".to_string() },
            vec![Prompt::ConfirmOptions]
        )
    );
    assert_eq!(
        added_description(vec![], text("Confirm")),
        settled(
            State::Confirm { photos: vec![], description: "Confirm".to_string() },
            vec![Prompt::ConfirmOptions]
        )
    );
}

#[test]
fn main_menu_is_no_description() {
    assert_eq!(added_description(refs(&["a"]), text("Main menu")), to_menu(vec![Prompt::MainMenu]));
}

#[test]
fn added_description_falls_back_on_what_is_no_text() {
    let expected = to_menu(vec![Prompt::Unexpected, Prompt::MainMenu]);
    assert_eq!(added_description(refs(&["a"]), photo("b")), expected);
    assert_eq!(added_description(refs(&["a"]), other()), expected);
}

#[test]
fn cancel_leads_to_the_menu_wherever_it_is_offered() {
    let expected = to_menu(vec![Prompt::Cancelled, Prompt::MainMenu]);
    assert_eq!(sell_something(refs(&["a"]), text("Cancel")), expected);
    assert_eq!(added_description(refs(&["a"]), text("Cancel")), expected);
    assert_eq!(dispatch(couch(), text("Cancel")), expected);
}

#[test]
fn main_menu_leads_to_the_menu_from_every_state() {
    for state in every_state() {
        assert_eq!(dispatch(state, text("Main menu")), to_menu(vec![Prompt::MainMenu]));
    }
}

#[test]
fn start_again_drops_the_photos() {
    assert_eq!(
        dispatch(couch(), text("Start again")),
        settled(State::SellSomething { photos: vec![] }, vec![Prompt::UploadPhotos])
    );
}

#[test]
fn edit_description_keeps_the_photos() {
    assert_eq!(
        dispatch(couch(), text("Edit description")),
        settled(State::AddDescription { photos: refs(&["ref1", "ref2"]) }, vec![Prompt::Describe])
    );
    assert_eq!(
        goto_edit_description(refs(&["ref1", "ref2"])),
        dispatch(couch(), text("Edit description"))
    );
}

#[test]
fn confirm_submits_the_listing_without_the_photos() {
    let step = dispatch(couch(), text("Confirm"));
    assert_eq!(
        step,
        Step::Submit {
            listing: AddListing { user_telegram_id: 123, description: "Free couch".to_string() },
            resume: couch(),
        }
    );
}

#[test]
fn accepted_submission_is_published() {
    let Step::Submit { resume, .. } = dispatch(couch(), text("Confirm")) else {
        panic!("a submission")
    };
    assert_eq!(
        confirm_submitted(resume, Submission::Answered { status: 200 }),
        (State::Menu, vec![Prompt::Published, Prompt::MainMenu])
    );
}

#[test]
fn failed_submission_leaves_the_listing_up_for_confirmation() {
    assert_eq!(confirm_submitted(couch(), Submission::Unreachable), (couch(), vec![]));
    assert_eq!(
        confirm_submitted(couch(), Submission::Answered { status: 500 }),
        (couch(), vec![])
    );
}

#[test]
fn confirm_without_a_sender_submits_nothing() {
    let event = Event { conversation: 1, sender: None, payload: Payload::Text("Confirm".to_string()) };
    assert_eq!(
        confirm(refs(&["a"]), "Bike".to_string(), event),
        to_menu(vec![Prompt::Published, Prompt::MainMenu])
    );
}

#[test]
fn confirm_falls_back_on_anything_else() {
    assert_eq!(
        dispatch(couch(), text("confirm")),
        to_menu(vec![Prompt::UnknownOption, Prompt::MainMenu])
    );
    assert_eq!(dispatch(couch(), photo("p")), to_menu(vec![Prompt::Unexpected, Prompt::MainMenu]));
}

#[test]
fn poll_is_left_alone() {
    let poll = State::AnonPoll { question: "Tea?".to_string(), selections: refs(&["yes"]) };
    assert_eq!(dispatch(poll.clone(), text("yes")), settled(poll.clone(), vec![]));
    assert_eq!(dispatch(poll.clone(), photo("p")), settled(poll.clone(), vec![]));
    assert_eq!(dispatch(poll.clone(), other()), settled(poll, vec![]));
}

#[test]
fn fallback_tells_text_from_the_rest() {
    assert_eq!(listing_bot::dialogue::default(&text("Main menu")), to_menu(vec![Prompt::MainMenu]));
    assert_eq!(listing_bot::dialogue::default(&text("what")), to_menu(vec![Prompt::UnknownOption, Prompt::MainMenu]));
    assert_eq!(listing_bot::dialogue::default(&photo("p")), to_menu(vec![Prompt::Unexpected, Prompt::MainMenu]));
    assert_eq!(listing_bot::dialogue::default(&other()), to_menu(vec![Prompt::Unexpected, Prompt::MainMenu]));
}

#[test]
fn menu_steps() {
    assert_eq!(goto_menu(), to_menu(vec![Prompt::MainMenu]));
    assert_eq!(goto_menu_after(Prompt::Cancelled), to_menu(vec![Prompt::Cancelled, Prompt::MainMenu]));
}

#[test]
fn hears_only_the_exact_text() {
    assert!(hears(&text("Cancel"), "Cancel"));
    assert!(!hears(&text("Cancel "), "Cancel"));
    assert!(!hears(&text("cancel"), "Cancel"));
    assert!(!hears(&photo("Cancel"), "Cancel"));
    assert!(!hears(&other(), ""));
}
