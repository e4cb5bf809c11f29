use listing_bot::labels;
use listing_bot::prompt::{keyboard, make_delete_keyboard, InlineButton, Markup, Prompt, Reply};
use listing_bot::text::same_text;

fn labels_of(items: &[&str]) -> Vec<String> {
    items.iter().map(|item| item.to_string()).collect()
}

#[test]
fn main_menu_offers_five_options() {
    assert_eq!(
        Prompt::MainMenu.reply(),
        Reply {
            text: "Main menu".to_string(),
            markup: Markup::Keyboard(labels_of(&[
                "Buy-and-Sell",
                "Anonymous poll",
                "Invite someone",
                "Help",
                "Main menu",
            ])),
        }
    );
}

#[test]
fn submenu_offers_four_options() {
    assert_eq!(Prompt::BuyAndSellMenu.text(), "Would you like to:");
    assert_eq!(
        Prompt::BuyAndSellMenu.markup(),
        Markup::Keyboard(labels_of(&[
            "List something new",
            "List my items",
            "Search listings",
            "Main menu",
        ]))
    );
}

#[test]
fn upload_prompt_offers_done_and_cancel() {
    assert_eq!(
        Prompt::UploadPhotos.reply(),
        Reply {
            text: "Upload some photos. You can add more than one photo for a single listing. Click 'Done' once finished".to_string(),
            markup: Markup::Keyboard(labels_of(&["Done uploading", "Cancel"])),
        }
    );
}

#[test]
fn description_prompt_takes_the_keyboard_away() {
    assert_eq!(
        Prompt::Describe.reply(),
        Reply {
            text: "Give a description. Remeber to include the price.".to_string(),
            markup: Markup::RemoveKeyboard,
        }
    );
}

#[test]
fn confirmation_offers_four_options() {
    assert_eq!(
        Prompt::ConfirmOptions.reply(),
        Reply {
            text: "Would you like to publish this?".to_string(),
            markup: Markup::Keyboard(labels_of(&[
                "Confirm",
                "Edit description",
                "Start again",
                "Cancel",
            ])),
        }
    );
}

#[test]
fn items_carry_a_remove_button() {
    let remove = Markup::Inline(vec![vec![InlineButton {
        text: "Remove".to_string(),
        data: "Remove".to_string(),
    }]]);
    assert_eq!(make_delete_keyboard(), remove);
    assert_eq!(Prompt::ItemTutoring.reply(), Reply { text: "Tutoring".to_string(), markup: remove.clone() });
    assert_eq!(Prompt::ItemCatSitting.reply(), Reply { text: "Cat sitting".to_string(), markup: remove });
}

#[test]
fn plain_prompts() {
    let plain = [
        (Prompt::Help, "Please read more at welgevonden.dev"),
        (Prompt::UnknownOption, "Unknown option"),
        (Prompt::Unexpected, "Did not expect this..."),
        (
            Prompt::ListingsLink,
            "You can see and search all active listings at http://welgevonden.dev/listings",
        ),
        (Prompt::Cancelled, "Cancelled"),
        (Prompt::Published, "Published! Check the Buy-and-sell channel"),
    ];
    for (prompt, text) in plain {
        assert_eq!(prompt.reply(), Reply { text: text.to_string(), markup: Markup::Plain });
    }
}

#[test]
fn keyboard_keeps_the_items_in_order() {
    assert_eq!(keyboard(vec!["b", "a", "b"]), Markup::Keyboard(labels_of(&["b", "a", "b"])));
    assert_eq!(keyboard(vec![]), Markup::Keyboard(vec![]));
}

#[test]
fn labels_read_as_the_dialogue_expects() {
    assert_eq!(labels::BUY_AND_SELL, "Buy-and-Sell");
    assert_eq!(labels::ANONYMOUS_POLL, "Anonymous poll");
    assert_eq!(labels::INVITE_SOMEONE, "Invite someone");
    assert_eq!(labels::HELP, "Help");
    assert_eq!(labels::MAIN_MENU, "Main menu");
    assert_eq!(labels::LIST_SOMETHING_NEW, "List something new");
    assert_eq!(labels::LIST_MY_ITEMS, "List my items");
    assert_eq!(labels::SEARCH_LISTINGS, "Search listings");
    assert_eq!(labels::DONE_UPLOADING, "Done uploading");
    assert_eq!(labels::CANCEL, "Cancel");
    assert_eq!(labels::CONFIRM, "Confirm");
    assert_eq!(labels::EDIT_DESCRIPTION, "Edit description");
    assert_eq!(labels::START_AGAIN, "Start again");
    assert_eq!(labels::REMOVE, "Remove");
}

#[test]
fn same_text_compares_characters() {
    assert!(same_text("", ""));
    assert!(same_text("Main menu", "Main menu"));
    assert!(!same_text("Main menu", "Main menu "));
    assert!(!same_text("Main menu", "Main meny"));
    assert!(!same_text("a", ""));
    assert!(same_text("prix: 5 €", "prix: 5 €"));
    assert!(!same_text("é", "e"));
}
