//! What the bot says: each prompt's wording and the keyboard that goes with it.

use crate::labels::{
    ANONYMOUS_POLL, BUY_AND_SELL, CANCEL, CONFIRM, DONE_UPLOADING, EDIT_DESCRIPTION, HELP,
    INVITE_SOMEONE, LIST_MY_ITEMS, LIST_SOMETHING_NEW, MAIN_MENU, REMOVE, SEARCH_LISTINGS,
    START_AGAIN,
};
use crate::text::texts;
use vstd::prelude::*;

verus! {

/// A button under a message; pressing it sends `data` back.
#[derive(Clone, Debug, PartialEq, Eq)]
pub struct InlineButton {
    pub text: String,
    pub data: String,
}

/// An inline button as a mathematical value.
pub struct InlineButtonView {
    pub text: Seq<char>,
    pub data: Seq<char>,
}

impl View for InlineButton {
    type V = InlineButtonView;

    open spec fn view(&self) -> InlineButtonView {
        InlineButtonView { text: self.text@, data: self.data@ }
    }
}

/// What a reply does to the buttons the user sees.
#[derive(Clone, Debug, PartialEq, Eq)]
pub enum Markup {
    /// Nothing: the reply is text alone.
    Plain,
    /// Show one row of reply buttons with these labels, sized to fit.
    Keyboard(Vec<String>),
    /// Take the reply buttons away.
    RemoveKeyboard,
    /// Attach rows of inline buttons to the reply.
    Inline(Vec<Vec<InlineButton>>),
}

/// A markup as a mathematical value.
pub enum MarkupView {
    Plain,
    Keyboard(Seq<Seq<char>>),
    RemoveKeyboard,
    Inline(Seq<Seq<InlineButtonView>>),
}

/// The rows of `rows`, each button as a mathematical value.
pub open spec fn rows_of(rows: Seq<Vec<InlineButton>>) -> Seq<Seq<InlineButtonView>> {
    Seq::new(rows.len(), |i: int| Seq::new(rows[i]@.len(), |j: int| rows[i]@[j]@))
}

impl View for Markup {
    type V = MarkupView;

    open spec fn view(&self) -> MarkupView {
        match *self {
            Markup::Plain => MarkupView::Plain,
            Markup::Keyboard(labels) => MarkupView::Keyboard(texts(labels@)),
            Markup::RemoveKeyboard => MarkupView::RemoveKeyboard,
            Markup::Inline(rows) => MarkupView::Inline(rows_of(rows@)),
        }
    }
}

/// One outbound message.
#[derive(Clone, Debug, PartialEq, Eq)]
pub struct Reply {
    pub text: String,
    pub markup: Markup,
}

/// An outbound message as a mathematical value.
pub struct ReplyView {
    pub text: Seq<char>,
    pub markup: MarkupView,
}

impl View for Reply {
    type V = ReplyView;

    open spec fn view(&self) -> ReplyView {
        ReplyView { text: self.text@, markup: self.markup@ }
    }
}

/// The labels of `items` in order.
pub open spec fn item_labels(items: Seq<&str>) -> Seq<Seq<char>> {
    Seq::new(items.len(), |i: int| items[i]@)
}

/// A reply keyboard of one row with a button for each of `items`, in their order.
pub fn keyboard(items: Vec<&str>) -> (markup: Markup)
    ensures
        markup@ == MarkupView::Keyboard(item_labels(items@)),
{
    let mut labels: Vec<String> = Vec::new();
    let mut i: usize = 0;
    while i < items.len()
        invariant
            i <= items.len(),
            labels.len() == i,
            forall|j: int| 0 <= j < i ==> labels@[j]@ == items@[j]@,
        decreases items.len() - i,
    {
        let item: &str = items[i];
        labels.push(item.to_owned());
        i += 1;
    }
    assert(texts(labels@) =~= item_labels(items@));
    Markup::Keyboard(labels)
}

/// The one button under a listed item.
pub open spec fn remove_button() -> InlineButtonView {
    InlineButtonView { text: REMOVE@, data: REMOVE@ }
}

/// The inline keyboard under each of the user's items: a single button that asks for its
/// removal.
pub fn make_delete_keyboard() -> (markup: Markup)
    ensures
        markup@ == MarkupView::Inline(seq![seq![remove_button()]]),
{
    let mut row: Vec<InlineButton> = Vec::new();
    row.push(InlineButton { text: REMOVE.to_owned(), data: REMOVE.to_owned() });
    let mut rows: Vec<Vec<InlineButton>> = Vec::new();
    rows.push(row);
    assert(rows_of(rows@) =~= seq![seq![remove_button()]]) by {
        assert(rows_of(rows@)[0] =~= seq![remove_button()]);
    }
    Markup::Inline(rows)
}

/// The messages the dialogue can send.
#[derive(Clone, Copy, Debug, PartialEq, Eq)]
pub enum Prompt {
    /// The main menu with its five options.
    MainMenu,
    /// The buy-and-sell submenu with its four options.
    BuyAndSellMenu,
    /// Where to read more.
    Help,
    /// The text was none of the options on offer.
    UnknownOption,
    /// The message was neither text nor anything else awaited.
    Unexpected,
    /// The request to upload photos.
    UploadPhotos,
    /// The first of the user's items, with a button to remove it.
    ItemTutoring,
    /// The second of the user's items, with a button to remove it.
    ItemCatSitting,
    /// Where all active listings can be searched.
    ListingsLink,
    /// The listing under way was dropped.
    Cancelled,
    /// The request for a description.
    Describe,
    /// The choice between publishing, editing, starting over and dropping.
    ConfirmOptions,
    /// The listing went out.
    Published,
}

impl Prompt {
    /// The wording of the prompt.
    pub open spec fn spec_text(self) -> Seq<char> {
        match self {
            Prompt::MainMenu => "Main menu"@,
            Prompt::BuyAndSellMenu => "Would you like to:"@,
            Prompt::Help => "Please read more at welgevonden.dev"@,
            Prompt::UnknownOption => "Unknown option"@,
            Prompt::Unexpected => "Did not expect this..."@,
            Prompt::UploadPhotos => "Upload some photos. You can add more than one photo for a single listing. Click 'Done' once finished"@,
            Prompt::ItemTutoring => "Tutoring"@,
            Prompt::ItemCatSitting => "Cat sitting"@,
            Prompt::ListingsLink => "You can see and search all active listings at http://welgevonden.dev/listings"@,
            Prompt::Cancelled => "Cancelled"@,
            Prompt::Describe => "Give a description. Remeber to include the price."@,
            Prompt::ConfirmOptions => "Would you like to publish this?"@,
            Prompt::Published => "Published! Check the Buy-and-sell channel"@,
        }
    }

    /// The buttons that go with the prompt.
    pub open spec fn spec_markup(self) -> MarkupView {
        match self {
            Prompt::MainMenu => MarkupView::Keyboard(
                seq![BUY_AND_SELL@, ANONYMOUS_POLL@, INVITE_SOMEONE@, HELP@, MAIN_MENU@],
            ),
            Prompt::BuyAndSellMenu => MarkupView::Keyboard(
                seq![LIST_SOMETHING_NEW@, LIST_MY_ITEMS@, SEARCH_LISTINGS@, MAIN_MENU@],
            ),
            Prompt::UploadPhotos => MarkupView::Keyboard(seq![DONE_UPLOADING@, CANCEL@]),
            Prompt::ItemTutoring | Prompt::ItemCatSitting => MarkupView::Inline(
                seq![seq![remove_button()]],
            ),
            Prompt::Describe => MarkupView::RemoveKeyboard,
            Prompt::ConfirmOptions => MarkupView::Keyboard(
                seq![CONFIRM@, EDIT_DESCRIPTION@, START_AGAIN@, CANCEL@],
            ),
            Prompt::Help
            | Prompt::UnknownOption
            | Prompt::Unexpected
            | Prompt::ListingsLink
            | Prompt::Cancelled
            | Prompt::Published => MarkupView::Plain,
        }
    }

    /// The message that carries the prompt.
    pub open spec fn spec_reply(self) -> ReplyView {
        ReplyView { text: self.spec_text(), markup: self.spec_markup() }
    }

    /// The wording of the prompt.
    pub fn text(self) -> (text: String)
        ensures
            text@ == self.spec_text(),
    {
        match self {
            Prompt::MainMenu => "Main menu".to_owned(),
            Prompt::BuyAndSellMenu => "Would you like to:".to_owned(),
            Prompt::Help => "Please read more at welgevonden.dev".to_owned(),
            Prompt::UnknownOption => "Unknown option".to_owned(),
            Prompt::Unexpected => "Did not expect this...".to_owned(),
            Prompt::UploadPhotos => "Upload some photos. You can add more than one photo for a single listing. Click 'Done' once finished".to_owned(),
            Prompt::ItemTutoring => "Tutoring".to_owned(),
            Prompt::ItemCatSitting => "Cat sitting".to_owned(),
            Prompt::ListingsLink => "You can see and search all active listings at http://welgevonden.dev/listings".to_owned(),
            Prompt::Cancelled => "Cancelled".to_owned(),
            Prompt::Describe => "Give a description. Remeber to include the price.".to_owned(),
            Prompt::ConfirmOptions => "Would you like to publish this?".to_owned(),
            Prompt::Published => "Published! Check the Buy-and-sell channel".to_owned(),
        }
    }

    /// The buttons that go with the prompt.
    pub fn markup(self) -> (markup: Markup)
        ensures
            markup@ == self.spec_markup(),
    {
        match self {
            Prompt::MainMenu => {
                let items = vec![BUY_AND_SELL, ANONYMOUS_POLL, INVITE_SOMEONE, HELP, MAIN_MENU];
                assert(item_labels(items@) =~= seq![
                    BUY_AND_SELL@,
                    ANONYMOUS_POLL@,
                    INVITE_SOMEONE@,
                    HELP@,
                    MAIN_MENU@,
                ]);
                keyboard(items)
            },
            Prompt::BuyAndSellMenu => {
                let items = vec![LIST_SOMETHING_NEW, LIST_MY_ITEMS, SEARCH_LISTINGS, MAIN_MENU];
                assert(item_labels(items@) =~= seq![
                    LIST_SOMETHING_NEW@,
                    LIST_MY_ITEMS@,
                    SEARCH_LISTINGS@,
                    MAIN_MENU@,
                ]);
                keyboard(items)
            },
            Prompt::UploadPhotos => {
                let items = vec![DONE_UPLOADING, CANCEL];
                assert(item_labels(items@) =~= seq![DONE_UPLOADING@, CANCEL@]);
                keyboard(items)
            },
            Prompt::ItemTutoring | Prompt::ItemCatSitting => make_delete_keyboard(),
            Prompt::Describe => Markup::RemoveKeyboard,
            Prompt::ConfirmOptions => {
                let items = vec![CONFIRM, EDIT_DESCRIPTION, START_AGAIN, CANCEL];
                assert(item_labels(items@) =~= seq![
                    CONFIRM@,
                    EDIT_DESCRIPTION@,
                    START_AGAIN@,
                    CANCEL@,
                ]);
                keyboard(items)
            },
            Prompt::Help
            | Prompt::UnknownOption
            | Prompt::Unexpected
            | Prompt::ListingsLink
            | Prompt::Cancelled
            | Prompt::Published => Markup::Plain,
        }
    }

    /// The message that carries the prompt.
    pub fn reply(self) -> (reply: Reply)
        ensures
            reply@ == self.spec_reply(),
    {
        Reply { text: self.text(), markup: self.markup() }
    }
}

} // verus!
