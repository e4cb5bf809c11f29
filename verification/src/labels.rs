//! The button labels that the keyboards offer and the dialogue listens for.

use vstd::prelude::*;

verus! {

pub const BUY_AND_SELL: &'static str = "Buy-and-Sell";

pub const ANONYMOUS_POLL: &'static str = "Anonymous poll";

pub const INVITE_SOMEONE: &'static str = "Invite someone";

pub const HELP: &'static str = "Help";

pub const MAIN_MENU: &'static str = "Main menu";

pub const LIST_SOMETHING_NEW: &'static str = "List something new";

pub const LIST_MY_ITEMS: &'static str = "List my items";

pub const SEARCH_LISTINGS: &'static str = "Search listings";

pub const DONE_UPLOADING: &'static str = "Done uploading";

pub const CANCEL: &'static str = "Cancel";

pub const CONFIRM: &'static str = "Confirm";

pub const EDIT_DESCRIPTION: &'static str = "Edit description";

pub const START_AGAIN: &'static str = "Start again";

pub const REMOVE: &'static str = "Remove";

} // verus!
