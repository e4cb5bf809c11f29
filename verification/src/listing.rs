//! The records exchanged with the listing backend.

use vstd::prelude::*;

verus! {

/// The body of a create-listing request: who offers the item, and its description.
///
/// Photos collected during the conversation are not part of it.
#[derive(Clone, Debug, PartialEq, Eq)]
pub struct AddListing {
    pub user_telegram_id: u64,
    pub description: String,
}

/// A create-listing request as a mathematical value.
pub struct AddListingView {
    pub user_telegram_id: u64,
    pub description: Seq<char>,
}

impl View for AddListing {
    type V = AddListingView;

    open spec fn view(&self) -> AddListingView {
        AddListingView { user_telegram_id: self.user_telegram_id, description: self.description@ }
    }
}

/// One entry of the backend's listing feed.
#[derive(Clone, Debug, PartialEq, Eq)]
pub struct ListingResponse {
    pub id: i64,
    pub user_telegram_id: u64,
    pub description: String,
}

/// A feed entry as a mathematical value.
pub struct ListingResponseView {
    pub id: i64,
    pub user_telegram_id: u64,
    pub description: Seq<char>,
}

impl View for ListingResponse {
    type V = ListingResponseView;

    open spec fn view(&self) -> ListingResponseView {
        ListingResponseView {
            id: self.id,
            user_telegram_id: self.user_telegram_id,
            description: self.description@,
        }
    }
}

} // verus!
