//! How the listing backend answered.

use vstd::prelude::*;

verus! {

/// The outcome of handing a listing to the backend.
#[derive(Clone, Copy, Debug, PartialEq, Eq)]
pub enum Submission {
    /// No answer came back.
    Unreachable,
    /// The backend answered with this HTTP status.
    Answered { status: u16 },
}

impl Submission {
    /// Whether the backend took the listing: it answered, and with a status from 200 to 299.
    pub open spec fn spec_accepted(self) -> bool {
        match self {
            Submission::Unreachable => false,
            Submission::Answered { status } => 200 <= status < 300,
        }
    }

    /// Whether the backend took the listing.
    #[verifier::when_used_as_spec(spec_accepted)]
    pub fn accepted(self) -> (taken: bool)
        ensures
            taken == self.spec_accepted(),
    {
        match self {
            Submission::Unreachable => false,
            Submission::Answered { status } => 200 <= status && status < 300,
        }
    }
}

} // verus!
