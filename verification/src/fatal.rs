//! The reasons for which the whole operation ends.

use vstd::prelude::*;
use vstd::string::StringExecFns;

verus! {

/// A fatal condition as the mathematical model sees it.
pub enum FatalView {
    LiveList(Seq<char>),
    MedalList(Seq<char>),
    Stopped,
}

/// A condition that ends one of the three core loops, and with it the whole
/// operation.
#[derive(Debug)]
pub enum Fatal {
    /// Fetching the live rooms failed too often in a row; holds the reason of
    /// the last failure.
    LiveList(String),
    /// Fetching the medals failed too often in a row; holds the reason of the
    /// last failure.
    MedalList(String),
    /// The coordinator has no producer left to listen to.
    Stopped,
}

impl View for Fatal {
    type V = FatalView;

    open spec fn view(&self) -> FatalView {
        match self {
            Fatal::LiveList(reason) => FatalView::LiveList(reason@),
            Fatal::MedalList(reason) => FatalView::MedalList(reason@),
            Fatal::Stopped => FatalView::Stopped,
        }
    }
}

/// The text shown for a fatal condition.
pub open spec fn message_of(fatal: FatalView) -> Seq<char> {
    match fatal {
        FatalView::LiveList(reason) => "live list error: "@ + reason,
        FatalView::MedalList(reason) => "medal list error: "@ + reason,
        FatalView::Stopped => "stop keeping online"@,
    }
}

impl Fatal {
    /// The text shown for this condition.
    pub fn message(&self) -> (text: String)
        ensures
            text@ == message_of(self@),
    {
        match self {
            Fatal::LiveList(reason) => String::from_str("live list error: ").concat(
                reason.as_str(),
            ),
            Fatal::MedalList(reason) => String::from_str("medal list error: ").concat(
                reason.as_str(),
            ),
            Fatal::Stopped => String::from_str("stop keeping online"),
        }
    }
}

} // verus!
