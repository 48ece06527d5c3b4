//! Messages that the CLI shows, by kind.
use vstd::prelude::*;

verus! {

/// How a message is shown.
#[derive(Debug, Clone, Copy, PartialEq, Eq, Structural)]
pub enum NoticeLevel {
    /// As it is.
    Plain,
    /// A step header.
    Step,
    /// A milestone header.
    Milestone,
    /// Information.
    Info,
    /// A success.
    Success,
    /// An error.
    Error,
}

/// A message to show.
pub struct Notice {
    pub level: NoticeLevel,
    pub text: String,
}

/// A message as level and text.
pub open spec fn note(level: NoticeLevel, text: Seq<char>) -> Option<(NoticeLevel, Seq<char>)> {
    Some((level, text))
}

/// The view of an optional notice.
pub open spec fn notice_view(n: Option<Notice>) -> Option<(NoticeLevel, Seq<char>)> {
    match n {
        Some(n) => Some((n.level, n.text@)),
        None => None,
    }
}

/// The views of a list of notices.
pub open spec fn notices_view(ns: Seq<Notice>) -> Seq<(NoticeLevel, Seq<char>)> {
    ns.map_values(|n: Notice| (n.level, n.text@))
}

} // verus!
