//! Progress messages the tool shows its user, each with a severity.
use vstd::prelude::*;

verus! {

/// How a message is presented.
#[derive(PartialEq, Eq, Structural, Clone, Copy, Debug)]
pub enum Level {
    Debug,
    Info,
    Success,
    Warning,
    Error,
}

/// One message for the user.
#[derive(Debug)]
pub struct Notice {
    pub level: Level,
    pub message: String,
}

impl View for Notice {
    type V = (Level, Seq<char>);

    open spec fn view(&self) -> (Level, Seq<char>) {
        (self.level, self.message@)
    }
}

/// The views of a sequence of notices.
pub open spec fn notice_views(v: Seq<Notice>) -> Seq<(Level, Seq<char>)> {
    v.map_values(|n: Notice| n@)
}

/// A notice with the given level and text.
pub fn notice(level: Level, message: String) -> (r: Notice)
    ensures
        r@ == (level, message@),
{
    Notice { level, message }
}

} // verus!
