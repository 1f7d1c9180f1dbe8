//! The state tag that the telemetry server reports.

use vstd::prelude::*;
use crate::text::same_text;

verus! {

/// The class of a `state.name` tag.
#[derive(Clone, Copy, Debug, PartialEq, Eq, Structural)]
pub enum State {
    /// A play is in progress (`"play"`).
    Play,
    /// The result screen is shown (`"resultScreen"`).
    ResultScreen,
    /// Any other screen.
    Other,
}

/// The class of the tag `name`.
pub open spec fn state_of(name: Seq<char>) -> State {
    if name == "play"@ {
        State::Play
    } else if name == "resultScreen"@ {
        State::ResultScreen
    } else {
        State::Other
    }
}

impl State {
    /// Classifies a `state.name` tag.
    pub fn from_str(s: &str) -> (state: State)
        ensures
            state == state_of(s@),
    {
        if same_text(s, "play") {
            State::Play
        } else if same_text(s, "resultScreen") {
            State::ResultScreen
        } else {
            State::Other
        }
    }
}

} // verus!
