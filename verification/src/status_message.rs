//! A user-visible status line message.

use vstd::prelude::*;

verus! {

/// The text of the message shown in the status area. The presentation
/// layer decides how long to keep it on screen.
pub struct StatusMessage {
    pub text: String,
}

impl StatusMessage {
    pub fn from(message: String) -> (m: Self)
        ensures
            m.text@ == message@,
    {
        StatusMessage { text: message }
    }
}

} // verus!
