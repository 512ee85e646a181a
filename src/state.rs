//! The top-level states of the application.

use vstd::prelude::*;

verus! {

/// A key press, as far as the screens tell keys apart.
#[derive(Clone, Copy, Debug, PartialEq, Eq, Structural)]
pub enum KeyInput {
    Esc,
    Tab,
    Enter,
    Backspace,
    Char(char),
    Other,
}

pub enum AppState {
    /// The credential form is shown.
    Loading,
    /// Credentials were submitted and a token is to be issued with them.
    IssueToken {
        userid: String,
        password: String,
        tenantid: String,
        identity_url: String,
    },
    /// The live list of servers is shown.
    Server,
    /// The program ends.
    Quit,
}

} // verus!
