//! The messages exchanged with the worker that waits for the user to
//! authorise the program on Trakt.

use vstd::prelude::*;

use crate::trakt_integration::{Client, CodeResponse, TokenResponse};

verus! {

/// What the authentication worker reports.
#[derive(Debug, Clone)]
pub enum Event {
    /// The worker is ready to take a code.
    Ready,
    /// The worker has stopped polling, with the token when the user authorised
    /// the program.
    WorkFinished(Option<TokenResponse>),
    /// One polling interval has passed.
    Progressing,
}

/// What is sent to the authentication worker.
#[derive(Debug, Clone)]
pub enum Input {
    AuthenticateCode(CodeResponse, Client),
}

} // verus!
