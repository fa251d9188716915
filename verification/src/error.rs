//! The failures a handshake can end in.

use vstd::prelude::*;

verus! {

/// What went wrong, independent of any diagnostic text.
#[derive(Clone, Copy, Debug, PartialEq, Eq, Structural)]
pub enum ErrorKind {
    /// A required setting is absent; only the operator can mend it.
    Configuration,
    /// The authorization URL did not point at the provider; it is never opened.
    Integrity,
    /// The callback's state matches no pending attempt: stale or hostile.
    Csrf,
    /// The provider refused the code, or its answer could not be used.
    TokenExchange,
    /// The profile could not be fetched or read.
    IdentityFetch,
    /// A request to the provider got no answer in time.
    NetworkTimeout,
}

/// A failure with its diagnostic text.
#[derive(Debug)]
pub struct AuthError {
    pub kind: ErrorKind,
    pub detail: String,
}

/// The mathematical content of an [`AuthError`].
pub struct AuthFailure {
    pub kind: ErrorKind,
    pub detail: Seq<char>,
}

impl View for AuthError {
    type V = AuthFailure;

    open spec fn view(&self) -> AuthFailure {
        AuthFailure { kind: self.kind, detail: self.detail@ }
    }
}

impl AuthError {
    /// An error of the given kind carrying `detail`.
    pub fn new(kind: ErrorKind, detail: String) -> (e: AuthError)
        ensures
            e@ == (AuthFailure { kind, detail: detail@ }),
    {
        AuthError { kind, detail }
    }

    /// The diagnostic text, for the shell to present.
    pub fn message(&self) -> (m: String)
        ensures
            m@ == self@.detail,
    {
        self.detail.clone()
    }
}

/// What a text or a failure holds.
pub open spec fn result_text(r: Result<String, AuthError>) -> Result<Seq<char>, AuthFailure> {
    match r {
        Ok(v) => Ok(v@),
        Err(e) => Err(e@),
    }
}

} // verus!
