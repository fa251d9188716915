//! The single slot that holds the secrets of the attempt in flight.

use vstd::prelude::*;
use crate::pkce::random_token;
use crate::text::{all_alphanumeric, all_unreserved, is_unreserved_text};

verus! {

/// How many characters a state token has at least.
pub const MIN_CSRF_TOKEN_LEN: usize = 30;

/// How many characters a PKCE verifier has at least.
pub const MIN_CODE_VERIFIER_LEN: usize = 43;

/// How many characters a freshly drawn state token has.
pub const FRESH_CSRF_TOKEN_LEN: usize = 30;

/// How many characters a freshly drawn PKCE verifier has.
pub const FRESH_CODE_VERIFIER_LEN: usize = 64;

/// Whether `token` can serve as the state of an attempt.
pub open spec fn valid_csrf_token(token: Seq<char>) -> bool {
    token.len() >= MIN_CSRF_TOKEN_LEN && all_unreserved(token)
}

/// Whether `verifier` can serve as a PKCE verifier.
pub open spec fn valid_code_verifier(verifier: Seq<char>) -> bool {
    verifier.len() >= MIN_CODE_VERIFIER_LEN && all_unreserved(verifier)
}

/// The mathematical content of a [`PendingAuth`].
pub struct PendingSecrets {
    pub csrf_token: Seq<char>,
    pub code_verifier: Seq<char>,
}

/// Whether `secrets` can be the secrets of an attempt.
pub open spec fn valid_secrets(secrets: PendingSecrets) -> bool {
    valid_csrf_token(secrets.csrf_token) && valid_code_verifier(secrets.code_verifier)
}

/// The secrets of one authentication attempt: the state token that the
/// callback must bring back, and the PKCE verifier. Every value of this
/// type holds valid secrets. They cannot be formatted for display.
pub struct PendingAuth {
    csrf_token: String,
    code_verifier: String,
}

impl View for PendingAuth {
    type V = PendingSecrets;

    closed spec fn view(&self) -> PendingSecrets {
        PendingSecrets { csrf_token: self.csrf_token@, code_verifier: self.code_verifier@ }
    }
}

impl PendingAuth {
    #[verifier::type_invariant]
    spec fn well_formed(self) -> bool {
        valid_secrets(self@)
    }

    /// The attempt with the given secrets, if they are valid.
    pub fn new(csrf_token: String, code_verifier: String) -> (made: Option<PendingAuth>)
        ensures
            made is Some <==> valid_csrf_token(csrf_token@) && valid_code_verifier(code_verifier@),
            made matches Some(p) ==> p@ == (PendingSecrets {
                csrf_token: csrf_token@,
                code_verifier: code_verifier@,
            }),
    {
        if is_unreserved_text(csrf_token.as_str(), MIN_CSRF_TOKEN_LEN) && is_unreserved_text(
            code_verifier.as_str(),
            MIN_CODE_VERIFIER_LEN,
        ) {
            Some(PendingAuth { csrf_token, code_verifier })
        } else {
            None
        }
    }

    /// An attempt with freshly drawn secrets: a state token of 30 and a
    /// verifier of 64 random letters and digits.
    pub fn fresh() -> (p: PendingAuth)
        ensures
            p@.csrf_token.len() == FRESH_CSRF_TOKEN_LEN,
            all_alphanumeric(p@.csrf_token),
            p@.code_verifier.len() == FRESH_CODE_VERIFIER_LEN,
            all_alphanumeric(p@.code_verifier),
            valid_secrets(p@),
    {
        let csrf_token = random_token(FRESH_CSRF_TOKEN_LEN);
        let code_verifier = random_token(FRESH_CODE_VERIFIER_LEN);
        PendingAuth { csrf_token, code_verifier }
    }

    /// The state token.
    pub fn csrf_token(&self) -> (t: &String)
        ensures
            t@ == self@.csrf_token,
            valid_secrets(self@),
    {
        proof {
            use_type_invariant(self);
        }
        &self.csrf_token
    }

    /// The PKCE verifier.
    pub fn code_verifier(&self) -> (v: &String)
        ensures
            v@ == self@.code_verifier,
            valid_secrets(self@),
    {
        proof {
            use_type_invariant(self);
        }
        &self.code_verifier
    }
}

/// At most one pending attempt. A caller that shares the store between
/// triggers guards it with a lock; every operation here takes the store
/// exclusively and returns without blocking.
pub struct SessionStore {
    slot: Option<PendingAuth>,
}

impl View for SessionStore {
    type V = Option<PendingSecrets>;

    closed spec fn view(&self) -> Option<PendingSecrets> {
        match self.slot {
            Some(p) => Some(p@),
            None => None,
        }
    }
}

impl SessionStore {
    /// An empty store.
    pub fn new() -> (s: SessionStore)
        ensures
            s@ is None,
    {
        SessionStore { slot: None }
    }

    /// Makes `pending` the attempt in flight. An attempt already there is
    /// dropped and can no longer be completed.
    pub fn put(&mut self, pending: PendingAuth)
        ensures
            final(self)@ == Some(pending@),
    {
        self.slot = Some(pending);
    }

    /// Hands out the attempt in flight, if any, and leaves the store empty.
    pub fn take_and_clear(&mut self) -> (taken: Option<PendingAuth>)
        ensures
            final(self)@ is None,
            match taken {
                Some(p) => old(self)@ == Some(p@) && valid_secrets(p@),
                None => old(self)@ is None,
            },
    {
        let taken = self.slot.take();
        proof {
            if let Some(p) = &taken {
                use_type_invariant(p);
            }
        }
        taken
    }

    /// Whether an attempt is in flight.
    pub fn is_pending(&self) -> (b: bool)
        ensures
            b == (self@ is Some),
    {
        self.slot.is_some()
    }
}

} // verus!
