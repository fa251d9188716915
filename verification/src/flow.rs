//! The two phases of the handshake: `begin`, which stashes fresh secrets and
//! yields the authorization URL, and `complete`, which validates the
//! callback and then decides, answer by answer, what is asked of the
//! provider next.
//!
//! The store is empty while no attempt is in flight and full while a
//! callback is awaited. A callback that passes validation takes the
//! completion straight to `Exchanging`; from there it goes to
//! `FetchingIdentity` and ends `Done`, or it ends `Rejected` at the first
//! failure. Nothing is retried: only a new `begin` can try again.
//!
//! The requests themselves are made by the caller. Each step hands out the
//! request to perform, and the next step takes how it ended.

use vstd::prelude::*;
use vstd::string::StringExecFns;
use crate::answer::{Stage, answer_member, answer_text, read_answer, read_member};
use crate::authorize::{
    authorization_url, build_authorization_url, check_authorization_url,
    lemma_authorization_url_targets_endpoint, targets_authorize_endpoint,
};
use crate::config::{ProviderCredentials, Settings};
use crate::error::{AuthError, AuthFailure, ErrorKind, result_text};
use crate::http::{
    Field, HttpOutcome, HttpRequest, Method, OutcomeContent, REQUEST_TIMEOUT_SECONDS,
    RequestContent,
};
use crate::json::{FieldContent, JsonField};
use crate::pkce::{code_challenge, code_challenge_of};
use crate::session::{
    FRESH_CODE_VERIFIER_LEN, FRESH_CSRF_TOKEN_LEN, PendingAuth, PendingSecrets, SessionStore,
};
use crate::text::{all_alphanumeric, option_text};

verus! {

/// Where an authorization code is exchanged for an access token.
pub const TOKEN_ENDPOINT: &'static str = "https://github.com/login/oauth/access_token";

/// Where the profile of the token's owner is read.
pub const PROFILE_ENDPOINT: &'static str = "https://api.github.com/user";

/// How this application names itself to the provider.
pub const USER_AGENT: &'static str = "Renox-Loader";

/// The diagnostic of a callback that matches no pending attempt.
pub const CSRF_MESSAGE: &'static str = "Invalid OAuth state; possible CSRF";

/// What the redirect brought back: untrusted, and kept no longer than
/// one call of `complete`.
pub struct CallbackParams {
    pub code: String,
    pub state: String,
}

/// The mathematical content of [`CallbackParams`].
pub struct Callback {
    pub code: Seq<char>,
    pub state: Seq<char>,
}

impl View for CallbackParams {
    type V = Callback;

    open spec fn view(&self) -> Callback {
        Callback { code: self.code@, state: self.state@ }
    }
}

/// Who the user is. The provider's tokens are no part of it.
#[derive(Debug)]
pub struct IdentityResult {
    pub username: String,
    pub email: Option<String>,
}

/// The mathematical content of an [`IdentityResult`].
pub struct Identity {
    pub username: Seq<char>,
    pub email: Option<Seq<char>>,
}

impl View for IdentityResult {
    type V = Identity;

    open spec fn view(&self) -> Identity {
        Identity { username: self.username@, email: option_text(self.email) }
    }
}

/// The handshake against the provider, for one set of credentials.
pub struct AuthFlow {
    pub credentials: ProviderCredentials,
}

impl View for AuthFlow {
    type V = Settings;

    open spec fn view(&self) -> Settings {
        self.credentials@
    }
}

/// What `begin` answers when the attempt's secrets are `fresh`.
pub open spec fn begin_outcome(
    settings: Settings,
    fresh: PendingSecrets,
) -> Result<Seq<char>, AuthFailure> {
    match settings.required_client_id() {
        Err(e) => Err(e),
        Ok(client_id) => Ok(
            authorization_url(
                client_id,
                settings.effective_redirect_uri(),
                fresh.csrf_token,
                code_challenge_of(fresh.code_verifier),
            ),
        ),
    }
}

/// What the store holds after `begin`, given what it held before.
pub open spec fn store_after_begin(
    settings: Settings,
    before: Option<PendingSecrets>,
    fresh: PendingSecrets,
) -> Option<PendingSecrets> {
    if settings.client_id is Some {
        Some(fresh)
    } else {
        before
    }
}

impl AuthFlow {
    /// A flow that acts for `credentials`.
    pub fn new(credentials: ProviderCredentials) -> (flow: AuthFlow)
        ensures
            flow@ == credentials@,
    {
        AuthFlow { credentials }
    }

    /// Starts an attempt with the given secrets: stores them in place of
    /// whatever attempt was pending, and returns the URL to open in the
    /// user's browser. Without a client id nothing is stored.
    pub fn begin_with(
        &self,
        store: &mut SessionStore,
        pending: PendingAuth,
    ) -> (r: Result<String, AuthError>)
        ensures
            result_text(r) == begin_outcome(self@, pending@),
            final(store)@ == store_after_begin(self@, old(store)@, pending@),
            r matches Ok(url) ==> targets_authorize_endpoint(url@),
    {
        let client_id = match self.credentials.client_id() {
            Ok(id) => id,
            Err(e) => {
                return Err(e);
            },
        };
        let redirect_uri = self.credentials.redirect_uri();
        let challenge = code_challenge(pending.code_verifier().as_str());
        let url = build_authorization_url(
            client_id.as_str(),
            redirect_uri.as_str(),
            pending.csrf_token().as_str(),
            challenge.as_str(),
        );
        store.put(pending);
        proof {
            lemma_authorization_url_targets_endpoint(
                client_id@,
                redirect_uri@,
                pending@.csrf_token,
                challenge@,
            );
        }
        match check_authorization_url(url.as_str()) {
            Ok(_) => Ok(url),
            Err(e) => Err(e),
        }
    }

    /// Starts an attempt: draws a fresh state token and PKCE verifier,
    /// stores them in place of whatever attempt was pending, and returns the
    /// URL to open in the user's browser. Without a client id it fails
    /// before anything is drawn or stored.
    pub fn begin(&self, store: &mut SessionStore) -> (r: Result<String, AuthError>)
        ensures
            self@.client_id is None ==> {
                &&& result_text(r) == self@.required_client_id()
                &&& final(store)@ == old(store)@
            },
            self@.client_id is Some ==> {
                &&& final(store)@ matches Some(fresh)
                &&& fresh.csrf_token.len() == FRESH_CSRF_TOKEN_LEN
                &&& all_alphanumeric(fresh.csrf_token)
                &&& fresh.code_verifier.len() == FRESH_CODE_VERIFIER_LEN
                &&& all_alphanumeric(fresh.code_verifier)
                &&& result_text(r) == begin_outcome(self@, fresh)
                &&& r matches Ok(url)
                &&& targets_authorize_endpoint(url@)
            },
    {
        if self.credentials.client_id.is_none() {
            return self.credentials.client_id();
        }
        self.begin_with(store, PendingAuth::fresh())
    }
}

/// The request that exchanges `code` for an access token.
pub open spec fn token_request(
    client_id: Seq<char>,
    client_secret: Seq<char>,
    code: Seq<char>,
    redirect_uri: Seq<char>,
    code_verifier: Seq<char>,
) -> RequestContent {
    RequestContent {
        method: Method::Post,
        url: TOKEN_ENDPOINT@,
        headers: seq![("User-Agent"@, USER_AGENT@), ("Accept"@, "application/json"@)],
        form: seq![
            ("client_id"@, client_id),
            ("client_secret"@, client_secret),
            ("code"@, code),
            ("redirect_uri"@, redirect_uri),
            ("grant_type"@, "authorization_code"@),
            ("code_verifier"@, code_verifier),
        ],
        timeout_seconds: REQUEST_TIMEOUT_SECONDS,
    }
}

/// The request that reads the profile of the owner of `access_token`.
pub open spec fn profile_request(access_token: Seq<char>) -> RequestContent {
    RequestContent {
        method: Method::Get,
        url: PROFILE_ENDPOINT@,
        headers: seq![("User-Agent"@, USER_AGENT@), ("Authorization"@, "Bearer "@ + access_token)],
        form: Seq::empty(),
        timeout_seconds: REQUEST_TIMEOUT_SECONDS,
    }
}

/// Writes out the token request.
fn build_token_request(
    client_id: &str,
    client_secret: &str,
    code: &str,
    redirect_uri: &str,
    code_verifier: &str,
) -> (request: HttpRequest)
    ensures
        request@ == token_request(
            client_id@,
            client_secret@,
            code@,
            redirect_uri@,
            code_verifier@,
        ),
{
    let mut headers: Vec<Field> = Vec::new();
    headers.push(Field::new("User-Agent", USER_AGENT));
    headers.push(Field::new("Accept", "application/json"));
    let mut form: Vec<Field> = Vec::new();
    form.push(Field::new("client_id", client_id));
    form.push(Field::new("client_secret", client_secret));
    form.push(Field::new("code", code));
    form.push(Field::new("redirect_uri", redirect_uri));
    form.push(Field::new("grant_type", "authorization_code"));
    form.push(Field::new("code_verifier", code_verifier));
    let request = HttpRequest {
        method: Method::Post,
        url: String::from_str(TOKEN_ENDPOINT),
        headers,
        form,
        timeout_seconds: REQUEST_TIMEOUT_SECONDS,
    };
    assert(request@.headers =~= token_request(
        client_id@,
        client_secret@,
        code@,
        redirect_uri@,
        code_verifier@,
    ).headers);
    assert(request@.form =~= token_request(
        client_id@,
        client_secret@,
        code@,
        redirect_uri@,
        code_verifier@,
    ).form);
    request
}

/// Writes out the profile request.
fn build_profile_request(access_token: &str) -> (request: HttpRequest)
    ensures
        request@ == profile_request(access_token@),
{
    let mut authorization = String::from_str("Bearer ");
    authorization.append(access_token);
    let mut headers: Vec<Field> = Vec::new();
    headers.push(Field::new("User-Agent", USER_AGENT));
    headers.push(Field::new("Authorization", authorization.as_str()));
    let request = HttpRequest {
        method: Method::Get,
        url: String::from_str(PROFILE_ENDPOINT),
        headers,
        form: Vec::new(),
        timeout_seconds: REQUEST_TIMEOUT_SECONDS,
    };
    assert(request@.headers =~= profile_request(access_token@).headers);
    assert(request@.form =~= profile_request(access_token@).form);
    request
}

/// The failure of a callback that matches no pending attempt.
pub open spec fn csrf_failure() -> AuthFailure {
    AuthFailure { kind: ErrorKind::Csrf, detail: CSRF_MESSAGE@ }
}

/// How far a completion has come. It holds neither the client secret nor
/// the access token.
#[derive(Debug)]
pub enum Phase {
    /// The token request is under way.
    Exchanging,
    /// The profile request is under way.
    FetchingIdentity,
    /// The user is identified.
    Done(IdentityResult),
    /// The completion failed; only a new `begin` can try again.
    Rejected(AuthError),
}

/// The mathematical content of a [`Phase`].
pub enum Progress {
    Exchanging,
    FetchingIdentity,
    Done(Identity),
    Rejected(AuthFailure),
}

impl View for Phase {
    type V = Progress;

    open spec fn view(&self) -> Progress {
        match self {
            Phase::Exchanging => Progress::Exchanging,
            Phase::FetchingIdentity => Progress::FetchingIdentity,
            Phase::Done(identity) => Progress::Done(identity@),
            Phase::Rejected(error) => Progress::Rejected(error@),
        }
    }
}

impl Progress {
    /// Whether the completion is over.
    pub open spec fn is_final(self) -> bool {
        self is Done || self is Rejected
    }
}

/// A phase, and the request to perform before the completion can go on;
/// there is none once it is over.
pub struct Step {
    pub phase: Phase,
    pub request: Option<HttpRequest>,
}

/// The mathematical content of a [`Step`].
pub struct Move {
    pub phase: Progress,
    pub request: Option<RequestContent>,
}

impl View for Step {
    type V = Move;

    open spec fn view(&self) -> Move {
        Move {
            phase: self.phase@,
            request: match self.request {
                Some(request) => Some(request@),
                None => None,
            },
        }
    }
}

/// What the store holds after `complete`, whatever it held before:
/// nothing.
pub open spec fn store_after_complete(before: Option<PendingSecrets>) -> Option<PendingSecrets> {
    None
}

/// The step that ends a completion in failure.
pub open spec fn rejected(failure: AuthFailure) -> Move {
    Move { phase: Progress::Rejected(failure), request: None }
}

/// What `complete` decides, given what the store held.
pub open spec fn complete_step(
    settings: Settings,
    pending: Option<PendingSecrets>,
    callback: Callback,
) -> Move {
    match pending {
        None => rejected(csrf_failure()),
        Some(secrets) => if secrets.csrf_token != callback.state {
            rejected(csrf_failure())
        } else {
            match settings.required_client_id() {
                Err(e) => rejected(e),
                Ok(client_id) => match settings.required_client_secret() {
                    Err(e) => rejected(e),
                    Ok(client_secret) => Move {
                        phase: Progress::Exchanging,
                        request: Some(
                            token_request(
                                client_id,
                                client_secret,
                                callback.code,
                                settings.effective_redirect_uri(),
                                secrets.code_verifier,
                            ),
                        ),
                    },
                },
            }
        },
    }
}

/// What follows the answer to the token request; `member` is what the
/// lookup of the access token in the answer's body found.
pub open spec fn exchange_step(
    settings: Settings,
    outcome: OutcomeContent,
    member: FieldContent,
) -> Move {
    match answer_text(Stage::Exchange, outcome, member, settings.client_secret) {
        Ok(access_token) => Move {
            phase: Progress::FetchingIdentity,
            request: Some(profile_request(access_token)),
        },
        Err(e) => rejected(e),
    }
}

/// What follows the answer to the profile request; `member` is what the
/// lookup of the login in the answer's body found.
pub open spec fn identity_step(
    settings: Settings,
    outcome: OutcomeContent,
    member: FieldContent,
) -> Move {
    match answer_text(Stage::Identity, outcome, member, settings.client_secret) {
        Ok(login) => Move {
            phase: Progress::Done(Identity { username: login, email: None }),
            request: None,
        },
        Err(e) => rejected(e),
    }
}

/// What follows `outcome` in `phase`. A completion that is over stays as it
/// is and asks for nothing.
pub open spec fn next_step(settings: Settings, phase: Progress, outcome: OutcomeContent) -> Move {
    match phase {
        Progress::Exchanging => exchange_step(
            settings,
            outcome,
            answer_member(Stage::Exchange, outcome),
        ),
        Progress::FetchingIdentity => identity_step(
            settings,
            outcome,
            answer_member(Stage::Identity, outcome),
        ),
        _ => Move { phase, request: None },
    }
}

impl AuthFlow {
    /// Validates a callback against the pending attempt, which is consumed
    /// whatever the verdict. Only a callback whose state is that of the
    /// pending attempt gets as far as the token request; any other is
    /// rejected and nothing is asked of the provider.
    pub fn complete(&self, store: &mut SessionStore, callback: &CallbackParams) -> (step: Step)
        ensures
            final(store)@ == store_after_complete(old(store)@),
            step@ == complete_step(self@, old(store)@, callback@),
    {
        let pending = match store.take_and_clear() {
            Some(pending) => pending,
            None => {
                return Step { phase: Phase::Rejected(csrf_error()), request: None };
            },
        };
        if *pending.csrf_token() != callback.state {
            return Step { phase: Phase::Rejected(csrf_error()), request: None };
        }
        let client_id = match self.credentials.client_id() {
            Ok(id) => id,
            Err(e) => {
                return Step { phase: Phase::Rejected(e), request: None };
            },
        };
        let client_secret = match self.credentials.client_secret() {
            Ok(secret) => secret,
            Err(e) => {
                return Step { phase: Phase::Rejected(e), request: None };
            },
        };
        let redirect_uri = self.credentials.redirect_uri();
        let request = build_token_request(
            client_id.as_str(),
            client_secret.as_str(),
            callback.code.as_str(),
            redirect_uri.as_str(),
            pending.code_verifier().as_str(),
        );
        Step { phase: Phase::Exchanging, request: Some(request) }
    }

    /// Decides what follows the answer to the token request, given what
    /// the lookup of the access token in its body found. The token goes into
    /// the profile request and nowhere else.
    pub fn after_exchange(&self, outcome: HttpOutcome, member: JsonField) -> (step: Step)
        ensures
            step@ == exchange_step(self@, outcome@, member@),
    {
        match read_answer(Stage::Exchange, outcome, member, &self.credentials.client_secret) {
            Ok(access_token) => Step {
                phase: Phase::FetchingIdentity,
                request: Some(build_profile_request(access_token.as_str())),
            },
            Err(e) => Step { phase: Phase::Rejected(e), request: None },
        }
    }

    /// Decides what follows the answer to the profile request, given what
    /// the lookup of the login in its body found.
    pub fn after_identity(&self, outcome: HttpOutcome, member: JsonField) -> (step: Step)
        ensures
            step@ == identity_step(self@, outcome@, member@),
    {
        match read_answer(Stage::Identity, outcome, member, &self.credentials.client_secret) {
            Ok(login) => Step {
                phase: Phase::Done(IdentityResult { username: login, email: None }),
                request: None,
            },
            Err(e) => Step { phase: Phase::Rejected(e), request: None },
        }
    }

    /// Takes a completion one step further: `outcome` is how the request
    /// of the last step ended.
    pub fn advance(&self, phase: Phase, outcome: HttpOutcome) -> (step: Step)
        ensures
            step@ == next_step(self@, phase@, outcome@),
    {
        match phase {
            Phase::Exchanging => {
                let member = read_member(Stage::Exchange, &outcome);
                self.after_exchange(outcome, member)
            },
            Phase::FetchingIdentity => {
                let member = read_member(Stage::Identity, &outcome);
                self.after_identity(outcome, member)
            },
            over => Step { phase: over, request: None },
        }
    }
}

/// The error of a callback that matches no pending attempt.
fn csrf_error() -> (e: AuthError)
    ensures
        e@ == csrf_failure(),
{
    AuthError::new(ErrorKind::Csrf, String::from_str(CSRF_MESSAGE))
}

} // verus!
