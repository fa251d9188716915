//! What holds of the handshake as a whole, whatever the inputs.

use vstd::prelude::*;
use crate::answer::{
    Stage, TIMEOUT_MESSAGE, WITHHELD, answer_member, answer_text, diagnostic_text, discloses,
    stage_error_prefix, stage_malformed_message, stage_missing_message,
};
use crate::authorize::{
    AUTHORIZE_ENDPOINT, SCOPE, authorization_url, lemma_authorization_url_targets_endpoint,
    targets_authorize_endpoint,
};
use crate::config::{CLIENT_ID_VAR, Settings, missing_setting};
use crate::error::{AuthFailure, ErrorKind};
use crate::flow::{
    Callback, PROFILE_ENDPOINT, Progress, TOKEN_ENDPOINT, begin_outcome, complete_step,
    csrf_failure, next_step, profile_request, rejected, store_after_begin, store_after_complete,
    token_request,
};
use crate::http::{OutcomeContent, REQUEST_TIMEOUT_SECONDS, is_https};
use crate::json::FieldContent;
use crate::pkce::{base64url_nopad, code_challenge_of, sha256_digest};
use crate::session::PendingSecrets;
use crate::text::{occurs_at, occurs_in};

verus! {

/// The authorization URL that `begin` hands out points at the provider's
/// authorization endpoint, and closes with the attempt's state and the
/// challenge, in that order.
pub proof fn law_authorization_url_carries_state_and_challenge(
    settings: Settings,
    fresh: PendingSecrets,
)
    ensures
        begin_outcome(settings, fresh) matches Ok(url) ==> {
            &&& targets_authorize_endpoint(url)
            &&& occurs_in("&state="@ + fresh.csrf_token, url)
            &&& occurs_in("&code_challenge="@ + code_challenge_of(fresh.code_verifier), url)
            &&& ("&state="@ + fresh.csrf_token + "&code_challenge_method=S256"@
                + "&code_challenge="@ + code_challenge_of(fresh.code_verifier)).is_suffix_of(url)
        },
{
    if let Ok(url) = begin_outcome(settings, fresh) {
        let client_id = settings.client_id->0;
        let redirect_uri = settings.effective_redirect_uri();
        let state = fresh.csrf_token;
        let challenge = code_challenge_of(fresh.code_verifier);
        lemma_authorization_url_targets_endpoint(client_id, redirect_uri, state, challenge);
        let head = AUTHORIZE_ENDPOINT@ + "?"@ + "client_id="@ + client_id + "&redirect_uri="@
            + redirect_uri + "&scope="@ + SCOPE@;
        let state_part = "&state="@ + state;
        let method_part = "&code_challenge_method=S256"@;
        let challenge_part = "&code_challenge="@ + challenge;
        let tail = state_part + method_part + challenge_part;
        assert(url =~= head + state_part + method_part + challenge_part);
        assert(url =~= head + tail);
        assert(url.subrange(head.len() as int, (head.len() + state_part.len()) as int) =~= state_part);
        assert(occurs_at(state_part, url, head.len() as int));
        let before = head.len() + state_part.len() + method_part.len();
        assert(url.subrange(before as int, (before + challenge_part.len()) as int) =~= challenge_part);
        assert(occurs_at(challenge_part, url, before as int));
        assert(url.subrange(url.len() - tail.len(), url.len() as int) =~= tail);
    }
}

/// The challenge in the authorization URL is the unpadded URL-safe base64
/// encoding of the SHA-256 digest of the verifier that `begin` stored.
pub proof fn law_challenge_is_s256_of_verifier(settings: Settings, fresh: PendingSecrets)
    ensures
        begin_outcome(settings, fresh) matches Ok(url) ==> ("&code_challenge="@ + base64url_nopad(
            sha256_digest(vstd::utf8::encode_utf8(fresh.code_verifier)),
        )).is_suffix_of(url),
{
    if let Ok(url) = begin_outcome(settings, fresh) {
        law_authorization_url_carries_state_and_challenge(settings, fresh);
        let challenge_part = "&code_challenge="@ + code_challenge_of(fresh.code_verifier);
        let tail = "&state="@ + fresh.csrf_token + "&code_challenge_method=S256"@
            + "&code_challenge="@ + code_challenge_of(fresh.code_verifier);
        let lead = "&state="@ + fresh.csrf_token + "&code_challenge_method=S256"@;
        assert(tail =~= lead + challenge_part);
        assert(url.subrange(url.len() - tail.len(), url.len() as int) == tail);
        assert(url.subrange(url.len() - challenge_part.len(), url.len() as int)
            =~= challenge_part);
    }
}

/// Without a client id `begin` fails with the configuration failure that
/// names the setting, and the store keeps what it held.
pub proof fn law_begin_needs_client_id(
    settings: Settings,
    before: Option<PendingSecrets>,
    fresh: PendingSecrets,
)
    requires
        settings.client_id is None,
    ensures
        begin_outcome(settings, fresh) == Err::<Seq<char>, AuthFailure>(
            missing_setting(CLIENT_ID_VAR@),
        ),
        missing_setting(CLIENT_ID_VAR@).kind == ErrorKind::Configuration,
        store_after_begin(settings, before, fresh) == before,
{
}

/// Of two attempts begun one after the other, only the second is pending.
pub proof fn law_last_begin_wins(
    settings: Settings,
    before: Option<PendingSecrets>,
    first: PendingSecrets,
    second: PendingSecrets,
)
    requires
        settings.client_id is Some,
    ensures
        store_after_begin(settings, store_after_begin(settings, before, first), second) == Some(
            second,
        ),
{
}

/// A callback whose state is not that of the pending attempt, or that
/// finds no attempt pending, is rejected as a possible forgery, and no
/// request is made.
pub proof fn law_unmatched_callback_is_rejected(
    settings: Settings,
    pending: Option<PendingSecrets>,
    callback: Callback,
)
    requires
        pending matches Some(secrets) ==> secrets.csrf_token != callback.state,
    ensures
        complete_step(settings, pending, callback) == rejected(csrf_failure()),
        complete_step(settings, pending, callback).request is None,
        csrf_failure().kind == ErrorKind::Csrf,
{
}

/// After a `begin` that succeeded, a callback with any state but the one
/// just issued is rejected, and no request is made.
pub proof fn law_only_the_issued_state_is_accepted(
    settings: Settings,
    before: Option<PendingSecrets>,
    fresh: PendingSecrets,
    callback: Callback,
)
    requires
        settings.client_id is Some,
        callback.state != fresh.csrf_token,
    ensures
        complete_step(settings, store_after_begin(settings, before, fresh), callback) == rejected(
            csrf_failure(),
        ),
{
}

/// After a `begin` that succeeded, the callback that brings the issued
/// state back leads to the token request, and that request redeems the
/// very verifier whose challenge went out.
pub proof fn law_issued_state_redeems_the_verifier(
    settings: Settings,
    before: Option<PendingSecrets>,
    fresh: PendingSecrets,
    callback: Callback,
)
    requires
        settings.client_id is Some,
        settings.client_secret is Some,
        callback.state == fresh.csrf_token,
    ensures
        complete_step(settings, store_after_begin(settings, before, fresh), callback) == (
        crate::flow::Move {
            phase: Progress::Exchanging,
            request: Some(
                token_request(
                    settings.client_id->0,
                    settings.client_secret->0,
                    callback.code,
                    settings.effective_redirect_uri(),
                    fresh.code_verifier,
                ),
            ),
        }),
{
}

/// A completion consumes the attempt: a second completion, with the same
/// callback or any other, is rejected.
pub proof fn law_completion_consumes_the_attempt(
    settings: Settings,
    pending: Option<PendingSecrets>,
    second: Callback,
)
    ensures
        complete_step(settings, store_after_complete(pending), second) == rejected(csrf_failure()),
{
}

/// A completion that is over stays over and asks for nothing more.
pub proof fn law_over_stays_over(settings: Settings, phase: Progress, outcome: OutcomeContent)
    requires
        phase.is_final(),
    ensures
        next_step(settings, phase, outcome).phase == phase,
        next_step(settings, phase, outcome).request is None,
{
}

/// Every step either asks for a request or is over, never both; and
/// between the two requests of a completion there is no third.
pub proof fn law_request_exactly_while_under_way(
    settings: Settings,
    pending: Option<PendingSecrets>,
    callback: Callback,
    phase: Progress,
    outcome: OutcomeContent,
)
    ensures
        complete_step(settings, pending, callback).request is Some <==> !complete_step(
            settings,
            pending,
            callback,
        ).phase.is_final(),
        complete_step(settings, pending, callback).request is Some ==> complete_step(
            settings,
            pending,
            callback,
        ).phase is Exchanging,
        next_step(settings, phase, outcome).request is Some <==> !next_step(
            settings,
            phase,
            outcome,
        ).phase.is_final(),
        next_step(settings, phase, outcome).request is Some ==> phase is Exchanging && next_step(
            settings,
            phase,
            outcome,
        ).phase is FetchingIdentity,
        next_step(settings, phase, outcome).phase is Done ==> phase is Done || phase
            is FetchingIdentity,
{
}

/// The user is identified only by an answer to the profile request that
/// reports success and holds a login; the identity is that login, with no
/// e-mail address.
pub proof fn law_identity_is_the_login(settings: Settings, outcome: OutcomeContent)
    ensures
        next_step(settings, Progress::FetchingIdentity, outcome).phase matches Progress::Done(
            identity,
        ) ==> {
            &&& outcome matches OutcomeContent::Response { status, body: Some(text) }
            &&& crate::http::is_success(status)
            &&& answer_member(Stage::Identity, outcome) == FieldContent::Text(identity.username)
            &&& identity.email is None
        },
{
}

/// What a completion makes of the profile does not depend on the access
/// token that fetched it: once the token has gone into the profile request,
/// nothing of it is left.
pub proof fn law_result_is_independent_of_the_token(
    settings: Settings,
    first: OutcomeContent,
    second: OutcomeContent,
    profile: OutcomeContent,
)
    requires
        next_step(settings, Progress::Exchanging, first).phase is FetchingIdentity,
        next_step(settings, Progress::Exchanging, second).phase is FetchingIdentity,
    ensures
        next_step(settings, Progress::Exchanging, first).phase == next_step(
            settings,
            Progress::Exchanging,
            second,
        ).phase,
        next_step(settings, next_step(settings, Progress::Exchanging, first).phase, profile)
            == next_step(settings, next_step(settings, Progress::Exchanging, second).phase, profile),
{
}

/// A diagnostic holds the client secret only where the secret already
/// stands in the wording that the diagnostic is made of.
pub proof fn law_diagnostic_keeps_the_secret(
    prefix: Seq<char>,
    text: Seq<char>,
    secret: Option<Seq<char>>,
)
    ensures
        discloses(diagnostic_text(prefix, text, secret), secret) ==> discloses(
            prefix + WITHHELD@,
            secret,
        ),
{
}

/// A failure of either request holds the client secret only where the
/// secret already stands in this library's own wording.
pub proof fn law_failures_keep_the_secret(
    stage: Stage,
    outcome: OutcomeContent,
    member: FieldContent,
    secret: Option<Seq<char>>,
)
    ensures
        answer_text(stage, outcome, member, secret) matches Err(failure) ==> (discloses(
            failure.detail,
            secret,
        ) ==> {
            ||| discloses(TIMEOUT_MESSAGE@, secret)
            ||| discloses(stage_malformed_message(stage), secret)
            ||| discloses(stage_missing_message(stage), secret)
            ||| discloses(stage_error_prefix(stage) + WITHHELD@, secret)
            ||| discloses(WITHHELD@, secret)
        }),
{
    if let Err(failure) = answer_text(stage, outcome, member, secret) {
        if discloses(failure.detail, secret) {
            match outcome {
                OutcomeContent::Failed { detail } => {
                    law_diagnostic_keeps_the_secret(Seq::empty(), detail, secret);
                    assert(Seq::<char>::empty() + WITHHELD@ =~= WITHHELD@);
                },
                _ => {},
            }
        }
    }
}

/// The authorization URL and both requests go over HTTPS, whatever they
/// carry.
pub proof fn law_endpoints_are_https(
    client_id: Seq<char>,
    client_secret: Seq<char>,
    code: Seq<char>,
    redirect_uri: Seq<char>,
    state: Seq<char>,
    code_verifier: Seq<char>,
    challenge: Seq<char>,
    access_token: Seq<char>,
)
    ensures
        is_https(authorization_url(client_id, redirect_uri, state, challenge)),
        is_https(token_request(client_id, client_secret, code, redirect_uri, code_verifier).url),
        is_https(profile_request(access_token).url),
{
    reveal_strlit("https://");
    reveal_strlit("https://github.com/login/oauth/authorize");
    reveal_strlit("https://github.com/login/oauth/access_token");
    reveal_strlit("https://api.github.com/user");
    let scheme = "https://"@;
    let url = authorization_url(client_id, redirect_uri, state, challenge);
    assert(url.subrange(0, 8) =~= scheme) by {
        assert forall|i: int| 0 <= i < 8 implies url[i] == AUTHORIZE_ENDPOINT@[i] by {}
    }
    assert(TOKEN_ENDPOINT@.subrange(0, 8) =~= scheme);
    assert(PROFILE_ENDPOINT@.subrange(0, 8) =~= scheme);
}

/// Whatever a step asks of the provider is asked over HTTPS, within the
/// time allowed for a request.
pub proof fn law_requests_go_over_https(
    settings: Settings,
    pending: Option<PendingSecrets>,
    callback: Callback,
    phase: Progress,
    outcome: OutcomeContent,
)
    ensures
        complete_step(settings, pending, callback).request matches Some(request) ==> is_https(
            request.url,
        ) && request.timeout_seconds == REQUEST_TIMEOUT_SECONDS,
        next_step(settings, phase, outcome).request matches Some(request) ==> is_https(
            request.url,
        ) && request.timeout_seconds == REQUEST_TIMEOUT_SECONDS,
{
    let empty = Seq::<char>::empty();
    if let Some(request) = complete_step(settings, pending, callback).request {
        law_endpoints_are_https(
            settings.client_id->0,
            settings.client_secret->0,
            callback.code,
            settings.effective_redirect_uri(),
            empty,
            pending->0.code_verifier,
            empty,
            empty,
        );
    }
    if let Some(request) = next_step(settings, phase, outcome).request {
        let token = answer_text(
            Stage::Exchange,
            outcome,
            answer_member(Stage::Exchange, outcome),
            settings.client_secret,
        )->Ok_0;
        law_endpoints_are_https(empty, empty, empty, empty, empty, empty, empty, token);
    }
}

} // verus!
