//! What is made of the provider's answers.

use vstd::prelude::*;
use vstd::string::StringExecFns;
use crate::error::{AuthError, AuthFailure, ErrorKind, result_text};
use crate::http::{HttpOutcome, OutcomeContent, is_success, status_is_success};
use crate::json::{FieldContent, JsonField, field_of, string_field};
use crate::text::{contains, occurs_in, option_text};

verus! {

/// The diagnostic of a request that got no answer in time.
pub const TIMEOUT_MESSAGE: &'static str = "Request to GitHub timed out";

/// What stands in for an answer's body that could not be read.
pub const UNREADABLE_BODY: &'static str = "Could not read error body";

/// What precedes the provider's words when the exchange is refused.
pub const TOKEN_ERROR_PREFIX: &'static str = "GitHub token API error: ";

/// What precedes the provider's words when the profile is refused.
pub const PROFILE_ERROR_PREFIX: &'static str = "GitHub user API error: ";

/// The diagnostic of a token answer that is no JSON document.
pub const TOKEN_MALFORMED: &'static str = "GitHub token API answer is not JSON";

/// The diagnostic of a profile answer that is no JSON document.
pub const PROFILE_MALFORMED: &'static str = "GitHub user API answer is not JSON";

/// The diagnostic of a token answer without an access token.
pub const TOKEN_MISSING: &'static str = "GitHub token API answer holds no access_token";

/// The diagnostic of a profile answer without a login.
pub const PROFILE_MISSING: &'static str = "GitHub user API answer holds no login";

/// The member of a token answer that holds the access token.
pub const TOKEN_MEMBER: &'static str = "access_token";

/// The member of a profile answer that holds the user's name.
pub const PROFILE_MEMBER: &'static str = "login";

/// What stands in for a text that held the client secret.
pub const WITHHELD: &'static str = "[withheld: the text held the client secret]";

/// The two requests of a completion.
#[derive(Clone, Copy, Debug, PartialEq, Eq, Structural)]
pub enum Stage {
    /// The authorization code is exchanged for an access token.
    Exchange,
    /// The profile of the token's owner is read.
    Identity,
}

/// The kind of failure that a stage ends in when the provider's answer
/// cannot be used.
pub open spec fn stage_failure_kind(stage: Stage) -> ErrorKind {
    match stage {
        Stage::Exchange => ErrorKind::TokenExchange,
        Stage::Identity => ErrorKind::IdentityFetch,
    }
}

/// What precedes the provider's own words in a stage's diagnostic.
pub open spec fn stage_error_prefix(stage: Stage) -> Seq<char> {
    match stage {
        Stage::Exchange => TOKEN_ERROR_PREFIX@,
        Stage::Identity => PROFILE_ERROR_PREFIX@,
    }
}

/// The member of the provider's answer that a stage reads.
pub open spec fn stage_member(stage: Stage) -> Seq<char> {
    match stage {
        Stage::Exchange => TOKEN_MEMBER@,
        Stage::Identity => PROFILE_MEMBER@,
    }
}

/// The diagnostic of an answer that is no JSON document.
pub open spec fn stage_malformed_message(stage: Stage) -> Seq<char> {
    match stage {
        Stage::Exchange => TOKEN_MALFORMED@,
        Stage::Identity => PROFILE_MALFORMED@,
    }
}

/// The diagnostic of an answer that lacks the member the stage reads.
pub open spec fn stage_missing_message(stage: Stage) -> Seq<char> {
    match stage {
        Stage::Exchange => TOKEN_MISSING@,
        Stage::Identity => PROFILE_MISSING@,
    }
}

/// Whether the non-empty `secret` stands in `text`.
pub open spec fn discloses(text: Seq<char>, secret: Option<Seq<char>>) -> bool {
    secret matches Some(s) && s.len() > 0 && occurs_in(s, text)
}

/// The diagnostic that quotes `text` after `prefix`, unless that would
/// disclose the client secret: then a fixed notice stands in for `text`.
pub open spec fn diagnostic_text(
    prefix: Seq<char>,
    text: Seq<char>,
    secret: Option<Seq<char>>,
) -> Seq<char> {
    if discloses(prefix + text, secret) {
        prefix + WITHHELD@
    } else {
        prefix + text
    }
}

/// The diagnostic that quotes `text` after `prefix`, with the client
/// secret kept out of it.
pub fn diagnostic(prefix: &str, text: &str, secret: &Option<String>) -> (d: String)
    ensures
        d@ == diagnostic_text(prefix@, text@, option_text(*secret)),
{
    let mut quoted = String::from_str(prefix);
    quoted.append(text);
    let disclosed = match secret {
        Some(s) => !s.as_str().is_empty() && contains(quoted.as_str(), s.as_str()),
        None => false,
    };
    if disclosed {
        let mut notice = String::from_str(prefix);
        notice.append(WITHHELD);
        notice
    } else {
        quoted
    }
}

/// The JSON member that a stage reads from an answer: looked up only in
/// the body of an answer that reports success.
pub open spec fn answer_member(stage: Stage, outcome: OutcomeContent) -> FieldContent {
    match outcome {
        OutcomeContent::Response { status, body: Some(text) } => if is_success(status) {
            field_of(text, stage_member(stage))
        } else {
            FieldContent::NotJson
        },
        _ => FieldContent::NotJson,
    }
}

/// What a stage makes of the provider's answer: the text it was after (the
/// access token, the login), or the failure. `member` is what the lookup
/// of the stage's member in the body found.
pub open spec fn answer_text(
    stage: Stage,
    outcome: OutcomeContent,
    member: FieldContent,
    secret: Option<Seq<char>>,
) -> Result<Seq<char>, AuthFailure> {
    match outcome {
        OutcomeContent::TimedOut => Err(
            AuthFailure { kind: ErrorKind::NetworkTimeout, detail: TIMEOUT_MESSAGE@ },
        ),
        OutcomeContent::Failed { detail } => Err(
            AuthFailure {
                kind: stage_failure_kind(stage),
                detail: diagnostic_text(Seq::empty(), detail, secret),
            },
        ),
        OutcomeContent::Response { status, body } => if !is_success(status) {
            Err(
                AuthFailure {
                    kind: stage_failure_kind(stage),
                    detail: diagnostic_text(
                        stage_error_prefix(stage),
                        match body {
                            Some(text) => text,
                            None => UNREADABLE_BODY@,
                        },
                        secret,
                    ),
                },
            )
        } else if body is None {
            Err(
                AuthFailure {
                    kind: stage_failure_kind(stage),
                    detail: stage_malformed_message(stage),
                },
            )
        } else {
            match member {
                FieldContent::Text(text) => Ok(text),
                FieldContent::Absent => Err(
                    AuthFailure {
                        kind: stage_failure_kind(stage),
                        detail: stage_missing_message(stage),
                    },
                ),
                FieldContent::NotJson => Err(
                    AuthFailure {
                        kind: stage_failure_kind(stage),
                        detail: stage_malformed_message(stage),
                    },
                ),
            }
        },
    }
}

/// The kind of failure of a stage.
fn failure_kind(stage: Stage) -> (kind: ErrorKind)
    ensures
        kind == stage_failure_kind(stage),
{
    match stage {
        Stage::Exchange => ErrorKind::TokenExchange,
        Stage::Identity => ErrorKind::IdentityFetch,
    }
}

/// What precedes the provider's own words in a stage's diagnostic.
fn error_prefix(stage: Stage) -> (prefix: &'static str)
    ensures
        prefix@ == stage_error_prefix(stage),
{
    match stage {
        Stage::Exchange => TOKEN_ERROR_PREFIX,
        Stage::Identity => PROFILE_ERROR_PREFIX,
    }
}

/// The member of the provider's answer that a stage reads.
fn member_name(stage: Stage) -> (name: &'static str)
    ensures
        name@ == stage_member(stage),
{
    match stage {
        Stage::Exchange => TOKEN_MEMBER,
        Stage::Identity => PROFILE_MEMBER,
    }
}

/// The failure of an answer that is no JSON document.
fn malformed(stage: Stage) -> (e: AuthError)
    ensures
        e@ == (AuthFailure {
            kind: stage_failure_kind(stage),
            detail: stage_malformed_message(stage),
        }),
{
    let detail = match stage {
        Stage::Exchange => TOKEN_MALFORMED,
        Stage::Identity => PROFILE_MALFORMED,
    };
    AuthError::new(failure_kind(stage), String::from_str(detail))
}

/// The failure of an answer that lacks the member the stage reads.
fn missing(stage: Stage) -> (e: AuthError)
    ensures
        e@ == (AuthFailure {
            kind: stage_failure_kind(stage),
            detail: stage_missing_message(stage),
        }),
{
    let detail = match stage {
        Stage::Exchange => TOKEN_MISSING,
        Stage::Identity => PROFILE_MISSING,
    };
    AuthError::new(failure_kind(stage), String::from_str(detail))
}

/// Looks up the member that `stage` reads, in the body of an answer that
/// reports success.
pub fn read_member(stage: Stage, outcome: &HttpOutcome) -> (member: JsonField)
    ensures
        member@ == answer_member(stage, outcome@),
{
    match outcome {
        HttpOutcome::Response { status, body: Some(text) } => {
            if status_is_success(*status) {
                string_field(text.as_str(), member_name(stage))
            } else {
                JsonField::NotJson
            }
        },
        _ => JsonField::NotJson,
    }
}

/// Decides what a stage makes of the provider's answer, given what the
/// lookup of the stage's member in the body found.
pub fn read_answer(
    stage: Stage,
    outcome: HttpOutcome,
    member: JsonField,
    secret: &Option<String>,
) -> (r: Result<String, AuthError>)
    ensures
        result_text(r) == answer_text(stage, outcome@, member@, option_text(*secret)),
{
    match outcome {
        HttpOutcome::TimedOut => Err(
            AuthError::new(ErrorKind::NetworkTimeout, String::from_str(TIMEOUT_MESSAGE)),
        ),
        HttpOutcome::Failed { detail } => {
            proof {
                assert(""@ =~= Seq::<char>::empty()) by {
                    reveal_strlit("");
                }
            }
            Err(AuthError::new(failure_kind(stage), diagnostic("", detail.as_str(), secret)))
        },
        HttpOutcome::Response { status, body } => {
            if !status_is_success(status) {
                let detail = match &body {
                    Some(text) => diagnostic(error_prefix(stage), text.as_str(), secret),
                    None => diagnostic(error_prefix(stage), UNREADABLE_BODY, secret),
                };
                Err(AuthError::new(failure_kind(stage), detail))
            } else if body.is_none() {
                Err(malformed(stage))
            } else {
                match member {
                    JsonField::Text(text) => Ok(text),
                    JsonField::Absent => Err(missing(stage)),
                    JsonField::NotJson => Err(malformed(stage)),
                }
            }
        },
    }
}

} // verus!
