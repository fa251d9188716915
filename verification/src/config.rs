//! The provider credentials, as the process was configured with them.

use vstd::prelude::*;
use vstd::string::StringExecFns;
use crate::error::{AuthError, AuthFailure, ErrorKind, result_text};
use crate::text::option_text;

verus! {

/// The setting that names this application to the provider.
pub const CLIENT_ID_VAR: &'static str = "GITHUB_CLIENT_ID";

/// The setting that holds the application's secret.
pub const CLIENT_SECRET_VAR: &'static str = "GITHUB_CLIENT_SECRET";

/// The setting that overrides where the provider sends the user back to.
pub const REDIRECT_URI_VAR: &'static str = "GITHUB_REDIRECT_URI";

/// Where the provider sends the user back to unless configured otherwise.
pub const DEFAULT_REDIRECT_URI: &'static str = "renox://auth/github/callback";

/// What every missing-setting diagnostic starts with; the setting's name
/// follows.
pub const MISSING_SETTING_PREFIX: &'static str = "Missing required environment variable: ";

/// The failure for a required setting called `name` that is absent.
pub open spec fn missing_setting(name: Seq<char>) -> AuthFailure {
    AuthFailure { kind: ErrorKind::Configuration, detail: MISSING_SETTING_PREFIX@ + name }
}

/// The value of a required setting, or the failure that names it.
pub open spec fn required_setting(
    name: Seq<char>,
    value: Option<Seq<char>>,
) -> Result<Seq<char>, AuthFailure> {
    match value {
        Some(v) => Ok(v),
        None => Err(missing_setting(name)),
    }
}

/// Resolves a required setting: `value` is what was found under `name`,
/// `None` if nothing was.
pub fn require(name: &str, value: &Option<String>) -> (r: Result<String, AuthError>)
    ensures
        result_text(r) == required_setting(name@, option_text(*value)),
{
    match value {
        Some(v) => Ok(v.clone()),
        None => {
            let mut detail = String::from_str(MISSING_SETTING_PREFIX);
            detail.append(name);
            Err(AuthError::new(ErrorKind::Configuration, detail))
        },
    }
}

/// The settings of the process that concern the provider. They are read
/// once, when the process starts; a required one that is absent is reported
/// by the first operation that needs it. The secret cannot be formatted for
/// display.
pub struct ProviderCredentials {
    pub client_id: Option<String>,
    pub client_secret: Option<String>,
    pub redirect_uri: Option<String>,
}

/// The mathematical content of [`ProviderCredentials`].
pub struct Settings {
    pub client_id: Option<Seq<char>>,
    pub client_secret: Option<Seq<char>>,
    pub redirect_uri: Option<Seq<char>>,
}

impl View for ProviderCredentials {
    type V = Settings;

    open spec fn view(&self) -> Settings {
        Settings {
            client_id: option_text(self.client_id),
            client_secret: option_text(self.client_secret),
            redirect_uri: option_text(self.redirect_uri),
        }
    }
}

impl Settings {
    /// The client id, or the failure that names its setting.
    pub open spec fn required_client_id(self) -> Result<Seq<char>, AuthFailure> {
        required_setting(CLIENT_ID_VAR@, self.client_id)
    }

    /// The client secret, or the failure that names its setting.
    pub open spec fn required_client_secret(self) -> Result<Seq<char>, AuthFailure> {
        required_setting(CLIENT_SECRET_VAR@, self.client_secret)
    }

    /// The redirect URI in force: the configured one, else the default.
    pub open spec fn effective_redirect_uri(self) -> Seq<char> {
        match self.redirect_uri {
            Some(uri) => uri,
            None => DEFAULT_REDIRECT_URI@,
        }
    }
}

impl ProviderCredentials {
    /// The credentials made of the three settings as they were found.
    pub fn new(
        client_id: Option<String>,
        client_secret: Option<String>,
        redirect_uri: Option<String>,
    ) -> (c: ProviderCredentials)
        ensures
            c@ == (Settings {
                client_id: option_text(client_id),
                client_secret: option_text(client_secret),
                redirect_uri: option_text(redirect_uri),
            }),
    {
        ProviderCredentials { client_id, client_secret, redirect_uri }
    }

    /// The client id, or the failure that names its setting.
    pub fn client_id(&self) -> (r: Result<String, AuthError>)
        ensures
            result_text(r) == self@.required_client_id(),
    {
        require(CLIENT_ID_VAR, &self.client_id)
    }

    /// The client secret, or the failure that names its setting.
    pub fn client_secret(&self) -> (r: Result<String, AuthError>)
        ensures
            result_text(r) == self@.required_client_secret(),
    {
        require(CLIENT_SECRET_VAR, &self.client_secret)
    }

    /// The redirect URI in force: the configured one, else the default.
    pub fn redirect_uri(&self) -> (uri: String)
        ensures
            uri@ == self@.effective_redirect_uri(),
    {
        match &self.redirect_uri {
            Some(uri) => uri.clone(),
            None => String::from_str(DEFAULT_REDIRECT_URI),
        }
    }
}

} // verus!
