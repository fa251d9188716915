//! OAuth2 authorization-code handshake with PKCE against a fixed identity
//! provider: the pending-attempt slot, the construction of the authorization
//! request, and the decisions taken on the provider's answers.

pub mod answer;
pub mod authorize;
pub mod config;
pub mod error;
pub mod flow;
pub mod http;
pub mod json;
pub mod laws;
pub mod pkce;
pub mod session;
pub mod text;
