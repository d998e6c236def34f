//! OAuth dynamic client registration (RFC 7591) for MCP clients.
//!
//! Only confidential clients are registered. A client that asks for no
//! authentication is told the effective `client_secret_post` method and given
//! a secret once; of the secret only a hash is stored.

pub mod client;
pub mod course;
pub mod endpoint;
pub mod error;
pub mod metadata;
pub mod scopes;
