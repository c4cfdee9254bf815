//! Decisions taken from the configuration.

use vstd::prelude::*;

verus! {

/// How the connection to the database uses TLS.
#[derive(Debug, Clone, Copy, PartialEq, Eq, Structural)]
pub enum SslMode {
    /// Only an encrypted connection is accepted.
    Require,
    /// An encrypted connection is tried first, then a plain one.
    Prefer,
}

/// Encryption is required when the configuration asks for it, and preferred
/// otherwise.
pub fn ssl_mode(require_ssl: bool) -> (r: SslMode)
    ensures
        r == (if require_ssl {
            SslMode::Require
        } else {
            SslMode::Prefer
        }),
{
    if require_ssl {
        SslMode::Require
    } else {
        SslMode::Prefer
    }
}

} // verus!
