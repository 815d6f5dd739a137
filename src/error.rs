use crate::auth::LoginError;
use vstd::prelude::*;

verus! {

/// What goes wrong in the catalog exchanges that the library decides on.
/// Transport, file-system and mod-list parse failures come from the I/O
/// layer around the library and never pass through these rules.
#[derive(Debug)]
pub enum Error {
    /// The authentication service refused the login.
    FactorioLogin(LoginError),
    /// The catalog answered with a failure; its body is kept as it came.
    FactorioApi(String),
    /// The catalog lists no release of the mod (first field) with exactly
    /// the requested version (second field).
    NoMatchingRelease(String, String),
}

pub type Result<T> = std::result::Result<T, Error>;

} // verus!
