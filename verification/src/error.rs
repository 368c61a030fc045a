//! The errors of a token lookup.

use vstd::prelude::*;
use vstd::std_specs::convert::FromSpecImpl;

verus! {

/// Why no answer could be given to the question which token a host has.
///
/// That a host has no token is no error. An error says that a source was
/// there and could not be used, and names the layer that failed; it never
/// holds the bytes of a secret.
#[derive(Debug, Clone, PartialEq, Eq)]
pub enum Error {
    /// The secure storage failed, or what it holds is malformed.
    Keyring(crate::keyring::Error),
    /// The secret in the secure storage is no UTF-8 text.
    InvalidUtf8,
}

impl From<crate::keyring::Error> for Error {
    fn from(e: crate::keyring::Error) -> (r: Error) {
        Error::Keyring(e)
    }
}

impl FromSpecImpl<crate::keyring::Error> for Error {
    open spec fn obeys_from_spec() -> bool {
        true
    }

    open spec fn from_spec(e: crate::keyring::Error) -> Error {
        Error::Keyring(e)
    }
}

} // verus!
