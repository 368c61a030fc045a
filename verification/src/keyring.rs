//! The secure storage of the operating system, as a source of secrets.
//!
//! A secret is stored under a service name that is derived from the
//! hostname. Each platform has a store of its own, with its own way of
//! saying that nothing is stored and its own errors; the modules below hold
//! what this crate decides for each of them.

pub mod linux;
pub mod macos;
pub mod windows;

use vstd::prelude::*;
use vstd::string::StringExecFns;

verus! {

/// A failure of the secure storage, tagged with the platform that reported it.
#[derive(Debug, Clone, PartialEq, Eq)]
pub enum Error {
    /// The credential vault of Windows.
    Windows(windows::Error),
    /// The keychain of macOS, or the wrapper round a secret read from it.
    Macos(macos::Error),
    /// The Secret Service of a Linux desktop.
    Linux(linux::Error),
}

/// A store of secrets: it either holds a secret for a host, holds none, or fails.
///
/// `Ok(None)` says that nothing is stored for the host, which is no error.
/// `Ok(Some(..))` holds the secret. An implementation for a native store
/// passes `host` to it unchanged, and hands on every failure but the
/// store's own "not found".
pub trait GhKeyring {
    fn get(&self, host: &str) -> Result<Option<Vec<u8>>, Error>;
}

/// The prefix that turns a hostname into the name under which its secret is stored.
pub const NAMESPACE: &'static str = "gh:";

/// The name under which the secret of `host` is stored.
pub open spec fn service_identifier(host: Seq<char>) -> Seq<char> {
    NAMESPACE@ + host
}

/// The view of what a store returned: the secret as a sequence of bytes.
pub open spec fn secret_view(r: Result<Option<Vec<u8>>, Error>) -> Result<Option<Seq<u8>>, Error> {
    match r {
        Ok(Some(secret)) => Ok(Some(secret@)),
        Ok(None) => Ok(None),
        Err(e) => Err(e),
    }
}

/// The name under which the secret of `host` is stored: `gh:` and the
/// hostname, which is not normalized in any way.
pub fn service_name(host: &str) -> (r: String)
    ensures
        r@ == service_identifier(host@),
{
    String::from_str(NAMESPACE).concat(host)
}

} // verus!
