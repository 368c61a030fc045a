//! The credential vault of Windows.
//!
//! A secret is a generic credential whose target name is the service name
//! of the host followed by a colon. The vault stores the secret as it is.

use crate::codec::decoded_view;
use crate::keyring::{secret_view, service_identifier, service_name};
use vstd::prelude::*;
use vstd::string::StringExecFns;

verus! {

/// The code with which the vault says that it holds no such credential:
/// the Win32 error 1168, "element not found", as a result handle
/// (`0x80070490`).
pub const NOT_FOUND: i32 = -2147023728;

/// A failure of the credential vault.
#[derive(Debug, Clone, Copy, PartialEq, Eq)]
pub enum Error {
    /// The read failed with this code, which is not `NOT_FOUND`.
    Win32(i32),
}

/// The credential vault as a store of secrets.
///
/// The read itself is the caller's: a generic credential with the target
/// name `target_name(host)`. `interpret` then says what the vault's answer
/// means.
#[derive(Debug, Clone, Copy, PartialEq, Eq)]
pub struct Wincred;

impl Wincred {
    /// The target name of the credential that holds the secret of `host`.
    pub open spec fn target(host: Seq<char>) -> Seq<char> {
        service_identifier(host) + ":"@
    }

    /// What the answer of the vault means: the code `NOT_FOUND` says that
    /// nothing is stored, any other code is an error, and a credential's
    /// blob is the secret as it stands.
    pub open spec fn interpretation(read: Result<Seq<u8>, i32>) -> Result<
        Option<Seq<u8>>,
        crate::keyring::Error,
    > {
        match read {
            Ok(blob) => Ok(Some(blob)),
            Err(code) => if code == NOT_FOUND {
                Ok(None)
            } else {
                Err(crate::keyring::Error::Windows(Error::Win32(code)))
            },
        }
    }

    /// The target name of the credential that holds the secret of `host`:
    /// `gh:`, the hostname and a colon.
    pub fn target_name(&self, host: &str) -> (r: String)
        ensures
            r@ == Self::target(host@),
    {
        service_name(host).concat(":")
    }

    /// Turns the answer of the vault into the secret: `read` is the blob of
    /// the credential, or the code of the failed read.
    pub fn interpret(&self, read: Result<Vec<u8>, i32>) -> (r: Result<
        Option<Vec<u8>>,
        crate::keyring::Error,
    >)
        ensures
            secret_view(r) == Self::interpretation(decoded_view(read)),
    {
        match read {
            Ok(blob) => Ok(Some(blob)),
            Err(code) => {
                if code == NOT_FOUND {
                    Ok(None)
                } else {
                    Err(crate::keyring::Error::Windows(Error::Win32(code)))
                }
            },
        }
    }
}

} // verus!
