//! Resolves the authentication token that the GitHub CLI would use for a host.
//!
//! The token of a host is looked up in this order: the environment
//! variables, the plaintext token of the host's entry in the hosts file, and
//! finally the secure storage of the operating system. This crate holds the
//! rules of that lookup and proves them with Verus. Reading the environment,
//! the files and the native secret stores is left to the caller, who hands
//! in what was read.

pub mod codec;
pub mod config;
pub mod error;
pub mod hosts;
pub mod keyring;
pub mod text;
pub mod token;

pub use config::{find_config_directory, Config, GitProtocol, Prompt};
pub use error::Error;
pub use hosts::{Host, Hosts};
pub use keyring::GhKeyring;
pub use token::{
    is_enterprise, retrieve_token_from_env, retrieve_token_secure, token_from_secret, TokenEnv,
    GHE_COM, GITHUB_COM, LOCALHOST,
};
