//! Which token a host has.
//!
//! Three sources are asked in a fixed order, and the first that has a token
//! gives it: the environment, the plaintext token of the host's entry, the
//! secure storage. A source that has nothing passes the question on; a
//! source that fails ends the lookup with its error.

use crate::error::Error;
use crate::hosts::{HostView, Hosts};
use crate::keyring::GhKeyring;
use crate::text::{str_ends_with, str_eq, string_from_utf8};
use vstd::prelude::*;
use vstd::string::StringExecFns;
use vstd::utf8::{decode_utf8, valid_utf8};

verus! {

/// The hostname of the public service.
pub const GITHUB_COM: &'static str = "github.com";

/// The domain of the enterprise cloud, whose tenants are its subdomains.
pub const GHE_COM: &'static str = "ghe.com";

/// The hostname of a local development instance.
pub const LOCALHOST: &'static str = "github.localhost";

/// The variable that holds a token for the public service and its likes.
pub const GH_TOKEN: &'static str = "GH_TOKEN";

/// The variable that is read where `GH_TOKEN` is not set.
pub const GITHUB_TOKEN: &'static str = "GITHUB_TOKEN";

/// The variable that holds a token for enterprise hosts.
pub const GH_ENTERPRISE_TOKEN: &'static str = "GH_ENTERPRISE_TOKEN";

/// The variable that is read where `GH_ENTERPRISE_TOKEN` is not set.
pub const GITHUB_ENTERPRISE_TOKEN: &'static str = "GITHUB_ENTERPRISE_TOKEN";

/// What the environment says of tokens. A variable that is not set, or
/// whose value is no Unicode, is `None`; one that is set to the empty
/// string is `Some` and counts as set.
pub struct TokenEnv {
    /// The value of `GH_TOKEN`.
    pub gh_token: Option<String>,
    /// The value of `GITHUB_TOKEN`.
    pub github_token: Option<String>,
    /// The value of `GH_ENTERPRISE_TOKEN`.
    pub gh_enterprise_token: Option<String>,
    /// The value of `GITHUB_ENTERPRISE_TOKEN`.
    pub github_enterprise_token: Option<String>,
}

/// The model of a `TokenEnv`.
pub struct TokenEnvView {
    pub gh_token: Option<Seq<char>>,
    pub github_token: Option<Seq<char>>,
    pub gh_enterprise_token: Option<Seq<char>>,
    pub github_enterprise_token: Option<Seq<char>>,
}

impl View for TokenEnv {
    type V = TokenEnvView;

    open spec fn view(&self) -> TokenEnvView {
        TokenEnvView {
            gh_token: self.gh_token.deep_view(),
            github_token: self.github_token.deep_view(),
            gh_enterprise_token: self.gh_enterprise_token.deep_view(),
            github_enterprise_token: self.github_enterprise_token.deep_view(),
        }
    }
}

impl Default for TokenEnv {
    /// The environment in which none of the variables is set.
    fn default() -> (r: TokenEnv)
        ensures
            r@ == (TokenEnvView {
                gh_token: None,
                github_token: None,
                gh_enterprise_token: None,
                github_enterprise_token: None,
            }),
    {
        TokenEnv {
            gh_token: None,
            github_token: None,
            gh_enterprise_token: None,
            github_enterprise_token: None,
        }
    }
}

/// The view of a lookup's result: the token as a sequence of characters.
pub open spec fn token_view(r: Result<Option<String>, Error>) -> Result<Option<Seq<char>>, Error> {
    match r {
        Ok(Some(token)) => Ok(Some(token@)),
        Ok(None) => Ok(None),
        Err(e) => Err(e),
    }
}

/// Whether `host` is a GitHub Enterprise Server instance: any host but the
/// public service, the local development instance, and the enterprise cloud
/// with its subdomains.
pub open spec fn is_enterprise_host(host: Seq<char>) -> bool {
    &&& host != GITHUB_COM@
    &&& host != LOCALHOST@
    &&& host != GHE_COM@
    &&& !("."@ + GHE_COM@).is_suffix_of(host)
}

/// The token that the environment holds: for an enterprise host the first
/// of `GH_ENTERPRISE_TOKEN` and `GITHUB_ENTERPRISE_TOKEN` that is set, then,
/// for every host, the first of `GH_TOKEN` and `GITHUB_TOKEN` that is set.
pub open spec fn token_from_env(enterprise: bool, env: TokenEnvView) -> Option<Seq<char>> {
    if enterprise && env.gh_enterprise_token is Some {
        env.gh_enterprise_token
    } else if enterprise && env.github_enterprise_token is Some {
        env.github_enterprise_token
    } else if env.gh_token is Some {
        env.gh_token
    } else {
        env.github_token
    }
}

/// The plaintext token of the host's entry. An entry with an empty token
/// has none, as a host without an entry has none.
pub open spec fn plaintext_token(hosts: Map<Seq<char>, HostView>, hostname: Seq<char>) -> Option<
    Seq<char>,
> {
    if hosts.contains_key(hostname) && hosts[hostname].oauth_token.len() > 0 {
        Some(hosts[hostname].oauth_token)
    } else {
        None
    }
}

/// The token that is found without asking the secure storage: that of the
/// environment, else that of the host's entry.
pub open spec fn token_at_hand(
    hosts: Map<Seq<char>, HostView>,
    hostname: Seq<char>,
    env: TokenEnvView,
) -> Option<Seq<char>> {
    match token_from_env(is_enterprise_host(hostname), env) {
        Some(token) => Some(token),
        None => plaintext_token(hosts, hostname),
    }
}

/// The token in an answer of the secure storage: its secret read as UTF-8.
/// A failure of the storage is handed on, and a secret that is no UTF-8 is
/// an error of its own.
pub open spec fn token_of_secret(secret: Result<Option<Seq<u8>>, crate::keyring::Error>) -> Result<
    Option<Seq<char>>,
    Error,
> {
    match secret {
        Ok(Some(bytes)) => if valid_utf8(bytes) {
            Ok(Some(decode_utf8(bytes)))
        } else {
            Err(Error::InvalidUtf8)
        },
        Ok(None) => Ok(None),
        Err(e) => Err(Error::Keyring(e)),
    }
}

/// The token of `hostname`, where `secret` is what the secure storage
/// answers if it is asked.
pub open spec fn resolution(
    hosts: Map<Seq<char>, HostView>,
    hostname: Seq<char>,
    env: TokenEnvView,
    secret: Result<Option<Seq<u8>>, crate::keyring::Error>,
) -> Result<Option<Seq<char>>, Error> {
    match token_at_hand(hosts, hostname, env) {
        Some(token) => Ok(Some(token)),
        None => token_of_secret(secret),
    }
}

/// Determines whether the hostname is that of a GitHub Enterprise Server
/// instance.
pub fn is_enterprise(host: &str) -> (r: bool)
    ensures
        r == is_enterprise_host(host@),
{
    if str_eq(host, GITHUB_COM) || str_eq(host, LOCALHOST) || str_eq(host, GHE_COM) {
        return false;
    }
    let subdomain = String::from_str(".").concat(GHE_COM);
    !str_ends_with(host, subdomain.as_str())
}

/// The value of the first of the two variables that is set.
fn first_set(first: &Option<String>, second: &Option<String>) -> (r: Option<String>)
    ensures
        r.deep_view() == if first is Some {
            first.deep_view()
        } else {
            second.deep_view()
        },
{
    match first {
        Some(token) => Some(token.clone()),
        None => match second {
            Some(token) => Some(token.clone()),
            None => None,
        },
    }
}

/// Retrieves a token from the environment: `GH_TOKEN` or `GITHUB_TOKEN`,
/// and before them, for an enterprise host, `GH_ENTERPRISE_TOKEN` or
/// `GITHUB_ENTERPRISE_TOKEN`.
pub fn retrieve_token_from_env(enterprise: bool, env: &TokenEnv) -> (r: Option<String>)
    ensures
        r.deep_view() == token_from_env(enterprise, env@),
{
    if enterprise {
        let token = first_set(&env.gh_enterprise_token, &env.github_enterprise_token);
        if token.is_some() {
            return token;
        }
    }
    first_set(&env.gh_token, &env.github_token)
}

/// Reads the answer of the secure storage as a token.
pub fn token_from_secret(secret: Result<Option<Vec<u8>>, crate::keyring::Error>) -> (r: Result<
    Option<String>,
    Error,
>)
    ensures
        token_view(r) == token_of_secret(crate::keyring::secret_view(secret)),
{
    match secret {
        Ok(Some(bytes)) => match string_from_utf8(bytes) {
            Some(token) => Ok(Some(token)),
            None => Err(Error::InvalidUtf8),
        },
        Ok(None) => Ok(None),
        Err(e) => Err(Error::from(e)),
    }
}

/// Retrieves a token from the secure storage.
///
/// The storage may prompt the user to unlock it. Whatever it answers, the
/// result is what `token_from_secret` makes of that answer.
pub fn retrieve_token_secure<K: GhKeyring>(hostname: &str, keyring: &K) -> (r: Result<
    Option<String>,
    Error,
>)
    ensures
        exists|secret: Result<Option<Seq<u8>>, crate::keyring::Error>|
            token_view(r) == token_of_secret(secret),
{
    let secret = keyring.get(hostname);
    let r = token_from_secret(secret);
    assert(token_view(r) == token_of_secret(crate::keyring::secret_view(secret)));
    r
}

impl Hosts {
    /// The token that is found without asking the secure storage: that of
    /// the environment, else the plaintext token of the host's entry.
    pub fn token_at_hand(&self, hostname: &str, env: &TokenEnv) -> (r: Option<String>)
        ensures
            r.deep_view() == token_at_hand(self@, hostname@, env@),
    {
        if let Some(token) = retrieve_token_from_env(is_enterprise(hostname), env) {
            return Some(token);
        }
        if let Some(host) = self.get(hostname) {
            let token = host.oauth_token();
            if !token.is_empty() {
                return Some(String::from_str(token));
            }
        }
        None
    }

    /// Retrieves a token from the environment, the entry of the host or the
    /// secure storage, in this order.
    ///
    /// The secure storage is asked only where neither the environment nor
    /// the entry has a token, and it may then prompt the user to unlock it.
    /// `Ok(None)` says that no source has a token for the host.
    pub fn retrieve_token<K: GhKeyring>(&self, hostname: &str, env: &TokenEnv, keyring: &K) -> (r:
        Result<Option<String>, Error>)
        ensures
            token_at_hand(self@, hostname@, env@) matches Some(token) ==> token_view(r) == Ok::<
                Option<Seq<char>>,
                Error,
            >(Some(token)),
            exists|secret: Result<Option<Seq<u8>>, crate::keyring::Error>|
                token_view(r) == resolution(self@, hostname@, env@, secret),
    {
        if let Some(token) = self.token_at_hand(hostname, env) {
            assert(token_view(Ok(Some(token))) == resolution(
                self@,
                hostname@,
                env@,
                Ok(None),
            ));
            return Ok(Some(token));
        }
        let secret = keyring.get(hostname);
        let r = token_from_secret(secret);
        assert(token_view(r) == resolution(
            self@,
            hostname@,
            env@,
            crate::keyring::secret_view(secret),
        ));
        r
    }

    /// Retrieves a token from the secure storage only. The hosts are not
    /// read: the result is that of `retrieve_token_secure` of this module.
    pub fn retrieve_token_secure<K: GhKeyring>(&self, hostname: &str, keyring: &K) -> (r: Result<
        Option<String>,
        Error,
    >)
        ensures
            exists|secret: Result<Option<Seq<u8>>, crate::keyring::Error>|
                token_view(r) == token_of_secret(secret),
    {
        retrieve_token_secure(hostname, keyring)
    }
}

/// For an enterprise host the enterprise variable decides: where
/// `GH_ENTERPRISE_TOKEN` is set, its value is the token, whether or not
/// `GH_TOKEN` is set beside it, and whatever the hosts and the secure
/// storage hold. Where neither enterprise variable is set, the value of
/// `GH_TOKEN` is the token.
pub proof fn lemma_enterprise_token(
    hosts: Map<Seq<char>, HostView>,
    hostname: Seq<char>,
    env: TokenEnvView,
    secret: Result<Option<Seq<u8>>, crate::keyring::Error>,
)
    requires
        is_enterprise_host(hostname),
    ensures
        env.gh_enterprise_token matches Some(token) ==> resolution(hosts, hostname, env, secret)
            == Ok::<Option<Seq<char>>, Error>(Some(token)),
        env.gh_enterprise_token is None && env.github_enterprise_token is None
            ==> (env.gh_token matches Some(token) ==> resolution(hosts, hostname, env, secret)
            == Ok::<Option<Seq<char>>, Error>(Some(token))),
{
}

/// For a host that is no enterprise host the enterprise variables are not
/// read: the token of the environment is that of `GH_TOKEN`, else that of
/// `GITHUB_TOKEN`.
pub proof fn lemma_public_token(env: TokenEnvView)
    ensures
        token_from_env(false, env) == if env.gh_token is Some {
            env.gh_token
        } else {
            env.github_token
        },
{
}

/// Where no variable is set, the host has no plaintext token and the secure
/// storage holds nothing for it, the host has no token, and that is no error.
pub proof fn lemma_no_token(
    hosts: Map<Seq<char>, HostView>,
    hostname: Seq<char>,
    env: TokenEnvView,
)
    requires
        env.gh_token is None,
        env.github_token is None,
        env.gh_enterprise_token is None,
        env.github_enterprise_token is None,
        plaintext_token(hosts, hostname) is None,
    ensures
        resolution(hosts, hostname, env, Ok(None)) == Ok::<Option<Seq<char>>, Error>(None),
{
}

/// Where the secure storage is asked and fails, the lookup fails with that
/// failure: it does not come to "no token".
pub proof fn lemma_storage_failure(
    hosts: Map<Seq<char>, HostView>,
    hostname: Seq<char>,
    env: TokenEnvView,
    failure: crate::keyring::Error,
)
    requires
        token_at_hand(hosts, hostname, env) is None,
    ensures
        resolution(hosts, hostname, env, Err(failure)) == Err::<Option<Seq<char>>, Error>(
            Error::Keyring(failure),
        ),
{
}

} // verus!
