use gh_config::error::Error;
use gh_config::keyring::{self, GhKeyring};
use gh_config::{
    is_enterprise, retrieve_token_from_env, retrieve_token_secure, token_from_secret, GitProtocol,
    Host, Hosts, TokenEnv,
};
use std::cell::Cell;

/// A store that gives a fixed answer and counts how often it is asked.
struct Simulated {
    answer: Result<Option<Vec<u8>>, keyring::Error>,
    asked: Cell<usize>,
}

impl Simulated {
    fn new(answer: Result<Option<Vec<u8>>, keyring::Error>) -> Self {
        Simulated { answer, asked: Cell::new(0) }
    }

    fn holding(secret: &[u8]) -> Self {
        Self::new(Ok(Some(secret.to_vec())))
    }

    fn empty() -> Self {
        Self::new(Ok(None))
    }
}

impl GhKeyring for Simulated {
    fn get(&self, _host: &str) -> Result<Option<Vec<u8>>, keyring::Error> {
        self.asked.set(self.asked.get() + 1);
        self.answer.clone()
    }
}

fn env(
    gh_token: Option<&str>,
    github_token: Option<&str>,
    gh_enterprise_token: Option<&str>,
    github_enterprise_token: Option<&str>,
) -> TokenEnv {
    TokenEnv {
        gh_token: gh_token.map(str::to_string),
        github_token: github_token.map(str::to_string),
        gh_enterprise_token: gh_enterprise_token.map(str::to_string),
        github_enterprise_token: github_enterprise_token.map(str::to_string),
    }
}

fn hosts_with(hostname: &str, token: &str) -> Hosts {
    let mut hosts = Hosts::new();
    hosts.set(hostname, Host::new(Some("octocat".to_string()), token.to_string(), Some(GitProtocol::Ssh)));
    hosts
}

fn failure() -> keyring::Error {
    keyring::Error::Linux(keyring::linux::Error::SecretService("service unavailable".to_string()))
}

#[test]
fn public_and_local_hosts_are_not_enterprise() {
    assert!(!is_enterprise("github.com"));
    assert!(!is_enterprise("github.localhost"));
}

#[test]
fn enterprise_cloud_and_its_tenants_are_not_enterprise() {
    assert!(!is_enterprise("ghe.com"));
    assert!(!is_enterprise("x.ghe.com"));
    assert!(!is_enterprise("tenant.api.ghe.com"));
}

#[test]
fn other_hosts_are_enterprise() {
    assert!(is_enterprise("ghe.example.com"));
    assert!(is_enterprise("example.com"));
    assert!(is_enterprise("GitHub.com"));
    assert!(is_enterprise("github.com."));
    assert!(is_enterprise("xghe.com"));
    assert!(is_enterprise("ghe.com.example"));
    assert!(is_enterprise(".ghe.co"));
    assert!(is_enterprise(""));
    assert!(is_enterprise("h\u{f4}te.example"));
}

#[test]
fn enterprise_variable_alone_gives_its_value() {
    let env = env(None, None, Some("ghe_token"), None);
    assert_eq!(retrieve_token_from_env(true, &env), Some("ghe_token".to_string()));
    let keyring = Simulated::holding(b"stored");
    assert_eq!(
        Hosts::new().retrieve_token("ghe.example.com", &env, &keyring),
        Ok(Some("ghe_token".to_string()))
    );
    assert_eq!(keyring.asked.get(), 0);
}

#[test]
fn generic_variable_alone_gives_a_value_for_enterprise_hosts() {
    let env = env(Some("gh_token"), None, None, None);
    assert_eq!(retrieve_token_from_env(true, &env), Some("gh_token".to_string()));
    assert_eq!(
        Hosts::new().retrieve_token("ghe.example.com", &env, &Simulated::empty()),
        Ok(Some("gh_token".to_string()))
    );
}

#[test]
fn enterprise_variable_wins_over_generic_variable() {
    let env = env(Some("gh_token"), Some("github_token"), Some("ghe_token"), Some("ghes_token"));
    assert_eq!(retrieve_token_from_env(true, &env), Some("ghe_token".to_string()));
    assert_eq!(
        Hosts::new().retrieve_token("ghe.example.com", &env, &Simulated::empty()),
        Ok(Some("ghe_token".to_string()))
    );
}

#[test]
fn enterprise_variables_are_not_read_for_other_hosts() {
    let both = env(Some("gh_token"), None, Some("ghe_token"), Some("ghes_token"));
    assert_eq!(retrieve_token_from_env(false, &both), Some("gh_token".to_string()));
    let only_enterprise = env(None, None, Some("ghe_token"), Some("ghes_token"));
    assert_eq!(retrieve_token_from_env(false, &only_enterprise), None);
    assert_eq!(
        Hosts::new().retrieve_token("github.com", &only_enterprise, &Simulated::empty()),
        Ok(None)
    );
    assert_eq!(
        Hosts::new().retrieve_token("x.ghe.com", &only_enterprise, &Simulated::empty()),
        Ok(None)
    );
}

#[test]
fn second_variable_of_a_pair_is_the_fallback() {
    assert_eq!(
        retrieve_token_from_env(true, &env(Some("gh_token"), None, None, Some("ghes_token"))),
        Some("ghes_token".to_string())
    );
    assert_eq!(
        retrieve_token_from_env(true, &env(None, Some("github_token"), None, None)),
        Some("github_token".to_string())
    );
    assert_eq!(
        retrieve_token_from_env(false, &env(None, Some("github_token"), None, None)),
        Some("github_token".to_string())
    );
    assert_eq!(
        retrieve_token_from_env(false, &env(Some("gh_token"), Some("github_token"), None, None)),
        Some("gh_token".to_string())
    );
}

#[test]
fn variable_set_to_the_empty_string_counts_as_set() {
    assert_eq!(
        retrieve_token_from_env(true, &env(Some("gh_token"), None, Some(""), Some("ghes_token"))),
        Some(String::new())
    );
    assert_eq!(
        retrieve_token_from_env(false, &env(Some(""), Some("github_token"), None, None)),
        Some(String::new())
    );
    let keyring = Simulated::holding(b"stored");
    assert_eq!(
        hosts_with("github.com", "plain").retrieve_token(
            "github.com",
            &env(Some(""), None, None, None),
            &keyring
        ),
        Ok(Some(String::new()))
    );
    assert_eq!(keyring.asked.get(), 0);
}

#[test]
fn no_variable_set_gives_no_token_from_the_environment() {
    assert_eq!(retrieve_token_from_env(true, &TokenEnv::default()), None);
    assert_eq!(retrieve_token_from_env(false, &TokenEnv::default()), None);
}

#[test]
fn environment_wins_over_plaintext_token() {
    let keyring = Simulated::holding(b"stored");
    assert_eq!(
        hosts_with("github.com", "plain").retrieve_token(
            "github.com",
            &env(None, Some("github_token"), None, None),
            &keyring
        ),
        Ok(Some("github_token".to_string()))
    );
    assert_eq!(keyring.asked.get(), 0);
}

#[test]
fn plaintext_token_wins_over_secure_storage() {
    let keyring = Simulated::holding(b"stored");
    assert_eq!(
        hosts_with("github.com", "plain").retrieve_token("github.com", &TokenEnv::default(), &keyring),
        Ok(Some("plain".to_string()))
    );
    assert_eq!(keyring.asked.get(), 0);
}

#[test]
fn plaintext_token_wins_over_failing_storage() {
    assert_eq!(
        hosts_with("github.com", "plain").retrieve_token(
            "github.com",
            &TokenEnv::default(),
            &Simulated::new(Err(failure()))
        ),
        Ok(Some("plain".to_string()))
    );
}

#[test]
fn empty_plaintext_token_is_no_token() {
    let keyring = Simulated::holding(b"stored");
    assert_eq!(
        hosts_with("github.com", "").retrieve_token("github.com", &TokenEnv::default(), &keyring),
        Ok(Some("stored".to_string()))
    );
    assert_eq!(keyring.asked.get(), 1);
}

#[test]
fn plaintext_token_of_another_host_is_not_used() {
    let keyring = Simulated::empty();
    assert_eq!(
        hosts_with("github.com", "plain").retrieve_token(
            "ghe.example.com",
            &TokenEnv::default(),
            &keyring
        ),
        Ok(None)
    );
    assert_eq!(keyring.asked.get(), 1);
}

#[test]
fn no_source_has_a_token() {
    assert_eq!(
        Hosts::new().retrieve_token("github.com", &TokenEnv::default(), &Simulated::empty()),
        Ok(None)
    );
    assert_eq!(
        hosts_with("github.com", "").retrieve_token(
            "github.com",
            &TokenEnv::default(),
            &Simulated::empty()
        ),
        Ok(None)
    );
    assert_eq!(retrieve_token_secure("github.com", &Simulated::empty()), Ok(None));
}

#[test]
fn storage_failure_is_not_taken_for_no_token() {
    assert_eq!(
        Hosts::new().retrieve_token(
            "github.com",
            &TokenEnv::default(),
            &Simulated::new(Err(failure()))
        ),
        Err(Error::Keyring(failure()))
    );
    assert_eq!(
        retrieve_token_secure("github.com", &Simulated::new(Err(failure()))),
        Err(Error::Keyring(failure()))
    );
    assert_eq!(
        Hosts::new().retrieve_token_secure("github.com", &Simulated::new(Err(failure()))),
        Err(Error::Keyring(failure()))
    );
}

#[test]
fn malformed_stored_value_is_a_format_error() {
    let malformed = keyring::Error::Macos(keyring::macos::Error::UnknownFormat);
    assert_eq!(
        Hosts::new().retrieve_token(
            "github.com",
            &TokenEnv::default(),
            &Simulated::new(Err(malformed.clone()))
        ),
        Err(Error::Keyring(malformed))
    );
}

#[test]
fn secret_is_read_as_utf8() {
    assert_eq!(token_from_secret(Ok(Some(b"gho_secret".to_vec()))), Ok(Some("gho_secret".to_string())));
    assert_eq!(
        token_from_secret(Ok(Some(vec![0x67, 0x68, 0xc3, 0xa9]))),
        Ok(Some("gh\u{e9}".to_string()))
    );
    assert_eq!(token_from_secret(Ok(Some(Vec::new()))), Ok(Some(String::new())));
    assert_eq!(token_from_secret(Ok(None)), Ok(None));
    assert_eq!(token_from_secret(Err(failure())), Err(Error::Keyring(failure())));
}

#[test]
fn secret_that_is_no_utf8_is_an_error() {
    assert_eq!(token_from_secret(Ok(Some(vec![0x67, 0xff]))), Err(Error::InvalidUtf8));
    assert_eq!(token_from_secret(Ok(Some(vec![0xc3]))), Err(Error::InvalidUtf8));
    assert_eq!(token_from_secret(Ok(Some(vec![0xed, 0xa0, 0x80]))), Err(Error::InvalidUtf8));
    assert_eq!(token_from_secret(Ok(Some(vec![0xc0, 0x80]))), Err(Error::InvalidUtf8));
    assert_eq!(
        Hosts::new().retrieve_token(
            "github.com",
            &TokenEnv::default(),
            &Simulated::holding(&[0x80])
        ),
        Err(Error::InvalidUtf8)
    );
}

#[test]
fn storage_is_asked_for_the_hostname_as_given() {
    struct Recording(Cell<Option<String>>);
    impl GhKeyring for Recording {
        fn get(&self, host: &str) -> Result<Option<Vec<u8>>, keyring::Error> {
            self.0.set(Some(host.to_string()));
            Ok(None)
        }
    }
    let keyring = Recording(Cell::new(None));
    assert_eq!(Hosts::new().retrieve_token("GitHub.Example.", &TokenEnv::default(), &keyring), Ok(None));
    assert_eq!(keyring.0.take(), Some("GitHub.Example.".to_string()));
}
