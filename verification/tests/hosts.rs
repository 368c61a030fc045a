use gh_config::{GitProtocol, Host, Hosts};

fn host(user: &str, token: &str) -> Host {
    Host::new(Some(user.to_string()), token.to_string(), Some(GitProtocol::Https))
}

#[test]
fn new_hosts_are_empty() {
    let hosts = Hosts::new();
    assert!(hosts.get("github.com").is_none());
    assert!(hosts.hostnames().is_empty());
}

#[test]
fn set_then_get_returns_the_host() {
    let mut hosts = Hosts::new();
    assert!(hosts.set("github.com", host("octocat", "gho_a")).is_none());
    let found = hosts.get("github.com").unwrap();
    assert_eq!(found.user.as_deref(), Some("octocat"));
    assert_eq!(found.oauth_token(), "gho_a");
    assert_eq!(found.git_protocol, Some(GitProtocol::Https));
    assert!(hosts.get("ghe.example.com").is_none());
}

#[test]
fn set_again_replaces_and_returns_the_previous_host() {
    let mut hosts = Hosts::new();
    hosts.set("github.com", host("octocat", "gho_a"));
    hosts.set("ghe.example.com", host("hubot", "gho_b"));
    let previous = hosts.set("github.com", host("monalisa", "gho_c")).unwrap();
    assert_eq!(previous.user.as_deref(), Some("octocat"));
    assert_eq!(previous.oauth_token(), "gho_a");
    assert_eq!(hosts.get("github.com").unwrap().oauth_token(), "gho_c");
    assert_eq!(hosts.get("ghe.example.com").unwrap().oauth_token(), "gho_b");
    assert_eq!(hosts.hostnames(), vec!["github.com".to_string(), "ghe.example.com".to_string()]);
}

#[test]
fn hostnames_are_not_normalized() {
    let mut hosts = Hosts::new();
    hosts.set("github.com", host("octocat", "gho_a"));
    assert!(hosts.get("GitHub.com").is_none());
    assert!(hosts.get("github.com.").is_none());
    assert!(hosts.get("github.co").is_none());
    assert!(hosts.set("GitHub.com", host("hubot", "gho_b")).is_none());
    assert_eq!(hosts.hostnames().len(), 2);
}

#[test]
fn host_without_settings() {
    let host = Host::new(None, String::new(), None);
    assert_eq!(host.user, None);
    assert_eq!(host.oauth_token(), "");
    assert_eq!(host.git_protocol, None);
}

#[test]
fn clones_hold_the_same_hosts() {
    let mut hosts = Hosts::new();
    hosts.set("github.com", host("octocat", "gho_a"));
    let mut copy = hosts.clone();
    copy.set("github.com", host("hubot", "gho_b"));
    assert_eq!(hosts.get("github.com").unwrap().oauth_token(), "gho_a");
    assert_eq!(copy.get("github.com").unwrap().oauth_token(), "gho_b");
    let one = hosts.get("github.com").unwrap().clone();
    assert_eq!(one.user.as_deref(), Some("octocat"));
    assert_eq!(one.oauth_token(), "gho_a");
    assert_eq!(one.git_protocol, Some(GitProtocol::Https));
}
