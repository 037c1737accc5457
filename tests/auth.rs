use oras_client::{get_auth, AuthOptions, Credential, CredentialCache};

fn basic(u: &str, p: &str) -> Option<AuthOptions> {
    Some(AuthOptions {
        username: Some(u.to_string()),
        password: Some(p.to_string()),
        token: None,
        use_docker_config: None,
    })
}

#[test]
fn get_auth_basic_when_both_given() {
    assert_eq!(get_auth(basic("alice", "pw")), Credential::Basic("alice".to_string(), "pw".to_string()));
}

#[test]
fn get_auth_anonymous_without_options() {
    assert_eq!(get_auth(None), Credential::Anonymous);
}

#[test]
fn get_auth_anonymous_with_username_only() {
    let opts = AuthOptions { username: Some("alice".to_string()), password: None, token: None, use_docker_config: None };
    assert_eq!(get_auth(Some(opts)), Credential::Anonymous);
}

#[test]
fn get_auth_ignores_token_and_docker_config() {
    let opts = AuthOptions {
        username: None,
        password: None,
        token: Some("SECRET-REDACTED".to_string()),
        use_docker_config: Some(true),
    };
    assert_eq!(get_auth(Some(opts)), Credential::Anonymous);
}

#[test]
fn cache_remembers_basic_for_later_calls() {
    let mut cache = CredentialCache::new();
    let first = cache.resolve("registry.example.com", basic("alice", "pw"));
    assert_eq!(first, Credential::Basic("alice".to_string(), "pw".to_string()));
    let second = cache.resolve("registry.example.com", None);
    assert_eq!(second, Credential::Basic("alice".to_string(), "pw".to_string()));
    assert_eq!(cache.get("registry.example.com"), Some(Credential::Basic("alice".to_string(), "pw".to_string())));
}

#[test]
fn cache_anonymous_for_unknown_host() {
    let mut cache = CredentialCache::new();
    assert_eq!(cache.resolve("ghcr.io", None), Credential::Anonymous);
    assert_eq!(cache.get("ghcr.io"), Some(Credential::Anonymous));
    assert_eq!(cache.get("quay.io"), None);
}

#[test]
fn cache_fresh_credentials_replace_old() {
    let mut cache = CredentialCache::new();
    cache.resolve("ghcr.io", basic("alice", "old"));
    let r = cache.resolve("ghcr.io", basic("bob", "new"));
    assert_eq!(r, Credential::Basic("bob".to_string(), "new".to_string()));
    assert_eq!(cache.get("ghcr.io"), Some(Credential::Basic("bob".to_string(), "new".to_string())));
}

#[test]
fn cache_keeps_hosts_apart() {
    let mut cache = CredentialCache::new();
    cache.resolve("ghcr.io", basic("alice", "pw"));
    assert_eq!(cache.resolve("quay.io", None), Credential::Anonymous);
    assert_eq!(cache.get("ghcr.io"), Some(Credential::Basic("alice".to_string(), "pw".to_string())));
}

#[test]
fn cache_one_entry_per_host_over_many_calls() {
    let mut cache = CredentialCache::new();
    cache.resolve("ghcr.io", basic("alice", "pw"));
    cache.resolve("ghcr.io", None);
    cache.resolve("ghcr.io", None);
    cache.resolve("quay.io", None);
    assert_eq!(cache.len(), 2);
}
