use provisioner_operator::config::Config;

#[test]
fn defaults_where_nothing_is_set() {
    let config = Config::from_env(None, None);
    assert_eq!(config.kbs_url, "http://127.0.0.1:8080");
    assert_eq!(config.namespace, "default");
}

#[test]
fn values_from_the_environment() {
    let config = Config::from_env(Some("https://kbs:1".to_string()), Some(String::new()));
    assert_eq!(config.kbs_url, "https://kbs:1");
    assert_eq!(config.namespace, "");
}

#[test]
fn urls_below_the_kbs() {
    let config = Config::from_env(Some("http://kbs:8080".to_string()), None);
    assert_eq!(config.provisioner_url(), "http://kbs:8080/kbs/v0/provisioner");
    assert_eq!(config.health_url(), "http://kbs:8080/healthz");
}
