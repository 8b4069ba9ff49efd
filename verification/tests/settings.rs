use makepress::config::Config;

#[test]
fn defaults_fill_every_setting() {
    let c = Config::new(None, None, None, None, None, None);
    assert_eq!(c.network_name, "prometheus.makepress.network");
    assert_eq!(c.db_username, "makepress");
    assert_eq!(c.db_password, "makepress");
    assert_eq!(c.proxy_label, "prometheus.makepress.proxy");
    assert_eq!(c.domain, "prometheus.makepress");
    assert_eq!(c.certs, "/etc/nginx/certs");
}

#[test]
fn given_settings_win() {
    let c = Config::new(
        Some("net".to_string()),
        None,
        Some("secret".to_string()),
        None,
        Some("example.org".to_string()),
        None,
    );
    assert_eq!(c.network_name, "net");
    assert_eq!(c.db_username, "makepress");
    assert_eq!(c.db_password, "secret");
    assert_eq!(c.proxy_label, "prometheus.makepress.proxy");
    assert_eq!(c.domain, "example.org");
    assert_eq!(c.certs, "/etc/nginx/certs");
}

#[test]
fn default_matches_new_without_values() {
    let d = Config::default();
    let n = Config::new(None, None, None, None, None, None);
    assert_eq!(d.network_name, n.network_name);
    assert_eq!(d.certs, n.certs);
    assert_eq!(d.domain, n.domain);
}
