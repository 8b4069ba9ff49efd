use makepress::config::Config;
use makepress::instance::{instance_info, instance_names, ContainerFacts, HostType, ManagerError};
use makepress::plans::{
    database_container_name, network_spec, plan_instance, proxy_container, removal_plan,
    start_order, stop_order, RemovalStep,
};

fn strings(items: &[&str]) -> Vec<String> {
    items.iter().map(|s| s.to_string()).collect()
}

fn pairs(items: &[(&str, &str)]) -> Vec<(String, String)> {
    items.iter().map(|(a, b)| (a.to_string(), b.to_string())).collect()
}

fn settings() -> Config {
    Config::new(
        Some("net".to_string()),
        Some("wp".to_string()),
        Some("pw".to_string()),
        Some("proxy-label".to_string()),
        Some("example.org".to_string()),
        Some("/certs".to_string()),
    )
}

#[test]
fn reserved_name_is_refused() {
    assert_eq!(
        plan_instance("api", HostType::Managed, &settings()).unwrap_err(),
        ManagerError::Unknown
    );
}

#[test]
fn database_container_of_an_instance() {
    let (db, _) = plan_instance("blog", HostType::Managed, &settings()).unwrap();
    assert_eq!(db.name, "blog-db");
    assert_eq!(db.image, "mysql:5.7");
    assert_eq!(
        db.env,
        strings(&[
            "MYSQL_DATABASE=wordpress",
            "MYSQL_USER=wp",
            "MYSQL_PASSWORD=pw",
            "MYSQL_RANDOM_ROOT_PASSWORD=1"
        ])
    );
    assert_eq!(
        db.labels,
        pairs(&[("prometheus.makepress.db", ""), ("prometheus.makepress.name", "blog")])
    );
    assert_eq!(db.network_mode, Some("net".to_string()));
    assert_eq!(db.binds, strings(&["makepress-backups:/backups"]));
    assert!(db.exposed_ports.is_empty());
    assert!(db.port_bindings.is_empty());
}

#[test]
fn managed_wordpress_container() {
    let (_, wp) = plan_instance("blog", HostType::Managed, &settings()).unwrap();
    assert_eq!(wp.name, "blog");
    assert_eq!(wp.image, "wordpress");
    assert_eq!(
        wp.env,
        strings(&[
            "WORDPRESS_DB_HOST=blog-db",
            "WORDPRESS_DB_USER=wp",
            "WORDPRESS_DB_PASSWORD=pw",
            "WORDPRESS_DB_NAME=wordpress",
            "VIRTUAL_HOST=blog.example.org"
        ])
    );
    assert_eq!(
        wp.labels,
        pairs(&[
            ("prometheus.makepress.containers", ""),
            ("prometheus.makepress.name", "blog"),
            ("prometheus.makepress.host_type", "Managed")
        ])
    );
    assert_eq!(wp.network_mode, Some("net".to_string()));
    assert!(wp.binds.is_empty());
}

#[test]
fn unmanaged_wordpress_container_uses_its_name() {
    let (_, wp) = plan_instance("blog.com", HostType::Unmanaged, &settings()).unwrap();
    assert_eq!(wp.env[4], "VIRTUAL_HOST=blog.com");
    assert_eq!(wp.labels[2], ("prometheus.makepress.host_type".to_string(), "Unmanaged".to_string()));
}

#[test]
fn database_container_names() {
    assert_eq!(database_container_name("blog"), "blog-db");
}

#[test]
fn proxy_container_of_the_service() {
    let p = proxy_container(&settings());
    assert_eq!(p.name, "makepress-proxy");
    assert_eq!(p.image, "nginxproxy/nginx-proxy");
    assert!(p.env.is_empty());
    assert_eq!(p.labels, pairs(&[("proxy-label", "")]));
    assert_eq!(p.network_mode, Some("net".to_string()));
    assert_eq!(
        p.binds,
        strings(&["/var/run/docker.sock:/tmp/docker.sock:ro", "/certs:/etc/nginx/certs"])
    );
    assert_eq!(p.exposed_ports, strings(&["80/tcp", "443/tcp"]));
    assert_eq!(p.port_bindings, pairs(&[("80/tcp", "80"), ("443/tcp", "443")]));
}

#[test]
fn network_of_the_service() {
    let n = network_spec(&settings());
    assert_eq!(n.name, "net");
    assert_eq!(n.driver, "bridge");
    assert!(n.check_duplicate);
    assert!(!n.internal && !n.attachable && !n.ingress && !n.enable_ipv6);
    assert_eq!(n.labels, pairs(&[("net", "")]));
}


#[test]
fn created_instance_reads_back_its_host_type() {
    for host in [HostType::Managed, HostType::Unmanaged] {
        let (db, wp) = plan_instance("blog", host, &settings()).unwrap();
        let mut wp_labels = wp.labels.clone();
        wp_labels.reverse();
        let info = instance_info(
            "blog",
            Some(ContainerFacts { state: Some("running".to_string()), created: Some(1), labels: wp_labels }),
            Some(ContainerFacts { state: Some("running".to_string()), created: Some(1), labels: db.labels.clone() }),
        )
        .unwrap();
        assert_eq!(info.name, "blog");
        assert_eq!(info.host_type, host);
    }
}

#[test]
fn created_instance_is_listed_once() {
    let (db, wp) = plan_instance("blog", HostType::Managed, &settings()).unwrap();
    let (db2, wp2) = plan_instance("shop", HostType::Unmanaged, &settings()).unwrap();
    let sets = vec![wp.labels, db2.labels, db.labels, wp2.labels];
    assert_eq!(instance_names(&sets), vec!["blog".to_string(), "shop".to_string()]);
}

#[test]
fn instance_containers_in_order() {
    assert_eq!(start_order("blog"), strings(&["blog-db", "blog"]));
    assert_eq!(stop_order("blog"), strings(&["blog", "blog-db"]));
    assert_eq!(
        removal_plan("blog"),
        vec![
            RemovalStep { container: "blog".to_string(), remove_volumes: true, force: true },
            RemovalStep { container: "blog-db".to_string(), remove_volumes: true, force: true },
        ]
    );
}
