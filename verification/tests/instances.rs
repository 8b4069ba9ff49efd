use makepress::instance::{
    container_status, database_query, find_label, host_type_from_label, instance_info,
    instance_names, name_filter, status_from_lowercase, wordpress_query, ContainerFacts,
    HostType, ManagerError, Status,
};

fn labels(pairs: &[(&str, &str)]) -> Vec<(String, String)> {
    pairs.iter().map(|(k, v)| (k.to_string(), v.to_string())).collect()
}

fn facts(state: Option<&str>, created: Option<i64>, host: Option<&str>) -> ContainerFacts {
    let mut l = labels(&[("prometheus.makepress.name", "blog")]);
    if let Some(h) = host {
        l.push(("prometheus.makepress.host_type".to_string(), h.to_string()));
    }
    ContainerFacts { state: state.map(|s| s.to_string()), created, labels: l }
}

#[test]
fn lowercase_states_map_to_statuses() {
    assert_eq!(status_from_lowercase("created"), Status::Offline);
    assert_eq!(status_from_lowercase("restarting"), Status::Starting);
    assert_eq!(status_from_lowercase("running"), Status::Running);
    assert_eq!(status_from_lowercase("removing"), Status::Offline);
    assert_eq!(status_from_lowercase("paused"), Status::Offline);
    assert_eq!(status_from_lowercase("exited"), Status::Offline);
    assert_eq!(status_from_lowercase("dead"), Status::Failing);
    assert_eq!(status_from_lowercase("sleeping"), Status::Failing);
}

#[test]
fn container_state_is_compared_without_case() {
    assert_eq!(container_status(&Some("RUNNING".to_string())), Status::Running);
    assert_eq!(container_status(&Some("Exited".to_string())), Status::Offline);
    assert_eq!(container_status(&None), Status::Failing);
}

#[test]
fn labels_are_found_by_key() {
    let l = labels(&[("a", "1"), ("b", "2")]);
    assert_eq!(find_label(&l, "b"), Some("2".to_string()));
    assert_eq!(find_label(&l, "c"), None);
}

#[test]
fn host_type_labels() {
    assert_eq!(host_type_from_label("Managed"), HostType::Managed);
    assert_eq!(host_type_from_label("Unmanaged"), HostType::Unmanaged);
}

#[test]
fn queries_select_an_instance() {
    assert_eq!(name_filter("blog"), "prometheus.makepress.name=blog");
    assert_eq!(
        wordpress_query("blog"),
        vec!["prometheus.makepress.containers".to_string(), "prometheus.makepress.name=blog".to_string()]
    );
    assert_eq!(
        database_query("blog"),
        vec!["prometheus.makepress.db".to_string(), "prometheus.makepress.name=blog".to_string()]
    );
}

#[test]
fn summary_of_an_instance() {
    let info = instance_info(
        "blog",
        Some(facts(Some("running"), Some(100), Some("Unmanaged"))),
        Some(facts(Some("exited"), Some(50), None)),
    )
    .unwrap();
    assert_eq!(info.name, "blog");
    assert_eq!(info.wordpress_status, Status::Running);
    assert_eq!(info.database_status, Status::Offline);
    assert_eq!(info.created, 100);
    assert_eq!(info.host_type, HostType::Unmanaged);
}

#[test]
fn creation_time_falls_back_to_the_database() {
    let info = instance_info(
        "blog",
        Some(facts(None, None, Some("Managed"))),
        Some(facts(Some("dead"), Some(50), None)),
    )
    .unwrap();
    assert_eq!(info.created, 50);
    assert_eq!(info.wordpress_status, Status::Failing);
    assert_eq!(info.database_status, Status::Failing);
    assert_eq!(info.host_type, HostType::Managed);
    let info = instance_info(
        "blog",
        Some(facts(None, None, Some("Managed"))),
        Some(facts(None, None, None)),
    )
    .unwrap();
    assert_eq!(info.created, 0);
}

#[test]
fn missing_containers_mean_a_missing_instance() {
    assert_eq!(
        instance_info("blog", None, Some(facts(None, None, None))).unwrap_err(),
        ManagerError::InstanceMissing("blog".to_string())
    );
    assert_eq!(
        instance_info("blog", Some(facts(None, None, Some("Managed"))), None).unwrap_err(),
        ManagerError::InstanceMissing("blog".to_string())
    );
}

#[test]
fn instance_names_are_listed_once() {
    let sets = vec![
        labels(&[("prometheus.makepress.name", "blog"), ("x", "y")]),
        labels(&[("prometheus.makepress.name", "shop")]),
        labels(&[("prometheus.makepress.db", ""), ("prometheus.makepress.name", "blog")]),
    ];
    assert_eq!(instance_names(&sets), vec!["blog".to_string(), "shop".to_string()]);
    assert_eq!(instance_names(&Vec::new()), Vec::<String>::new());
}
