//! What the service asks Docker to create: the two containers of an
//! instance, the proxy container and the network.

use crate::config::{Config, ConfigView};
use crate::instance::{
    host_type_for, host_type_text, label_lookup, name_labels, text_of, texts, valid_host_label,
    HostType, ManagerError, CONTAINER_LABEL, DB_LABEL, HOST_TYPE_LABEL, NAME_LABEL,
};
use crate::text::{join, join3, text_eq};
use vstd::prelude::*;
use vstd::string::StringExecFns;

verus! {

/// The Docker volume that holds the backups; each database container mounts
/// it at `/backups`.
pub const BACKUPS_VOLUME: &'static str = "makepress-backups";

/// The name of the proxy container.
pub const PROXY_NAME: &'static str = "makepress-proxy";

/// The instance name that is reserved for the service itself.
pub const RESERVED_NAME: &'static str = "api";

/// A container to create.
#[derive(Debug, Clone)]
pub struct ContainerSpec {
    pub name: String,
    pub image: String,
    /// Environment entries, `KEY=value`.
    pub env: Vec<String>,
    pub labels: Vec<(String, String)>,
    /// The network the container joins.
    pub network_mode: Option<String>,
    /// Mounts, `source:target[:options]`.
    pub binds: Vec<String>,
    /// Exposed container ports, `port/protocol`.
    pub exposed_ports: Vec<String>,
    /// Container port (`port/protocol`) and the host port bound to it.
    pub port_bindings: Vec<(String, String)>,
}

/// A container to create, as mathematical values.
pub struct ContainerSpecView {
    pub name: Seq<char>,
    pub image: Seq<char>,
    pub env: Seq<Seq<char>>,
    pub labels: Seq<(Seq<char>, Seq<char>)>,
    pub network_mode: Option<Seq<char>>,
    pub binds: Seq<Seq<char>>,
    pub exposed_ports: Seq<Seq<char>>,
    pub port_bindings: Seq<(Seq<char>, Seq<char>)>,
}

/// The mathematical texts of a sequence of string pairs.
pub open spec fn text_pairs(pairs: Seq<(String, String)>) -> Seq<(Seq<char>, Seq<char>)> {
    pairs.map_values(|p: (String, String)| (p.0@, p.1@))
}

impl View for ContainerSpec {
    type V = ContainerSpecView;

    open spec fn view(&self) -> ContainerSpecView {
        ContainerSpecView {
            name: self.name@,
            image: self.image@,
            env: texts(self.env@),
            labels: text_pairs(self.labels@),
            network_mode: text_of(self.network_mode),
            binds: texts(self.binds@),
            exposed_ports: texts(self.exposed_ports@),
            port_bindings: text_pairs(self.port_bindings@),
        }
    }
}

/// A network to create.
#[derive(Debug, Clone)]
pub struct NetworkSpec {
    pub name: String,
    pub driver: String,
    pub check_duplicate: bool,
    pub internal: bool,
    pub attachable: bool,
    pub ingress: bool,
    pub enable_ipv6: bool,
    pub labels: Vec<(String, String)>,
}

/// The name of the database container of the instance `name`.
pub open spec fn database_container_name_of(name: Seq<char>) -> Seq<char> {
    name + "-db"@
}

/// The address an instance is served at: under the service's domain when it
/// is managed, its bare name otherwise.
pub open spec fn instance_domain(name: Seq<char>, host_type: HostType, domain: Seq<char>) -> Seq<
    char,
> {
    match host_type {
        HostType::Managed => name + "."@ + domain,
        HostType::Unmanaged => name,
    }
}

/// The database container of the instance `name`: MySQL 5.7 with a
/// `wordpress` database owned by the configured user, a random root
/// password, the database and name labels, the service's network, and the
/// backups volume at `/backups`.
pub open spec fn database_container_of(name: Seq<char>, config: ConfigView) -> ContainerSpecView {
    ContainerSpecView {
        name: database_container_name_of(name),
        image: "mysql:5.7"@,
        env: seq![
            "MYSQL_DATABASE=wordpress"@,
            "MYSQL_USER="@ + config.db_username,
            "MYSQL_PASSWORD="@ + config.db_password,
            "MYSQL_RANDOM_ROOT_PASSWORD=1"@,
        ],
        labels: seq![(DB_LABEL@, ""@), (NAME_LABEL@, name)],
        network_mode: Some(config.network_name),
        binds: seq![BACKUPS_VOLUME@ + ":/backups"@],
        exposed_ports: seq![],
        port_bindings: seq![],
    }
}

/// The WordPress container of the instance `name`: it reaches its database
/// container with the configured credentials, is served at the instance's
/// address, carries the container, name and host-type labels, and joins the
/// service's network.
pub open spec fn wordpress_container_of(
    name: Seq<char>,
    host_type: HostType,
    config: ConfigView,
) -> ContainerSpecView {
    ContainerSpecView {
        name: name,
        image: "wordpress"@,
        env: seq![
            "WORDPRESS_DB_HOST="@ + database_container_name_of(name),
            "WORDPRESS_DB_USER="@ + config.db_username,
            "WORDPRESS_DB_PASSWORD="@ + config.db_password,
            "WORDPRESS_DB_NAME=wordpress"@,
            "VIRTUAL_HOST="@ + instance_domain(name, host_type, config.domain),
        ],
        labels: seq![
            (CONTAINER_LABEL@, ""@),
            (NAME_LABEL@, name),
            (HOST_TYPE_LABEL@, host_type_text(host_type)),
        ],
        network_mode: Some(config.network_name),
        binds: seq![],
        exposed_ports: seq![],
        port_bindings: seq![],
    }
}

/// The proxy container: nginx-proxy with the proxy label, reading the Docker
/// socket and the certificate directory, publishing ports 80 and 443, on the
/// service's network.
pub open spec fn proxy_container_of(config: ConfigView) -> ContainerSpecView {
    ContainerSpecView {
        name: PROXY_NAME@,
        image: "nginxproxy/nginx-proxy"@,
        env: seq![],
        labels: seq![(config.proxy_label, ""@)],
        network_mode: Some(config.network_name),
        binds: seq![
            "/var/run/docker.sock:/tmp/docker.sock:ro"@,
            config.certs + ":/etc/nginx/certs"@,
        ],
        exposed_ports: seq!["80/tcp"@, "443/tcp"@],
        port_bindings: seq![("80/tcp"@, "80"@), ("443/tcp"@, "443"@)],
    }
}

/// Adds a text to a list of texts.
fn push_text(list: &mut Vec<String>, text: String)
    ensures
        texts(final(list)@) == texts(old(list)@).push(text@),
{
    list.push(text);
    assert(texts(list@) =~= texts(old(list)@).push(text@));
}

/// Adds a pair of texts to a list of pairs.
fn push_pair(list: &mut Vec<(String, String)>, key: String, value: String)
    ensures
        text_pairs(final(list)@) == text_pairs(old(list)@).push((key@, value@)),
{
    list.push((key, value));
    assert(text_pairs(list@) =~= text_pairs(old(list)@).push((key@, value@)));
}

/// One container to remove, and how.
#[derive(Debug, Clone, PartialEq, Eq)]
pub struct RemovalStep {
    pub container: String,
    /// Also remove the container's anonymous volumes.
    pub remove_volumes: bool,
    /// Remove it even while it runs.
    pub force: bool,
}

/// The containers of the instance `name` in the order they are started:
/// the database first, then WordPress.
pub fn start_order(name: &str) -> (order: Vec<String>)
    ensures
        texts(order@) == seq![database_container_name_of(name@), name@],
{
    let mut order: Vec<String> = Vec::new();
    push_text(&mut order, database_container_name(name));
    push_text(&mut order, String::from_str(name));
    order
}

/// The containers of the instance `name` in the order they are stopped:
/// WordPress first, then the database.
pub fn stop_order(name: &str) -> (order: Vec<String>)
    ensures
        texts(order@) == seq![name@, database_container_name_of(name@)],
{
    let mut order: Vec<String> = Vec::new();
    push_text(&mut order, String::from_str(name));
    push_text(&mut order, database_container_name(name));
    order
}

/// How the instance `name` is destroyed: its WordPress container, then its
/// database container, each removed with its volumes and by force.
pub fn removal_plan(name: &str) -> (plan: Vec<RemovalStep>)
    ensures
        plan.len() == 2,
        plan[0].container@ == name@,
        plan[1].container@ == database_container_name_of(name@),
        forall|i: int| 0 <= i < 2 ==> #[trigger] plan[i].remove_volumes && plan[i].force,
{
    let mut plan: Vec<RemovalStep> = Vec::new();
    plan.push(RemovalStep { container: String::from_str(name), remove_volumes: true, force: true });
    plan.push(
        RemovalStep { container: database_container_name(name), remove_volumes: true, force: true },
    );
    plan
}

/// The name of the database container of the instance `name`.
pub fn database_container_name(name: &str) -> (db_name: String)
    ensures
        db_name@ == database_container_name_of(name@),
{
    join(name, "-db")
}

/// The database container of the instance `name`.
fn database_container(name: &str, config: &Config) -> (spec: ContainerSpec)
    ensures
        spec@ == database_container_of(name@, config@),
{
    let mut env: Vec<String> = Vec::new();
    push_text(&mut env, String::from_str("MYSQL_DATABASE=wordpress"));
    push_text(&mut env, join("MYSQL_USER=", config.db_username.as_str()));
    push_text(&mut env, join("MYSQL_PASSWORD=", config.db_password.as_str()));
    push_text(&mut env, String::from_str("MYSQL_RANDOM_ROOT_PASSWORD=1"));
    let mut labels: Vec<(String, String)> = Vec::new();
    push_pair(&mut labels, String::from_str(DB_LABEL), String::from_str(""));
    push_pair(&mut labels, String::from_str(NAME_LABEL), String::from_str(name));
    let mut binds: Vec<String> = Vec::new();
    push_text(&mut binds, join(BACKUPS_VOLUME, ":/backups"));
    let spec = ContainerSpec {
        name: database_container_name(name),
        image: String::from_str("mysql:5.7"),
        env,
        labels,
        network_mode: Some(config.network_name.clone()),
        binds,
        exposed_ports: Vec::new(),
        port_bindings: Vec::new(),
    };
    assert(spec@.env =~= database_container_of(name@, config@).env);
    assert(spec@.labels =~= database_container_of(name@, config@).labels);
    assert(spec@.binds =~= database_container_of(name@, config@).binds);
    assert(spec@.exposed_ports =~= Seq::<Seq<char>>::empty());
    assert(spec@.port_bindings =~= Seq::<(Seq<char>, Seq<char>)>::empty());
    spec
}

/// The address the instance `name` is served at.
fn domain_for(name: &str, host_type: HostType, domain: &str) -> (address: String)
    ensures
        address@ == instance_domain(name@, host_type, domain@),
{
    match host_type {
        HostType::Managed => join3(name, ".", domain),
        HostType::Unmanaged => String::from_str(name),
    }
}

/// The text of a host type.
fn host_type_label(host_type: HostType) -> (label: String)
    ensures
        label@ == host_type_text(host_type),
{
    match host_type {
        HostType::Managed => String::from_str("Managed"),
        HostType::Unmanaged => String::from_str("Unmanaged"),
    }
}

/// The WordPress container of the instance `name`.
fn wordpress_container(name: &str, host_type: HostType, config: &Config) -> (spec: ContainerSpec)
    ensures
        spec@ == wordpress_container_of(name@, host_type, config@),
{
    let mut env: Vec<String> = Vec::new();
    let db_name = database_container_name(name);
    push_text(&mut env, join("WORDPRESS_DB_HOST=", db_name.as_str()));
    push_text(&mut env, join("WORDPRESS_DB_USER=", config.db_username.as_str()));
    push_text(&mut env, join("WORDPRESS_DB_PASSWORD=", config.db_password.as_str()));
    push_text(&mut env, String::from_str("WORDPRESS_DB_NAME=wordpress"));
    let address = domain_for(name, host_type, config.domain.as_str());
    push_text(&mut env, join("VIRTUAL_HOST=", address.as_str()));
    let mut labels: Vec<(String, String)> = Vec::new();
    push_pair(&mut labels, String::from_str(CONTAINER_LABEL), String::from_str(""));
    push_pair(&mut labels, String::from_str(NAME_LABEL), String::from_str(name));
    push_pair(&mut labels, String::from_str(HOST_TYPE_LABEL), host_type_label(host_type));
    let spec = ContainerSpec {
        name: String::from_str(name),
        image: String::from_str("wordpress"),
        env,
        labels,
        network_mode: Some(config.network_name.clone()),
        binds: Vec::new(),
        exposed_ports: Vec::new(),
        port_bindings: Vec::new(),
    };
    assert(spec@.env =~= wordpress_container_of(name@, host_type, config@).env);
    assert(spec@.labels =~= wordpress_container_of(name@, host_type, config@).labels);
    assert(spec@.binds =~= Seq::<Seq<char>>::empty());
    assert(spec@.exposed_ports =~= Seq::<Seq<char>>::empty());
    assert(spec@.port_bindings =~= Seq::<(Seq<char>, Seq<char>)>::empty());
    spec
}

/// The two containers of a new instance `name`, database first. The name
/// "api" is reserved for the service and is refused with `Unknown`.
pub fn plan_instance(name: &str, host_type: HostType, config: &Config) -> (plan: Result<
    (ContainerSpec, ContainerSpec),
    ManagerError,
>)
    ensures
        plan is Err <==> name@ == RESERVED_NAME@,
        plan matches Err(e) ==> e is Unknown,
        plan matches Ok((database, wordpress)) ==> database@ == database_container_of(
            name@,
            config@,
        ) && wordpress@ == wordpress_container_of(name@, host_type, config@),
{
    if text_eq(name, RESERVED_NAME) {
        return Err(ManagerError::Unknown);
    }
    Ok((database_container(name, config), wordpress_container(name, host_type, config)))
}

/// The proxy container.
pub fn proxy_container(config: &Config) -> (spec: ContainerSpec)
    ensures
        spec@ == proxy_container_of(config@),
{
    let mut labels: Vec<(String, String)> = Vec::new();
    push_pair(&mut labels, config.proxy_label.clone(), String::from_str(""));
    let mut binds: Vec<String> = Vec::new();
    push_text(&mut binds, String::from_str("/var/run/docker.sock:/tmp/docker.sock:ro"));
    push_text(&mut binds, join(config.certs.as_str(), ":/etc/nginx/certs"));
    let mut exposed_ports: Vec<String> = Vec::new();
    push_text(&mut exposed_ports, String::from_str("80/tcp"));
    push_text(&mut exposed_ports, String::from_str("443/tcp"));
    let mut port_bindings: Vec<(String, String)> = Vec::new();
    push_pair(&mut port_bindings, String::from_str("80/tcp"), String::from_str("80"));
    push_pair(&mut port_bindings, String::from_str("443/tcp"), String::from_str("443"));
    let spec = ContainerSpec {
        name: String::from_str(PROXY_NAME),
        image: String::from_str("nginxproxy/nginx-proxy"),
        env: Vec::new(),
        labels,
        network_mode: Some(config.network_name.clone()),
        binds,
        exposed_ports,
        port_bindings,
    };
    assert(spec@.env =~= Seq::<Seq<char>>::empty());
    assert(spec@.labels =~= proxy_container_of(config@).labels);
    assert(spec@.binds =~= proxy_container_of(config@).binds);
    assert(spec@.exposed_ports =~= proxy_container_of(config@).exposed_ports);
    assert(spec@.port_bindings =~= proxy_container_of(config@).port_bindings);
    spec
}

/// The service's network: a bridge network named after the settings, created
/// only if no network of that name exists, neither internal, attachable,
/// ingress nor IPv6, labelled with its own name.
pub fn network_spec(config: &Config) -> (spec: NetworkSpec)
    ensures
        spec.name@ == config.network_name@,
        spec.driver@ == "bridge"@,
        spec.check_duplicate,
        !spec.internal,
        !spec.attachable,
        !spec.ingress,
        !spec.enable_ipv6,
        text_pairs(spec.labels@) == seq![(config.network_name@, ""@)],
{
    let mut labels: Vec<(String, String)> = Vec::new();
    push_pair(&mut labels, config.network_name.clone(), String::from_str(""));
    assert(text_pairs(labels@) =~= seq![(config.network_name@, ""@)]);
    NetworkSpec {
        name: config.network_name.clone(),
        driver: String::from_str("bridge"),
        check_duplicate: true,
        internal: false,
        attachable: false,
        ingress: false,
        enable_ipv6: false,
        labels,
    }
}

/// No key occurs twice in a list of labels (as in the label map Docker
/// reports for a container).
pub open spec fn distinct_keys(labels: Seq<(String, String)>) -> bool {
    forall|i: int, j: int| 0 <= i < j < labels.len() ==> labels[i].0@ != labels[j].0@
}

/// In a list of labels with distinct keys, looking up a key finds the value
/// stored with it.
pub proof fn lemma_lookup_finds_label(labels: Seq<(String, String)>, i: int)
    requires
        distinct_keys(labels),
        0 <= i < labels.len(),
    ensures
        label_lookup(labels, labels[i].0@) == Some(labels[i].1@),
    decreases labels.len(),
{
    if i > 0 {
        let rest = labels.drop_first();
        assert(labels[0].0@ != labels[i].0@);
        assert forall|a: int, b: int| 0 <= a < b < rest.len() implies rest[a].0@ != rest[b].0@ by {
            assert(rest[a] == labels[a + 1]);
            assert(rest[b] == labels[b + 1]);
        }
        lemma_lookup_finds_label(rest, i - 1);
        assert(rest[i - 1] == labels[i]);
    }
}

/// A label list whose pairs are, in any order, the ones a container was
/// created with holds each of those pairs under its key.
proof fn lemma_created_label_found(
    labels: Seq<(String, String)>,
    planned: Seq<(Seq<char>, Seq<char>)>,
    k: int,
)
    requires
        distinct_keys(labels),
        text_pairs(labels).to_set() == planned.to_set(),
        0 <= k < planned.len(),
    ensures
        label_lookup(labels, planned[k].0) == Some(planned[k].1),
{
    assert(planned.to_set().contains(planned[k]));
    assert(text_pairs(labels).contains(planned[k]));
    let i = choose|i: int| 0 <= i < text_pairs(labels).len() && text_pairs(labels)[i] == planned[k];
    lemma_lookup_finds_label(labels, i);
}

/// What create writes, get reads back: a WordPress container that Docker
/// lists with the labels it was created with (each key once, in any order)
/// carries the instance's name, and a valid host-type label that names the
/// host type it was created with.
pub proof fn lemma_created_instance_reads_back(
    name: Seq<char>,
    host_type: HostType,
    config: ConfigView,
    labels: Seq<(String, String)>,
)
    requires
        distinct_keys(labels),
        text_pairs(labels).to_set() == wordpress_container_of(name, host_type, config).labels.to_set(),
    ensures
        label_lookup(labels, NAME_LABEL@) == Some(name),
        label_lookup(labels, HOST_TYPE_LABEL@) == Some(host_type_text(host_type)),
        valid_host_label(host_type_text(host_type)),
        host_type_for(label_lookup(labels, HOST_TYPE_LABEL@)->0) == host_type,
{
    let planned = wordpress_container_of(name, host_type, config).labels;
    lemma_created_label_found(labels, planned, 1);
    lemma_created_label_found(labels, planned, 2);
    reveal_strlit("Managed");
    reveal_strlit("Unmanaged");
    assert("Managed"@.len() != "Unmanaged"@.len());
}

/// What create writes, list reads back once: when the containers listed
/// carry their labels (each key once), one of them being a container of the
/// instance `name` as created (its database or its WordPress container), and
/// the names listed are distinct and cover every listed container's name
/// label (as `instance_names` ensures), then `name` is listed exactly once.
pub proof fn lemma_created_instance_listed_once(
    name: Seq<char>,
    host_type: HostType,
    config: ConfigView,
    label_sets: Seq<Vec<(String, String)>>,
    j: int,
    listed: Seq<Seq<char>>,
)
    requires
        0 <= j < label_sets.len(),
        distinct_keys(label_sets[j]@),
        text_pairs(label_sets[j]@).to_set() == wordpress_container_of(
            name,
            host_type,
            config,
        ).labels.to_set() || text_pairs(label_sets[j]@).to_set() == database_container_of(
            name,
            config,
        ).labels.to_set(),
        listed.no_duplicates(),
        forall|i: int| 0 <= i < label_sets.len() ==> listed.contains(#[trigger] name_labels(label_sets)[i]),
    ensures
        exists|k: int|
            0 <= k < listed.len() && listed[k] == name && forall|k2: int|
                0 <= k2 < listed.len() && listed[k2] == name ==> k2 == k,
{
    if text_pairs(label_sets[j]@).to_set() == wordpress_container_of(name, host_type, config).labels.to_set() {
        lemma_created_label_found(label_sets[j]@, wordpress_container_of(name, host_type, config).labels, 1);
    } else {
        lemma_created_label_found(label_sets[j]@, database_container_of(name, config).labels, 1);
    }
    assert(name_labels(label_sets)[j] == name);
    assert(listed.contains(name_labels(label_sets)[j]));
    let k = choose|k: int| 0 <= k < listed.len() && listed[k] == name;
    assert forall|k2: int| 0 <= k2 < listed.len() && listed[k2] == name implies k2 == k by {
        if k2 != k {
            assert(listed[k2] == listed[k]);
        }
    }
}

/// Both containers of an instance join the service's network, whatever
/// the instance's host type.
pub proof fn lemma_instance_containers_join_network(
    name: Seq<char>,
    host_type: HostType,
    config: ConfigView,
)
    ensures
        wordpress_container_of(name, host_type, config).network_mode == Some(config.network_name),
        database_container_of(name, config).network_mode == Some(config.network_name),
{
}

/// The host type changes only where an instance is served and the label
/// that records it: a managed instance is served at `name.domain`, an
/// unmanaged one at its bare name, and everything else about the WordPress
/// container is the same.
pub proof fn lemma_host_type_changes_only_the_address(name: Seq<char>, config: ConfigView)
    ensures
        ({
            let managed = wordpress_container_of(name, HostType::Managed, config);
            let unmanaged = wordpress_container_of(name, HostType::Unmanaged, config);
            &&& managed.name == name && unmanaged.name == name
            &&& managed.image == unmanaged.image
            &&& managed.network_mode == unmanaged.network_mode
            &&& managed.binds == unmanaged.binds
            &&& managed.exposed_ports == unmanaged.exposed_ports
            &&& managed.port_bindings == unmanaged.port_bindings
            &&& managed.env.len() == 5 && unmanaged.env.len() == 5
            &&& forall|i: int| 0 <= i < 4 ==> managed.env[i] == unmanaged.env[i]
            &&& managed.env[4] == "VIRTUAL_HOST="@ + name + "."@ + config.domain
            &&& unmanaged.env[4] == "VIRTUAL_HOST="@ + name
            &&& managed.labels.len() == 3 && unmanaged.labels.len() == 3
            &&& managed.labels[0] == unmanaged.labels[0]
            &&& managed.labels[1] == unmanaged.labels[1]
            &&& managed.labels[2] == (HOST_TYPE_LABEL@, "Managed"@)
            &&& unmanaged.labels[2] == (HOST_TYPE_LABEL@, "Unmanaged"@)
        }),
{
}

} // verus!
