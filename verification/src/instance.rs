//! Instances as Docker reports them: the labels that tie containers to an
//! instance, the status read from a container's state, the summary of one
//! instance and the names of all of them.

use crate::text::{join3, lowercase, lowercase_chars, text_eq};
use vstd::prelude::*;
use vstd::string::StringExecFns;

verus! {

/// The label that marks an instance's WordPress container.
pub const CONTAINER_LABEL: &'static str = "prometheus.makepress.containers";

/// The label that marks an instance's database container.
pub const DB_LABEL: &'static str = "prometheus.makepress.db";

/// The label whose value is the name of the instance a container belongs to.
pub const NAME_LABEL: &'static str = "prometheus.makepress.name";

/// The label whose value says how an instance is hosted.
pub const HOST_TYPE_LABEL: &'static str = "prometheus.makepress.host_type";

/// The state of one container of an instance.
#[derive(Debug, Clone, Copy, PartialEq, Eq)]
pub enum Status {
    Offline,
    Starting,
    Running,
    Failing,
}

/// How an instance is reached: under the service's domain (managed) or under
/// its own name (unmanaged).
#[derive(Debug, Clone, Copy, PartialEq, Eq)]
pub enum HostType {
    Managed,
    Unmanaged,
}

/// What the service reads of one container.
#[derive(Debug, Clone)]
pub struct ContainerFacts {
    /// The state Docker reports ("running", "exited", ...), if any.
    pub state: Option<String>,
    /// When the container was created, if known.
    pub created: Option<i64>,
    /// The container's labels, each key once.
    pub labels: Vec<(String, String)>,
}

/// A summary of one instance.
#[derive(Debug, Clone)]
pub struct InstanceInfo {
    pub name: String,
    pub wordpress_status: Status,
    pub database_status: Status,
    pub created: i64,
    pub host_type: HostType,
}

/// Why a request about an instance is refused.
#[derive(Debug, Clone, PartialEq, Eq)]
pub enum ManagerError {
    /// No container of the named instance was found.
    InstanceMissing(String),
    /// The request cannot be served (the name is reserved).
    Unknown,
}

/// An optional text as mathematical text.
pub open spec fn text_of(text: Option<String>) -> Option<Seq<char>> {
    match text {
        Some(t) => Some(t@),
        None => None,
    }
}

/// The status that a lower-case container state stands for: "created",
/// "removing", "paused" and "exited" are offline, "restarting" is starting,
/// "running" is running, and "dead" or any other state is failing.
pub open spec fn status_for(lower: Seq<char>) -> Status {
    if lower == "created"@ {
        Status::Offline
    } else if lower == "restarting"@ {
        Status::Starting
    } else if lower == "running"@ {
        Status::Running
    } else if lower == "removing"@ || lower == "paused"@ || lower == "exited"@ {
        Status::Offline
    } else {
        Status::Failing
    }
}

/// The status of a container with the given state, compared without regard
/// to case; a container without a state is failing.
pub open spec fn container_status_of(state: Option<Seq<char>>) -> Status {
    match state {
        Some(s) => status_for(lowercase_chars(s)),
        None => Status::Failing,
    }
}

/// The value of the first label with key `key`.
pub open spec fn label_lookup(labels: Seq<(String, String)>, key: Seq<char>) -> Option<Seq<char>>
    decreases labels.len(),
{
    if labels.len() == 0 {
        None
    } else if labels[0].0@ == key {
        Some(labels[0].1@)
    } else {
        label_lookup(labels.drop_first(), key)
    }
}

/// The label values that say how an instance is hosted.
pub open spec fn valid_host_label(label: Seq<char>) -> bool {
    label == "Managed"@ || label == "Unmanaged"@
}

/// The host type a valid host-type label names.
pub open spec fn host_type_for(label: Seq<char>) -> HostType {
    if label == "Managed"@ {
        HostType::Managed
    } else {
        HostType::Unmanaged
    }
}

/// The text of a host type, as it is stored in a label.
pub open spec fn host_type_text(host_type: HostType) -> Seq<char> {
    match host_type {
        HostType::Managed => "Managed"@,
        HostType::Unmanaged => "Unmanaged"@,
    }
}

/// When an instance was created: its WordPress container's time, else its
/// database container's, else zero.
pub open spec fn created_time(wordpress: Option<i64>, database: Option<i64>) -> i64 {
    match wordpress {
        Some(t) => t,
        None => match database {
            Some(t) => t,
            None => 0,
        },
    }
}

/// The status a lower-case container state stands for.
pub fn status_from_lowercase(lower: &str) -> (status: Status)
    ensures
        status == status_for(lower@),
{
    if text_eq(lower, "created") {
        Status::Offline
    } else if text_eq(lower, "restarting") {
        Status::Starting
    } else if text_eq(lower, "running") {
        Status::Running
    } else if text_eq(lower, "removing") || text_eq(lower, "paused") || text_eq(lower, "exited") {
        Status::Offline
    } else {
        Status::Failing
    }
}

/// The status of a container with the given state.
pub fn container_status(state: &Option<String>) -> (status: Status)
    ensures
        status == container_status_of(text_of(*state)),
{
    match state {
        Some(s) => {
            let lower = lowercase(s.as_str());
            status_from_lowercase(lower.as_str())
        },
        None => Status::Failing,
    }
}

/// The value of the first label with key `key`.
pub fn find_label(labels: &Vec<(String, String)>, key: &str) -> (value: Option<String>)
    ensures
        text_of(value) == label_lookup(labels@, key@),
{
    let mut i: usize = 0;
    assert(labels@.skip(0) =~= labels@);
    while i < labels.len()
        invariant
            i <= labels.len(),
            label_lookup(labels@, key@) == label_lookup(labels@.skip(i as int), key@),
        decreases labels.len() - i,
    {
        assert(labels@.skip(i as int).drop_first() =~= labels@.skip(i + 1));
        if text_eq(labels[i].0.as_str(), key) {
            return Some(labels[i].1.clone());
        }
        i = i + 1;
    }
    None
}

/// The host type a valid host-type label names.
pub fn host_type_from_label(label: &str) -> (host_type: HostType)
    requires
        valid_host_label(label@),
    ensures
        host_type == host_type_for(label@),
{
    if text_eq(label, "Managed") {
        HostType::Managed
    } else {
        HostType::Unmanaged
    }
}

/// The label filter that selects the containers of the instance `name`.
pub fn name_filter(name: &str) -> (filter: String)
    ensures
        filter@ == NAME_LABEL@ + "="@ + name@,
{
    join3(NAME_LABEL, "=", name)
}

/// The labels that select the WordPress container of the instance `name`.
pub fn wordpress_query(name: &str) -> (labels: Vec<String>)
    ensures
        labels@.map_values(|l: String| l@) == seq![CONTAINER_LABEL@, NAME_LABEL@ + "="@ + name@],
{
    let mut labels: Vec<String> = Vec::new();
    labels.push(String::from_str(CONTAINER_LABEL));
    labels.push(name_filter(name));
    assert(labels@.map_values(|l: String| l@) =~= seq![
        CONTAINER_LABEL@,
        NAME_LABEL@ + "="@ + name@,
    ]);
    labels
}

/// The labels that select the database container of the instance `name`.
pub fn database_query(name: &str) -> (labels: Vec<String>)
    ensures
        labels@.map_values(|l: String| l@) == seq![DB_LABEL@, NAME_LABEL@ + "="@ + name@],
{
    let mut labels: Vec<String> = Vec::new();
    labels.push(String::from_str(DB_LABEL));
    labels.push(name_filter(name));
    assert(labels@.map_values(|l: String| l@) =~= seq![DB_LABEL@, NAME_LABEL@ + "="@ + name@]);
    labels
}

/// The summary of the instance `name` from the first container found with
/// its WordPress label and the first found with its database label. When
/// either is missing the instance is missing. Otherwise each container's
/// status comes from its state, the creation time from the WordPress
/// container (else the database's, else zero), and the host type from the
/// WordPress container's host-type label, which must be valid.
pub fn instance_info(
    name: &str,
    wordpress: Option<ContainerFacts>,
    database: Option<ContainerFacts>,
) -> (result: Result<InstanceInfo, ManagerError>)
    requires
        wordpress is Some && database is Some ==> (label_lookup(
            wordpress->0.labels@,
            HOST_TYPE_LABEL@,
        ) matches Some(l) && valid_host_label(l)),
    ensures
        result is Err <==> (wordpress is None || database is None),
        result matches Err(e) ==> (e matches ManagerError::InstanceMissing(n) && n@ == name@),
        result matches Ok(info) ==> {
            let w = wordpress->0;
            let d = database->0;
            &&& info.name@ == name@
            &&& info.wordpress_status == container_status_of(text_of(w.state))
            &&& info.database_status == container_status_of(text_of(d.state))
            &&& info.created == created_time(w.created, d.created)
            &&& info.host_type == host_type_for(label_lookup(w.labels@, HOST_TYPE_LABEL@)->0)
        },
{
    let w = match wordpress {
        Some(w) => w,
        None => {
            return Err(ManagerError::InstanceMissing(String::from_str(name)));
        },
    };
    let d = match database {
        Some(d) => d,
        None => {
            return Err(ManagerError::InstanceMissing(String::from_str(name)));
        },
    };
    let wordpress_status = container_status(&w.state);
    let database_status = container_status(&d.state);
    let created = match w.created {
        Some(t) => t,
        None => match d.created {
            Some(t) => t,
            None => 0,
        },
    };
    let label = find_label(&w.labels, HOST_TYPE_LABEL);
    let host_type = match label {
        Some(l) => host_type_from_label(l.as_str()),
        None => HostType::Managed,  // not reached: the label is required
    };
    Ok(InstanceInfo {
        name: String::from_str(name),
        wordpress_status,
        database_status,
        created,
        host_type,
    })
}

/// Whether `names` holds the text `name`.
fn contains_text(names: &Vec<String>, name: &String) -> (found: bool)
    ensures
        found == (exists|k: int| 0 <= k < names.len() && #[trigger] names[k]@ == name@),
{
    let mut i: usize = 0;
    while i < names.len()
        invariant
            i <= names.len(),
            forall|k: int| 0 <= k < i ==> #[trigger] names[k]@ != name@,
        decreases names.len() - i,
    {
        if names[i] == *name {
            return true;
        }
        i = i + 1;
    }
    false
}

/// The mathematical texts of a sequence of strings.
pub open spec fn texts(strings: Seq<String>) -> Seq<Seq<char>> {
    strings.map_values(|s: String| s@)
}

/// The value of the name label of each label set, in order.
pub open spec fn name_labels(label_sets: Seq<Vec<(String, String)>>) -> Seq<Seq<char>> {
    label_sets.map_values(|l: Vec<(String, String)>| label_lookup(l@, NAME_LABEL@)->0)
}

/// The names of the instances whose containers carry the given label sets:
/// each name once, in the order of first appearance. Every label set must
/// carry the name label.
pub fn instance_names(label_sets: &Vec<Vec<(String, String)>>) -> (names: Vec<String>)
    requires
        forall|j: int|
            0 <= j < label_sets.len() ==> #[trigger] label_lookup(label_sets[j]@, NAME_LABEL@)
                is Some,
    ensures
        texts(names@).no_duplicates(),
        forall|j: int|
            0 <= j < label_sets.len() ==> texts(names@).contains(
                #[trigger] name_labels(label_sets@)[j],
            ),
        forall|k: int|
            0 <= k < names.len() ==> name_labels(label_sets@).contains(#[trigger] texts(names@)[k]),
{
    let ghost inputs = name_labels(label_sets@);
    let mut names: Vec<String> = Vec::new();
    let mut i: usize = 0;
    while i < label_sets.len()
        invariant
            i <= label_sets.len(),
            inputs == name_labels(label_sets@),
            forall|j: int|
                0 <= j < label_sets.len() ==> #[trigger] label_lookup(label_sets[j]@, NAME_LABEL@)
                    is Some,
            texts(names@).no_duplicates(),
            forall|j: int| 0 <= j < i ==> texts(names@).contains(#[trigger] inputs[j]),
            forall|k: int| 0 <= k < names.len() ==> inputs.contains(#[trigger] texts(names@)[k]),
        decreases label_sets.len() - i,
    {
        let found = find_label(&label_sets[i], NAME_LABEL);
        assert(label_lookup(label_sets[i as int]@, NAME_LABEL@) is Some);
        let name = match found {
            Some(n) => n,
            None => {
                return names;  // not reached: every label set carries the name
            },
        };
        assert(name@ == inputs[i as int]);
        let ghost before = texts(names@);
        let seen = contains_text(&names, &name);
        if !seen {
            names.push(name);
            assert(texts(names@) =~= before.push(inputs[i as int]));
        } else {
            let ghost k = choose|k: int| 0 <= k < names.len() && #[trigger] names[k]@ == name@;
            assert(before[k] == inputs[i as int]);
            assert(texts(names@) =~= before);
        }
        assert forall|j: int| 0 <= j < i + 1 implies texts(names@).contains(
            #[trigger] inputs[j],
        ) by {
            if j < i {
                let k = choose|k: int| 0 <= k < before.len() && before[k] == inputs[j];
                assert(texts(names@)[k] == inputs[j]);
            } else if !seen {
                assert(texts(names@)[before.len() as int] == inputs[j]);
            } else {
                let k = choose|k: int| 0 <= k < names.len() && #[trigger] names[k]@ == name@;
                assert(texts(names@)[k] == inputs[j]);
            }
        }
        assert forall|k: int| 0 <= k < names.len() implies inputs.contains(
            #[trigger] texts(names@)[k],
        ) by {
            if k < before.len() {
                assert(texts(names@)[k] == before[k]);
            } else {
                assert(inputs[i as int] == texts(names@)[k]);
            }
        }
        i = i + 1;
    }
    names
}

/// How a container's state decides its status, whatever the state's case:
/// a container without a state is failing; one whose lower-cased state is
/// "created", "removing", "paused" or "exited" is offline, "restarting" is
/// starting, "running" is running, and "dead" or any other state is failing.
pub proof fn lemma_container_status_table(state: Seq<char>)
    ensures
        container_status_of(None) == Status::Failing,
        lowercase_chars(state) == "created"@ ==> container_status_of(Some(state)) == Status::Offline,
        lowercase_chars(state) == "restarting"@ ==> container_status_of(Some(state))
            == Status::Starting,
        lowercase_chars(state) == "running"@ ==> container_status_of(Some(state)) == Status::Running,
        lowercase_chars(state) == "removing"@ ==> container_status_of(Some(state)) == Status::Offline,
        lowercase_chars(state) == "paused"@ ==> container_status_of(Some(state)) == Status::Offline,
        lowercase_chars(state) == "exited"@ ==> container_status_of(Some(state)) == Status::Offline,
        lowercase_chars(state) == "dead"@ ==> container_status_of(Some(state)) == Status::Failing,
        (lowercase_chars(state) != "created"@ && lowercase_chars(state) != "restarting"@
            && lowercase_chars(state) != "running"@ && lowercase_chars(state) != "removing"@
            && lowercase_chars(state) != "paused"@ && lowercase_chars(state) != "exited"@)
            ==> container_status_of(Some(state)) == Status::Failing,
{
    reveal_strlit("created");
    reveal_strlit("restarting");
    reveal_strlit("running");
    reveal_strlit("removing");
    reveal_strlit("paused");
    reveal_strlit("exited");
    reveal_strlit("dead");
    assert("created"@[0] != "running"@[0]);
    assert("created"@.len() != "restarting"@.len());
    assert("created"@.len() != "removing"@.len());
    assert("created"@.len() != "paused"@.len());
    assert("created"@.len() != "exited"@.len());
    assert("created"@.len() != "dead"@.len());
    assert("restarting"@.len() != "running"@.len());
    assert("restarting"@.len() != "removing"@.len());
    assert("restarting"@.len() != "paused"@.len());
    assert("restarting"@.len() != "exited"@.len());
    assert("restarting"@.len() != "dead"@.len());
    assert("running"@.len() != "removing"@.len());
    assert("running"@.len() != "paused"@.len());
    assert("running"@.len() != "exited"@.len());
    assert("running"@.len() != "dead"@.len());
    assert("removing"@.len() != "dead"@.len());
    assert("paused"@.len() != "dead"@.len());
    assert("exited"@.len() != "dead"@.len());
}

} // verus!
