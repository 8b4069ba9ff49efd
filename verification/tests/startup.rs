use makepress::init::{created_proxy_name, init_start, init_step, InitAction, InitOutcome, ProxyFacts};

fn proxy(state: Option<&str>, name: Option<&str>) -> InitOutcome {
    InitOutcome::Proxy(Some(ProxyFacts {
        state: state.map(|s| s.to_string()),
        first_name: name.map(|s| s.to_string()),
    }))
}

#[test]
fn everything_present_is_ready_at_once() {
    let s = init_start();
    assert_eq!(s.action, InitAction::CheckNetwork);
    assert_eq!(s.output, "Checking for network...");
    let s = init_step(&s.action, InitOutcome::Exists(true));
    assert_eq!(s.action, InitAction::CheckVolume);
    assert_eq!(s.output, "FOUND\nChecking for backup volume...");
    let s = init_step(&s.action, InitOutcome::Exists(true));
    assert_eq!(s.action, InitAction::FindProxy);
    assert_eq!(s.output, "FOUND\nChecking for proxy...");
    let s = init_step(&s.action, proxy(Some("running"), Some("/makepress-proxy")));
    assert_eq!(s.action, InitAction::Ready);
    assert_eq!(s.output, "FOUND\nREADY! 🚀\n");
}

#[test]
fn everything_missing_is_created() {
    let s = init_step(&InitAction::CheckNetwork, InitOutcome::Exists(false));
    assert_eq!(s.action, InitAction::CreateNetwork);
    assert_eq!(s.output, "MISSING\nCreating network...");
    let s = init_step(&s.action, InitOutcome::Done);
    assert_eq!(s.action, InitAction::CheckVolume);
    assert_eq!(s.output, "DONE\nChecking for backup volume...");
    let s = init_step(&s.action, InitOutcome::Exists(false));
    assert_eq!(s.action, InitAction::CreateVolume);
    assert_eq!(s.output, "MISSING\nCreating backup volume...");
    let s = init_step(&s.action, InitOutcome::Done);
    assert_eq!(s.action, InitAction::FindProxy);
    assert_eq!(s.output, "DONE\nChecking for proxy...");
    let s = init_step(&s.action, InitOutcome::Proxy(None));
    assert_eq!(s.action, InitAction::CreateProxy);
    assert_eq!(s.output, "MISSING\nCreating proxy...");
    let s = init_step(&s.action, InitOutcome::Done);
    assert_eq!(s.action, InitAction::StartCreatedProxy);
    assert_eq!(s.output, "DONE\nStarting proxy...");
    let s = init_step(&s.action, InitOutcome::Done);
    assert_eq!(s.action, InitAction::Ready);
    assert_eq!(s.output, "DONE\nREADY! 🚀\n");
    assert_eq!(created_proxy_name(), "makepress-proxy");
}

#[test]
fn stopped_proxy_is_started_by_its_name() {
    let s = init_step(&InitAction::FindProxy, proxy(Some("exited"), Some("/old-proxy")));
    assert_eq!(s.action, InitAction::StartProxy("/old-proxy".to_string()));
    assert_eq!(s.output, "NOT RUNNING\nStarting proxy...");
    let s = init_step(&s.action, InitOutcome::Done);
    assert_eq!(s.action, InitAction::Ready);
    assert_eq!(s.output, "DONE;\nREADY! 🚀\n");
}

#[test]
fn proxy_without_state_is_started() {
    let s = init_step(&InitAction::FindProxy, proxy(None, Some("p")));
    assert_eq!(s.action, InitAction::StartProxy("p".to_string()));
    let s = init_step(&InitAction::FindProxy, proxy(Some("Running"), Some("p")));
    assert_eq!(s.action, InitAction::StartProxy("p".to_string()));
}
