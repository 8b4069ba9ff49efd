use makepress::backup::{BackupManager, BackupState};
use makepress::backup_job::{backup_check, dump_command, state_after_dump};
use makepress::config::Config;

#[test]
fn stage_words() {
    let cases = vec![
        (BackupState::NotFound, "Not Found"),
        (BackupState::Pending, "Pending"),
        (BackupState::Running, "Running"),
        (BackupState::Error("disk".to_string()), "Error: disk"),
        (BackupState::Finished, "Finished"),
    ];
    for (state, words) in cases {
        let check = backup_check(&state, "example.org", "id-1");
        assert_eq!(check.status, words);
        if state == BackupState::Finished {
            assert_eq!(
                check.access_url,
                Some("http://api.example.org/backups/download/id-1".to_string())
            );
        } else {
            assert_eq!(check.access_url, None);
        }
    }
}

#[test]
fn dump_runs_in_the_database_container() {
    let c = Config::new(None, Some("u".to_string()), Some("p".to_string()), None, None, None);
    let d = dump_command("blog", &c, "abc");
    assert_eq!(d.container, "blog-db");
    let expected: Vec<String> = [
        "mysqldump", "-u", "u", "-p", "p", "wordpress", "|", "gzip", ">", "/backups/abc.sql.gz",
    ]
    .iter()
    .map(|s| s.to_string())
    .collect();
    assert_eq!(d.cmd, expected);
}

#[test]
fn dump_outcome_decides_the_stage() {
    assert_eq!(state_after_dump(Ok(())), BackupState::Finished);
    assert_eq!(
        state_after_dump(Err("exec failed".to_string())),
        BackupState::Error("exec failed".to_string())
    );
}

#[test]
fn backup_job_runs_then_ends() {
    let db = sled::Config::new().temporary(true).open().unwrap();
    let store = BackupManager::try_from(db).unwrap();
    let id = [7u8; 16];
    store.set_status(id, BackupState::Running).unwrap();
    assert_eq!(store.get_status(id).unwrap(), BackupState::Running);
    store.set_status(id, state_after_dump(Err("exec failed".to_string()))).unwrap();
    assert_eq!(store.get_status(id).unwrap(), BackupState::Error("exec failed".to_string()));
    store.set_status(id, state_after_dump(Ok(()))).unwrap();
    assert_eq!(store.get_status(id).unwrap(), BackupState::Finished);
}
