use makepress::backup::{stage_from_reads, BackupError, BackupManager, BackupState};
use makepress::backup_job::check_backup;

fn fresh_store() -> (sled::Db, BackupManager) {
    let db = sled::Config::new().temporary(true).open().unwrap();
    let store = BackupManager::try_from(db.clone()).unwrap();
    (db, store)
}

const JOB: [u8; 16] = [0, 1, 2, 3, 4, 5, 6, 7, 8, 9, 10, 11, 12, 13, 14, 15];
const OTHER_JOB: [u8; 16] = [9; 16];

#[test]
fn unknown_job_is_not_found() {
    let (_db, store) = fresh_store();
    assert_eq!(store.get_status(JOB).unwrap(), BackupState::NotFound);
}

#[test]
fn pending_job_reads_back_pending() {
    let (_db, store) = fresh_store();
    store.set_pending(JOB).unwrap();
    assert_eq!(store.get_status(JOB).unwrap(), BackupState::Pending);
}

#[test]
fn running_replaces_pending() {
    let (db, store) = fresh_store();
    store.set_pending(JOB).unwrap();
    store.set_running(JOB).unwrap();
    assert_eq!(store.get_status(JOB).unwrap(), BackupState::Running);
    let pending = db.open_tree("pending").unwrap();
    assert!(pending.get(JOB).unwrap().is_none());
}

#[test]
fn error_message_reads_back() {
    let (db, store) = fresh_store();
    store.set_running(JOB).unwrap();
    store.set_errored(JOB, "dump failed: ü".to_string()).unwrap();
    assert_eq!(
        store.get_status(JOB).unwrap(),
        BackupState::Error("dump failed: ü".to_string())
    );
    let errored = db.open_tree("errored").unwrap();
    assert_eq!(&errored.get(JOB).unwrap().unwrap()[..], "dump failed: ü".as_bytes());
    let running = db.open_tree("running").unwrap();
    assert!(running.get(JOB).unwrap().is_none());
}

#[test]
fn finished_job_reads_back_finished() {
    let (_db, store) = fresh_store();
    store.set_errored(JOB, "x".to_string()).unwrap();
    store.set_finished(JOB).unwrap();
    assert_eq!(store.get_status(JOB).unwrap(), BackupState::Finished);
}

#[test]
fn notfound_forgets_the_job() {
    let (db, store) = fresh_store();
    store.set_finished(JOB).unwrap();
    store.set_notfound(JOB).unwrap();
    assert_eq!(store.get_status(JOB).unwrap(), BackupState::NotFound);
    for name in ["pending", "running", "errored", "finished"] {
        assert!(db.open_tree(name).unwrap().get(JOB).unwrap().is_none());
    }
}

#[test]
fn set_status_reads_back_every_stage() {
    let (_db, store) = fresh_store();
    let stages = vec![
        BackupState::Pending,
        BackupState::Running,
        BackupState::Error("boom".to_string()),
        BackupState::Finished,
        BackupState::NotFound,
    ];
    for stage in stages {
        store.set_status(JOB, stage.clone()).unwrap();
        assert_eq!(store.get_status(JOB).unwrap(), stage);
    }
}

#[test]
fn moving_one_job_leaves_another() {
    let (_db, store) = fresh_store();
    store.set_running(OTHER_JOB).unwrap();
    store.set_finished(JOB).unwrap();
    store.set_errored(JOB, "late".to_string()).unwrap();
    assert_eq!(store.get_status(OTHER_JOB).unwrap(), BackupState::Running);
}

#[test]
fn last_move_wins() {
    let (_db, store) = fresh_store();
    store.set_status(JOB, BackupState::Error("first".to_string())).unwrap();
    store.set_status(JOB, BackupState::Pending).unwrap();
    assert_eq!(store.get_status(JOB).unwrap(), BackupState::Pending);
}

#[test]
fn pending_wins_over_a_stray_finished_entry() {
    let (db, store) = fresh_store();
    db.open_tree("finished").unwrap().insert(JOB, vec![]).unwrap();
    db.open_tree("pending").unwrap().insert(JOB, vec![]).unwrap();
    assert_eq!(store.get_status(JOB).unwrap(), BackupState::Pending);
}

#[test]
fn undecodable_error_entry_is_reported() {
    let (db, store) = fresh_store();
    db.open_tree("errored").unwrap().insert(JOB, vec![0xff, 0xfe]).unwrap();
    match store.get_status(JOB) {
        Err(BackupError::InvalidText(bytes)) => assert_eq!(bytes, vec![0xff, 0xfe]),
        other => panic!("unexpected {:?}", other),
    }
}

#[test]
fn check_of_finished_job_has_download_address() {
    let (_db, store) = fresh_store();
    store.set_finished(JOB).unwrap();
    let check = check_backup(&store, JOB, "example.org").unwrap();
    assert_eq!(check.status, "Finished");
    assert_eq!(
        check.access_url,
        Some(
            "http://api.example.org/backups/download/00010203-0405-0607-0809-0a0b0c0d0e0f"
                .to_string()
        )
    );
}

#[test]
fn check_of_errored_job_shows_message() {
    let (_db, store) = fresh_store();
    store.set_errored(JOB, "no space".to_string()).unwrap();
    let check = check_backup(&store, JOB, "example.org").unwrap();
    assert_eq!(check.status, "Error: no space");
    assert_eq!(check.access_url, None);
}

#[test]
fn check_of_unknown_job_is_not_found() {
    let (_db, store) = fresh_store();
    let check = check_backup(&store, JOB, "example.org").unwrap();
    assert_eq!(check.status, "Not Found");
    assert_eq!(check.access_url, None);
}

#[test]
fn opening_reads_what_the_database_holds() {
    let db = sled::Config::new().temporary(true).open().unwrap();
    db.open_tree("finished").unwrap().insert(JOB, vec![]).unwrap();
    db.open_tree("errored").unwrap().insert(OTHER_JOB, "old".as_bytes()).unwrap();
    let store = BackupManager::try_from(db).unwrap();
    assert_eq!(store.get_status(JOB).unwrap(), BackupState::Finished);
    assert_eq!(store.get_status(OTHER_JOB).unwrap(), BackupState::Error("old".to_string()));
}

#[test]
fn stores_on_one_database_share_their_trees() {
    let db = sled::Config::new().temporary(true).open().unwrap();
    let earlier = db.open_tree("pending").unwrap();
    let first = BackupManager::try_from(db.clone()).unwrap();
    let second = BackupManager::try_from(db.clone()).unwrap();
    first.set_pending(JOB).unwrap();
    assert!(earlier.get(JOB).unwrap().is_some());
    assert_eq!(second.get_status(JOB).unwrap(), BackupState::Pending);
    second.set_finished(JOB).unwrap();
    assert_eq!(first.get_status(JOB).unwrap(), BackupState::Finished);
}

#[test]
fn stage_decided_from_reads() {
    let some = |b: &[u8]| Some(b.to_vec());
    assert_eq!(stage_from_reads(some(b""), some(b""), None, some(b"")).unwrap(), BackupState::Pending);
    assert_eq!(stage_from_reads(None, some(b""), some(b"x"), None).unwrap(), BackupState::Running);
    assert_eq!(
        stage_from_reads(None, None, some("boom".as_bytes()), some(b"")).unwrap(),
        BackupState::Error("boom".to_string())
    );
    assert_eq!(stage_from_reads(None, None, None, some(b"")).unwrap(), BackupState::Finished);
    assert_eq!(stage_from_reads(None, None, None, None).unwrap(), BackupState::NotFound);
    match stage_from_reads(None, None, some(&[0xc3]), None) {
        Err(BackupError::InvalidText(bytes)) => assert_eq!(bytes, vec![0xc3]),
        other => panic!("unexpected {:?}", other),
    }
}
