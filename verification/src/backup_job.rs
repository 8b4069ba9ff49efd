//! Backup jobs: the dump a job runs, the stage it ends in, and the answer to
//! a request for its progress.

use crate::backup::{
    lemma_read_after_write, BackupError, BackupManager, BackupState, BackupStateView, StoreView,
};
use crate::config::{Config, ConfigView};
use crate::instance::{text_of, texts};
use crate::plans::{database_container_name, database_container_name_of};
use crate::text::{hyphenated_uuid, join, join3, uuid_text};
use vstd::prelude::*;
use vstd::string::StringExecFns;

verus! {

/// The answer to a request for a job's progress.
#[derive(Debug, Clone, PartialEq, Eq)]
pub struct BackupCheck {
    /// The job's stage in words.
    pub status: String,
    /// Where the finished dump can be downloaded; only for a finished job.
    pub access_url: Option<String>,
}

/// A command to run in a container.
#[derive(Debug, Clone)]
pub struct DumpCommand {
    /// The container to run it in.
    pub container: String,
    /// The command and its arguments.
    pub cmd: Vec<String>,
}

/// A job's stage in words.
pub open spec fn status_text(state: BackupStateView) -> Seq<char> {
    match state {
        BackupStateView::NotFound => "Not Found"@,
        BackupStateView::Pending => "Pending"@,
        BackupStateView::Running => "Running"@,
        BackupStateView::Error(message) => "Error: "@ + message,
        BackupStateView::Finished => "Finished"@,
    }
}

/// Where a job's dump can be downloaded: under the service's `api`
/// subdomain, for a finished job only.
pub open spec fn access_url_of(state: BackupStateView, domain: Seq<char>, id_text: Seq<char>) -> Option<
    Seq<char>,
> {
    if state is Finished {
        Some("http://api."@ + domain + "/backups/download/"@ + id_text)
    } else {
        None
    }
}

/// The dump a job runs in the database container: `mysqldump` of the
/// `wordpress` database with the configured credentials, piped through gzip
/// into `/backups/<job id>.sql.gz`.
pub open spec fn dump_args(config: ConfigView, id_text: Seq<char>) -> Seq<Seq<char>> {
    seq![
        "mysqldump"@,
        "-u"@,
        config.db_username,
        "-p"@,
        config.db_password,
        "wordpress"@,
        "|"@,
        "gzip"@,
        ">"@,
        "/backups/"@ + id_text + ".sql.gz"@,
    ]
}

/// The stage a job ends in after its dump: finished when the dump ran,
/// errored with the failure's message otherwise.
pub open spec fn dump_result_state(outcome: Result<(), String>) -> BackupStateView {
    match outcome {
        Ok(()) => BackupStateView::Finished,
        Err(message) => BackupStateView::Error(message@),
    }
}

/// The answer for a job in `state` whose id reads `id_text`.
pub fn backup_check(state: &BackupState, domain: &str, id_text: &str) -> (check: BackupCheck)
    ensures
        check.status@ == status_text(state@),
        text_of(check.access_url) == access_url_of(state@, domain@, id_text@),
{
    let status = match state {
        BackupState::NotFound => String::from_str("Not Found"),
        BackupState::Pending => String::from_str("Pending"),
        BackupState::Running => String::from_str("Running"),
        BackupState::Error(message) => join("Error: ", message.as_str()),
        BackupState::Finished => String::from_str("Finished"),
    };
    let access_url = match state {
        BackupState::Finished => {
            let mut url = join3("http://api.", domain, "/backups/download/");
            url.append(id_text);
            Some(url)
        },
        _ => None,
    };
    BackupCheck { status, access_url }
}

/// The progress of the job `id`: the stage `get_status` reads, put into
/// words (`backup_check`), with the download address, built from the job's
/// hyphenated id, when it is finished. Which stage the read finds is up to
/// sled; the errors are those of `get_status`.
pub fn check_backup(store: &BackupManager, id: [u8; 16], domain: &str) -> (result: Result<
    BackupCheck,
    BackupError,
>)
    ensures
        result matches Ok(check) ==> exists|s: BackupStateView|
            #![trigger status_text(s)]
            check.status@ == status_text(s) && text_of(check.access_url) == access_url_of(
                s,
                domain@,
                hyphenated_uuid(id@),
            ),
        result matches Err(e) ==> (e is Storage || e is InvalidText),
{
    match store.get_status(id) {
        Ok(state) => {
            let id_text = uuid_text(id);
            Ok(backup_check(&state, domain, id_text.as_str()))
        },
        Err(e) => Err(e),
    }
}

/// The dump that the job `id_text` runs for the instance `name`.
pub fn dump_command(name: &str, config: &Config, id_text: &str) -> (command: DumpCommand)
    ensures
        command.container@ == database_container_name_of(name@),
        texts(command.cmd@) == dump_args(config@, id_text@),
{
    let mut cmd: Vec<String> = Vec::new();
    cmd.push(String::from_str("mysqldump"));
    cmd.push(String::from_str("-u"));
    cmd.push(config.db_username.clone());
    cmd.push(String::from_str("-p"));
    cmd.push(config.db_password.clone());
    cmd.push(String::from_str("wordpress"));
    cmd.push(String::from_str("|"));
    cmd.push(String::from_str("gzip"));
    cmd.push(String::from_str(">"));
    cmd.push(join3("/backups/", id_text, ".sql.gz"));
    assert(texts(cmd@) =~= dump_args(config@, id_text@));
    DumpCommand { container: database_container_name(name), cmd }
}

/// The stage a job ends in after its dump: finished when the dump ran,
/// errored with the failure's message otherwise.
pub fn state_after_dump(outcome: Result<(), String>) -> (state: BackupState)
    ensures
        state@ == dump_result_state(outcome),
{
    match outcome {
        Ok(()) => BackupState::Finished,
        Err(message) => BackupState::Error(message),
    }
}

/// After a job is moved to a stage, a progress request about it answers
/// with that stage's words, and offers a download exactly when the stage is
/// finished.
pub proof fn lemma_progress_after_move(
    store: StoreView,
    key: Seq<u8>,
    state: BackupStateView,
    domain: Seq<char>,
    id_text: Seq<char>,
)
    ensures
        store.placed(key, state).state_of(key) matches Some(s) && status_text(s) == status_text(
            state,
        ) && (access_url_of(s, domain, id_text) is Some <==> state is Finished),
{
    lemma_read_after_write(store, key, state);
}

/// A backup job runs, then ends: once it is moved to running the store
/// reports it running, and once it is then moved to the stage its dump's
/// outcome gives, the store reports that stage, which is finished or
/// errored and never pending.
pub proof fn lemma_backup_job_progress(store: StoreView, key: Seq<u8>, outcome: Result<(), String>)
    ensures
        store.placed(key, BackupStateView::Running).state_of(key) == Some(
            BackupStateView::Running,
        ),
        store.placed(key, BackupStateView::Running).placed(key, dump_result_state(outcome)).state_of(
            key,
        ) == Some(dump_result_state(outcome)),
        outcome is Ok ==> dump_result_state(outcome) == BackupStateView::Finished,
        outcome matches Err(message) ==> dump_result_state(outcome) == BackupStateView::Error(
            message@,
        ),
        !(dump_result_state(outcome) is Pending),
{
    lemma_read_after_write(store, key, BackupStateView::Running);
    lemma_read_after_write(
        store.placed(key, BackupStateView::Running),
        key,
        dump_result_state(outcome),
    );
}

} // verus!
