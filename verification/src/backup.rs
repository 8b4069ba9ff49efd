//! The record of backup jobs: four sled trees, one for each stage a job can
//! be in (pending, running, errored, finished), keyed by the job's 16-byte id.
//!
//! sled trees are shared: every handle to a tree, here or elsewhere, sees
//! every write to it. So what a read finds is a result that sled decides;
//! the library fixes what it hands to sled (`writes_for`) and what it
//! concludes from what it reads (`stage_from_reads`). `StoreView` models the
//! trees' entries for the laws, which hold when nothing else writes the
//! trees between a move and a read.

use crate::sled_store::{
    apply_writes, batch_insert, batch_remove, batch_writes, commit_writes, new_batch, open_tree,
    tree_get, tree_name, StoreWrites,
};
use crate::text::decode_text;
use vstd::prelude::*;
use vstd::utf8::*;

verus! {

/// The stage of a backup job, as the store reports it.
#[derive(Debug, Clone, PartialEq, Eq)]
pub enum BackupState {
    NotFound,
    Pending,
    Running,
    Error(String),
    Finished,
}

/// A backup stage as a mathematical value.
pub enum BackupStateView {
    NotFound,
    Pending,
    Running,
    Error(Seq<char>),
    Finished,
}

impl View for BackupState {
    type V = BackupStateView;

    open spec fn view(&self) -> BackupStateView {
        match self {
            BackupState::NotFound => BackupStateView::NotFound,
            BackupState::Pending => BackupStateView::Pending,
            BackupState::Running => BackupStateView::Running,
            BackupState::Error(message) => BackupStateView::Error(message@),
            BackupState::Finished => BackupStateView::Finished,
        }
    }
}

/// Entries of the four trees, as a mathematical value.
#[verifier::ext_equal]
pub struct StoreView {
    pub pending: Map<Seq<u8>, Seq<u8>>,
    pub running: Map<Seq<u8>, Seq<u8>>,
    pub errored: Map<Seq<u8>, Seq<u8>>,
    pub finished: Map<Seq<u8>, Seq<u8>>,
}

/// The value stored under `key`, if any.
pub open spec fn entry(entries: Map<Seq<u8>, Seq<u8>>, key: Seq<u8>) -> Option<Seq<u8>> {
    if entries.contains_key(key) {
        Some(entries[key])
    } else {
        None
    }
}

/// Optional bytes as a mathematical value.
pub open spec fn bytes_of(value: Option<Vec<u8>>) -> Option<Seq<u8>> {
    match value {
        Some(v) => Some(v@),
        None => None,
    }
}

/// The stage that reading a job's entry in the four trees decides. The
/// trees are consulted in the order pending, running, errored, finished, and
/// the first that holds the job decides; a job in none of them is not found.
/// An error entry whose bytes are not UTF-8 decides no readable stage
/// (`None`).
pub open spec fn stage_of_reads(
    pending: Option<Seq<u8>>,
    running: Option<Seq<u8>>,
    errored: Option<Seq<u8>>,
    finished: Option<Seq<u8>>,
) -> Option<BackupStateView> {
    if pending is Some {
        Some(BackupStateView::Pending)
    } else if running is Some {
        Some(BackupStateView::Running)
    } else if errored is Some {
        if valid_utf8(errored->0) {
            Some(BackupStateView::Error(decode_utf8(errored->0)))
        } else {
            None
        }
    } else if finished is Some {
        Some(BackupStateView::Finished)
    } else {
        Some(BackupStateView::NotFound)
    }
}

/// Sets `key` to `value` in `entries` when there is a value, removes it
/// otherwise.
pub open spec fn put(
    entries: Map<Seq<u8>, Seq<u8>>,
    key: Seq<u8>,
    value: Option<Seq<u8>>,
) -> Map<Seq<u8>, Seq<u8>> {
    match value {
        Some(v) => entries.insert(key, v),
        None => entries.remove(key),
    }
}

/// The entry a job in `state` has in the pending tree.
pub open spec fn pending_entry(state: BackupStateView) -> Option<Seq<u8>> {
    if state is Pending {
        Some(Seq::empty())
    } else {
        None
    }
}

/// The entry a job in `state` has in the running tree.
pub open spec fn running_entry(state: BackupStateView) -> Option<Seq<u8>> {
    if state is Running {
        Some(Seq::empty())
    } else {
        None
    }
}

/// The entry a job in `state` has in the errored tree: the UTF-8 bytes of the
/// error message.
pub open spec fn errored_entry(state: BackupStateView) -> Option<Seq<u8>> {
    match state {
        BackupStateView::Error(message) => Some(encode_utf8(message)),
        _ => None,
    }
}

/// The entry a job in `state` has in the finished tree.
pub open spec fn finished_entry(state: BackupStateView) -> Option<Seq<u8>> {
    if state is Finished {
        Some(Seq::empty())
    } else {
        None
    }
}

impl StoreView {
    /// The stage a store that holds these entries reports for `key`: what
    /// reading the four trees for `key` decides (see `stage_of_reads`).
    pub open spec fn state_of(self, key: Seq<u8>) -> Option<BackupStateView> {
        stage_of_reads(
            entry(self.pending, key),
            entry(self.running, key),
            entry(self.errored, key),
            entry(self.finished, key),
        )
    }

    /// The store after the job `key` is moved to `state`: its entry in the
    /// tree of that stage is set, its entries in the other trees are removed,
    /// and every other key keeps its entries.
    pub open spec fn placed(self, key: Seq<u8>, state: BackupStateView) -> StoreView {
        StoreView {
            pending: put(self.pending, key, pending_entry(state)),
            running: put(self.running, key, running_entry(state)),
            errored: put(self.errored, key, errored_entry(state)),
            finished: put(self.finished, key, finished_entry(state)),
        }
    }

    /// No key is held by two trees at once.
    pub open spec fn exclusive(self) -> bool {
        &&& self.pending.dom().disjoint(self.running.dom())
        &&& self.pending.dom().disjoint(self.errored.dom())
        &&& self.pending.dom().disjoint(self.finished.dom())
        &&& self.running.dom().disjoint(self.errored.dom())
        &&& self.running.dom().disjoint(self.finished.dom())
        &&& self.errored.dom().disjoint(self.finished.dom())
    }
}

/// The batches move the job `key` to `state`: each tree's batch writes
/// only `key`, setting the entry of that stage in its tree and removing the
/// job from the other three.
pub open spec fn moves_job_to(writes: StoreWrites, key: Seq<u8>, state: BackupStateView) -> bool {
    &&& batch_writes(writes.pending) == Map::empty().insert(key, pending_entry(state))
    &&& batch_writes(writes.running) == Map::empty().insert(key, running_entry(state))
    &&& batch_writes(writes.errored) == Map::empty().insert(key, errored_entry(state))
    &&& batch_writes(writes.finished) == Map::empty().insert(key, finished_entry(state))
}

/// The batches move one job to one stage.
pub open spec fn moves_one_job(writes: StoreWrites) -> bool {
    exists|key: Seq<u8>, state: BackupStateView| moves_job_to(writes, key, state)
}

/// Why a store operation failed.
#[derive(Debug)]
pub enum BackupError {
    /// Reading a tree failed.
    Storage(sled::Error),
    /// The transaction that moves a job failed.
    Transaction(sled::transaction::TransactionError<sled::Error>),
    /// The job is recorded as errored, but its stored message is not UTF-8.
    InvalidText(Vec<u8>),
}

/// The record of backup jobs. Its trees are shared: writes made through any
/// other handle to them are seen here too.
#[derive(Debug)]
pub struct BackupManager {
    pending: sled::Tree,
    running: sled::Tree,
    errored: sled::Tree,
    finished: sled::Tree,
}

impl BackupManager {
    /// The names of the four trees, in the order pending, running, errored,
    /// finished.
    pub closed spec fn tree_names(self) -> Seq<Seq<u8>> {
        seq![
            tree_name(self.pending),
            tree_name(self.running),
            tree_name(self.errored),
            tree_name(self.finished),
        ]
    }
}

/// Applying a batch that writes one key is setting or removing that key.
proof fn lemma_apply_single_write(
    entries: Map<Seq<u8>, Seq<u8>>,
    key: Seq<u8>,
    value: Option<Seq<u8>>,
)
    ensures
        apply_writes(entries, Map::empty().insert(key, value)) == put(entries, key, value),
{
    assert(apply_writes(entries, Map::empty().insert(key, value)) =~= put(entries, key, value));
}

/// Handing sled the batches of a move applies the move: the four trees'
/// entries, each with its batch applied, are the store with the job moved.
pub proof fn lemma_handed_writes_make_the_move(
    store: StoreView,
    key: Seq<u8>,
    state: BackupStateView,
    pending: Map<Seq<u8>, Option<Seq<u8>>>,
    running: Map<Seq<u8>, Option<Seq<u8>>>,
    errored: Map<Seq<u8>, Option<Seq<u8>>>,
    finished: Map<Seq<u8>, Option<Seq<u8>>>,
)
    requires
        pending == Map::empty().insert(key, pending_entry(state)),
        running == Map::empty().insert(key, running_entry(state)),
        errored == Map::empty().insert(key, errored_entry(state)),
        finished == Map::empty().insert(key, finished_entry(state)),
    ensures
        (StoreView {
            pending: apply_writes(store.pending, pending),
            running: apply_writes(store.running, running),
            errored: apply_writes(store.errored, errored),
            finished: apply_writes(store.finished, finished),
        }) == store.placed(key, state),
{
    lemma_apply_single_write(store.pending, key, pending_entry(state));
    lemma_apply_single_write(store.running, key, running_entry(state));
    lemma_apply_single_write(store.errored, key, errored_entry(state));
    lemma_apply_single_write(store.finished, key, finished_entry(state));
}

/// Writes `value` for `key` into a fresh batch, or a removal of `key` when
/// there is no value.
fn single_write(key: &[u8; 16], value: Option<&[u8]>) -> (batch: sled::Batch)
    ensures
        batch_writes(batch) == Map::empty().insert(
            key@,
            match value {
                Some(v) => Some(v@),
                None => None::<Seq<u8>>,
            },
        ),
{
    let mut batch = new_batch();
    match value {
        Some(v) => batch_insert(&mut batch, key, v),
        None => batch_remove(&mut batch, key),
    }
    batch
}

/// The four batches that move the job `key` to `state`: the stage's
/// tree gets the job's entry (an empty value, or the UTF-8 bytes of the
/// message for an error), the other three lose it.
pub fn writes_for(key: &[u8; 16], state: &BackupState) -> (writes: StoreWrites)
    ensures
        batch_writes(writes.pending) == Map::empty().insert(key@, pending_entry(state@)),
        batch_writes(writes.running) == Map::empty().insert(key@, running_entry(state@)),
        batch_writes(writes.errored) == Map::empty().insert(key@, errored_entry(state@)),
        batch_writes(writes.finished) == Map::empty().insert(key@, finished_entry(state@)),
{
    let nothing: Vec<u8> = Vec::new();
    let empty = nothing.as_slice();
    assert(empty@ =~= Seq::<u8>::empty());
    match state {
        BackupState::NotFound => StoreWrites {
            pending: single_write(key, None),
            running: single_write(key, None),
            errored: single_write(key, None),
            finished: single_write(key, None),
        },
        BackupState::Pending => StoreWrites {
            pending: single_write(key, Some(empty)),
            running: single_write(key, None),
            errored: single_write(key, None),
            finished: single_write(key, None),
        },
        BackupState::Running => StoreWrites {
            pending: single_write(key, None),
            running: single_write(key, Some(empty)),
            errored: single_write(key, None),
            finished: single_write(key, None),
        },
        BackupState::Error(message) => StoreWrites {
            pending: single_write(key, None),
            running: single_write(key, None),
            errored: single_write(key, Some(message.as_str().as_bytes())),
            finished: single_write(key, None),
        },
        BackupState::Finished => StoreWrites {
            pending: single_write(key, None),
            running: single_write(key, None),
            errored: single_write(key, None),
            finished: single_write(key, Some(empty)),
        },
    }
}

/// The stage that the four reads of a job's entry decide (see
/// `stage_of_reads`). A job recorded as errored whose stored message is not
/// UTF-8 has no readable stage; this library reports that case as the error
/// `InvalidText`, carrying the stored bytes, and does not panic on it.
pub fn stage_from_reads(
    pending: Option<Vec<u8>>,
    running: Option<Vec<u8>>,
    errored: Option<Vec<u8>>,
    finished: Option<Vec<u8>>,
) -> (result: Result<BackupState, BackupError>)
    ensures
        result matches Ok(s) ==> stage_of_reads(
            bytes_of(pending),
            bytes_of(running),
            bytes_of(errored),
            bytes_of(finished),
        ) == Some(s@),
        result matches Err(e) ==> (e matches BackupError::InvalidText(bytes) && bytes_of(errored)
            == Some(bytes@)),
        result is Err <==> stage_of_reads(
            bytes_of(pending),
            bytes_of(running),
            bytes_of(errored),
            bytes_of(finished),
        ) is None,
{
    if pending.is_some() {
        Ok(BackupState::Pending)
    } else if running.is_some() {
        Ok(BackupState::Running)
    } else {
        match errored {
            Some(bytes) => match decode_text(bytes.as_slice()) {
                Some(message) => Ok(BackupState::Error(message)),
                None => Err(BackupError::InvalidText(bytes)),
            },
            None => {
                if finished.is_some() {
                    Ok(BackupState::Finished)
                } else {
                    Ok(BackupState::NotFound)
                }
            },
        }
    }
}

/// Reads the job's entry in one tree, a failed read becoming `Storage`.
fn read_entry(tree: &sled::Tree, id: &[u8; 16]) -> (result: Result<Option<Vec<u8>>, BackupError>)
    ensures
        result matches Err(e) ==> e is Storage,
{
    match tree_get(tree, id) {
        Ok(found) => Ok(found),
        Err(e) => Err(BackupError::Storage(e)),
    }
}

impl BackupManager {
    /// Opens the store's four trees, named "pending", "running", "errored"
    /// and "finished", in `db`: the database's trees of those names, shared
    /// with every other handle to them. Whether opening fails is up to
    /// sled's storage.
    pub fn try_from(db: sled::Db) -> (result: Result<BackupManager, sled::Error>)
        ensures
            result matches Ok(store) ==> store.tree_names() == seq![
                encode_utf8("pending"@),
                encode_utf8("running"@),
                encode_utf8("errored"@),
                encode_utf8("finished"@),
            ],
    {
        let pending = match open_tree(&db, "pending") {
            Ok(t) => t,
            Err(e) => {
                return Err(e);
            },
        };
        let running = match open_tree(&db, "running") {
            Ok(t) => t,
            Err(e) => {
                return Err(e);
            },
        };
        let errored = match open_tree(&db, "errored") {
            Ok(t) => t,
            Err(e) => {
                return Err(e);
            },
        };
        let finished = match open_tree(&db, "finished") {
            Ok(t) => t,
            Err(e) => {
                return Err(e);
            },
        };
        let store = BackupManager { pending, running, errored, finished };
        assert(store.tree_names() =~= seq![
            encode_utf8("pending"@),
            encode_utf8("running"@),
            encode_utf8("errored"@),
            encode_utf8("finished"@),
        ]);
        Ok(store)
    }

    /// The stage recorded for the job `id`. The trees are read in the order
    /// pending, running, errored, finished, stopping at the first that holds
    /// the job, and `stage_from_reads` decides from what was found (a tree
    /// left unread counts as not holding the job, which cannot change the
    /// decision). What the reads find is up to sled. A failed read gives
    /// `Storage`; an errored job whose message is not UTF-8 gives
    /// `InvalidText`, and this never panics.
    pub fn get_status(&self, id: [u8; 16]) -> (result: Result<BackupState, BackupError>)
        ensures
            result matches Err(e) ==> (e is Storage || e is InvalidText),
            result matches Err(BackupError::InvalidText(bytes)) ==> !valid_utf8(bytes@),
    {
        let pending = match read_entry(&self.pending, &id) {
            Ok(found) => found,
            Err(e) => {
                return Err(e);
            },
        };
        let running = if pending.is_none() {
            match read_entry(&self.running, &id) {
                Ok(found) => found,
                Err(e) => {
                    return Err(e);
                },
            }
        } else {
            None
        };
        let errored = if pending.is_none() && running.is_none() {
            match read_entry(&self.errored, &id) {
                Ok(found) => found,
                Err(e) => {
                    return Err(e);
                },
            }
        } else {
            None
        };
        let finished = if pending.is_none() && running.is_none() && errored.is_none() {
            match read_entry(&self.finished, &id) {
                Ok(found) => found,
                Err(e) => {
                    return Err(e);
                },
            }
        } else {
            None
        };
        stage_from_reads(pending, running, errored, finished)
    }

    /// Moves the job `id` to `state`: hands sled the batches
    /// `writes_for(id, state)` in one transaction over the four trees.
    fn place(&self, id: [u8; 16], state: &BackupState) -> (result: Result<(), BackupError>)
        ensures
            result matches Err(e) ==> e is Transaction,
    {
        let writes = writes_for(&id, state);
        assert(moves_job_to(writes, id@, state@));
        match commit_writes(&self.pending, &self.running, &self.errored, &self.finished, &writes) {
            Ok(()) => Ok(()),
            Err(e) => Err(BackupError::Transaction(e)),
        }
    }

    /// Records the job `id` as pending and no longer running, errored or
    /// finished: the batches of `writes_for(id, Pending)`, in one
    /// transaction.
    pub fn set_pending(&self, id: [u8; 16]) -> (result: Result<(), BackupError>)
        ensures
            result matches Err(e) ==> e is Transaction,
    {
        self.place(id, &BackupState::Pending)
    }

    /// Records the job `id` as running and no longer pending, errored or
    /// finished: the batches of `writes_for(id, Running)`, in one
    /// transaction.
    pub fn set_running(&self, id: [u8; 16]) -> (result: Result<(), BackupError>)
        ensures
            result matches Err(e) ==> e is Transaction,
    {
        self.place(id, &BackupState::Running)
    }

    /// Records the job `id` as failed with the message `error`, and no longer
    /// pending, running or finished: the batches of
    /// `writes_for(id, Error(error))`, in one transaction.
    pub fn set_errored(&self, id: [u8; 16], error: String) -> (result: Result<(), BackupError>)
        ensures
            result matches Err(e) ==> e is Transaction,
    {
        self.place(id, &BackupState::Error(error))
    }

    /// Records the job `id` as finished and no longer pending, running or
    /// errored: the batches of `writes_for(id, Finished)`, in one
    /// transaction.
    pub fn set_finished(&self, id: [u8; 16]) -> (result: Result<(), BackupError>)
        ensures
            result matches Err(e) ==> e is Transaction,
    {
        self.place(id, &BackupState::Finished)
    }

    /// Forgets the job `id`: removes it from all four trees, the batches of
    /// `writes_for(id, NotFound)`, in one transaction.
    pub fn set_notfound(&self, id: [u8; 16]) -> (result: Result<(), BackupError>)
        ensures
            result matches Err(e) ==> e is Transaction,
    {
        self.place(id, &BackupState::NotFound)
    }

    /// Records the job `id` in `status`, through the setter for that stage.
    pub fn set_status(&self, id: [u8; 16], status: BackupState) -> (result: Result<
        (),
        BackupError,
    >)
        ensures
            result matches Err(e) ==> e is Transaction,
    {
        match status {
            BackupState::NotFound => self.set_notfound(id),
            BackupState::Pending => self.set_pending(id),
            BackupState::Running => self.set_running(id),
            BackupState::Error(error) => self.set_errored(id, error),
            BackupState::Finished => self.set_finished(id),
        }
    }
}

/// What is written is what is read back: after the job `key` is moved to
/// `state`, the store reports `state` for it.
pub proof fn lemma_read_after_write(store: StoreView, key: Seq<u8>, state: BackupStateView)
    ensures
        store.placed(key, state).state_of(key) == Some(state),
{
    if let BackupStateView::Error(message) = state {
        encode_utf8_valid_utf8(message);
        encode_utf8_decode_utf8(message);
    }
}

/// Moving one job leaves what the store reports for every other job as it
/// was.
pub proof fn lemma_other_jobs_unchanged(
    store: StoreView,
    key: Seq<u8>,
    other: Seq<u8>,
    state: BackupStateView,
)
    requires
        other != key,
    ensures
        store.placed(key, state).state_of(other) == store.state_of(other),
{
}

/// A finished job is only finished: after a job is moved to finished, the
/// store holds it in the finished tree alone and reports it finished, and
/// the same holds for every other stage's tree.
pub proof fn lemma_finishing_clears_other_stages(store: StoreView, key: Seq<u8>)
    ensures
        !store.placed(key, BackupStateView::Finished).pending.contains_key(key),
        !store.placed(key, BackupStateView::Finished).running.contains_key(key),
        !store.placed(key, BackupStateView::Finished).errored.contains_key(key),
        store.placed(key, BackupStateView::Finished).finished.contains_key(key),
        store.placed(key, BackupStateView::Finished).state_of(key) == Some(
            BackupStateView::Finished,
        ),
{
}

/// The last move wins: moving a job twice is the same as moving it straight
/// to the second stage.
pub proof fn lemma_last_write_wins(
    store: StoreView,
    key: Seq<u8>,
    first: BackupStateView,
    second: BackupStateView,
)
    ensures
        store.placed(key, first).placed(key, second) == store.placed(key, second),
{
    assert(store.placed(key, first).placed(key, second) =~= store.placed(key, second));
}

/// Moving a job keeps every key in at most one tree, and leaves the moved
/// job in exactly the tree of its new stage.
pub proof fn lemma_moves_keep_trees_exclusive(
    store: StoreView,
    key: Seq<u8>,
    state: BackupStateView,
)
    requires
        store.exclusive(),
    ensures
        store.placed(key, state).exclusive(),
        store.placed(key, state).pending.contains_key(key) <==> state is Pending,
        store.placed(key, state).running.contains_key(key) <==> state is Running,
        store.placed(key, state).errored.contains_key(key) <==> state is Error,
        store.placed(key, state).finished.contains_key(key) <==> state is Finished,
{
    let s = store.placed(key, state);
    assert(s.pending.dom().disjoint(s.running.dom()));
    assert(s.pending.dom().disjoint(s.errored.dom()));
    assert(s.pending.dom().disjoint(s.finished.dom()));
    assert(s.running.dom().disjoint(s.errored.dom()));
    assert(s.running.dom().disjoint(s.finished.dom()));
    assert(s.errored.dom().disjoint(s.finished.dom()));
}

} // verus!
