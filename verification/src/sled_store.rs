//! The parts of `sled` that the backup store uses: its types, names for a
//! tree's name and for what a write batch holds, and the calls into it.
//!
//! A `sled::Tree` is a shared handle: every handle to a tree sees every
//! write to it, whoever makes it. So nothing here treats what a tree holds as
//! a property of a handle; a read is a result that sled's storage decides.

use sled::Transactional;
use crate::backup::moves_one_job;
use vstd::prelude::*;
use vstd::utf8::encode_utf8;

verus! {

#[verifier::external_type_specification]
#[verifier::external_body]
pub struct ExDb(sled::Db);

#[verifier::external_type_specification]
#[verifier::external_body]
pub struct ExTree(sled::Tree);

#[verifier::external_type_specification]
#[verifier::external_body]
pub struct ExBatch(sled::Batch);

#[verifier::external_type_specification]
#[verifier::external_body]
pub struct ExError(sled::Error);

#[verifier::external_type_specification]
#[verifier::external_body]
pub struct ExTransactionalTree(sled::transaction::TransactionalTree);

#[verifier::external_type_specification]
#[verifier::external_body]
pub struct ExUnabortableTransactionError(sled::transaction::UnabortableTransactionError);

#[verifier::external_type_specification]
#[verifier::external_body]
#[verifier::reject_recursive_types(T)]
pub struct ExConflictableTransactionError<T>(sled::transaction::ConflictableTransactionError<T>);

#[verifier::external_type_specification]
#[verifier::external_body]
#[verifier::reject_recursive_types(T)]
pub struct ExTransactionError<T>(sled::transaction::TransactionError<T>);

/// The name of the tree that a handle refers to, fixed when the tree is
/// opened (`sled::Tree::name`). Within one database, trees with different
/// names are different trees.
pub uninterp spec fn tree_name(tree: sled::Tree) -> Seq<u8>;

/// Whether the batch's writes have been staged on the transaction overlay
/// during the transaction it belongs to (by
/// `sled::transaction::TransactionalTree::apply_batch`). Staging only adds to
/// an overlay, so once this holds of an overlay it holds for the rest of its
/// transaction.
pub uninterp spec fn overlay_received(
    overlay: sled::transaction::TransactionalTree,
    batch: sled::Batch,
) -> bool;

/// The writes that a sled batch holds: for each key it touches, the value it
/// sets (`Some`) or a removal (`None`).
pub uninterp spec fn batch_writes(batch: sled::Batch) -> Map<Seq<u8>, Option<Seq<u8>>>;

/// The entries of a tree after a batch of writes is applied to it: a key the
/// batch touches holds what the batch wrote (or is gone), any other key keeps
/// its old entry.
pub open spec fn apply_writes(
    entries: Map<Seq<u8>, Seq<u8>>,
    writes: Map<Seq<u8>, Option<Seq<u8>>>,
) -> Map<Seq<u8>, Seq<u8>> {
    Map::new(
        |k: Seq<u8>|
            if writes.contains_key(k) {
                writes[k] is Some
            } else {
                entries.contains_key(k)
            },
        |k: Seq<u8>|
            if writes.contains_key(k) {
                writes[k]->Some_0
            } else {
                entries[k]
            },
    )
}

/// One batch of writes for each of the four trees of a backup store.
pub struct StoreWrites {
    pub pending: sled::Batch,
    pub running: sled::Batch,
    pub errored: sled::Batch,
    pub finished: sled::Batch,
}

/// Opens the tree called `name` (its UTF-8 bytes) in `db`
/// (`sled::Db::open_tree`): the database's tree of that name, shared with
/// every other handle to it, or a new empty tree when the database has none
/// of that name. Either way the tree's name is `name`. Whether the call
/// fails is up to sled's storage.
#[verifier::external_body]
pub(crate) fn open_tree(db: &sled::Db, name: &str) -> (result: Result<sled::Tree, sled::Error>)
    ensures
        result matches Ok(tree) ==> tree_name(tree) == encode_utf8(name@),
{
    db.open_tree(name)
}

/// Reads the value stored under `key` (`sled::Tree::get`). What it finds is
/// what the tree holds at the time of the read, which any handle to the tree
/// may have changed, so nothing is claimed of it.
#[verifier::external_body]
pub(crate) fn tree_get(tree: &sled::Tree, key: &[u8; 16]) -> (result: Result<
    Option<Vec<u8>>,
    sled::Error,
>) {
    match tree.get(key) {
        Ok(Some(v)) => Ok(Some(v.to_vec())),
        Ok(None) => Ok(None),
        Err(e) => Err(e),
    }
}

/// An empty batch (`sled::Batch::default`).
#[verifier::external_body]
pub(crate) fn new_batch() -> (fresh: sled::Batch)
    ensures
        batch_writes(fresh) =~= Map::empty(),
{
    sled::Batch::default()
}

/// Records in the batch that `key` is set to `value` (`sled::Batch::insert`);
/// a later write of the same key replaces an earlier one.
#[verifier::external_body]
pub(crate) fn batch_insert(batch: &mut sled::Batch, key: &[u8; 16], value: &[u8])
    ensures
        batch_writes(*final(batch)) == batch_writes(*old(batch)).insert(key@, Some(value@)),
{
    batch.insert(&key[..], value)
}

/// Records in the batch that `key` is removed (`sled::Batch::remove`).
#[verifier::external_body]
pub(crate) fn batch_remove(batch: &mut sled::Batch, key: &[u8; 16])
    ensures
        batch_writes(*final(batch)) == batch_writes(*old(batch)).insert(key@, None),
{
    batch.remove(&key[..])
}

/// Stages a batch inside a running transaction
/// (`sled::transaction::TransactionalTree::apply_batch`): when it succeeds
/// the overlay has received the batch's writes. What it stages reaches the
/// tree only if the transaction commits.
#[verifier::external_body]
pub(crate) fn stage_batch(
    tree: &sled::transaction::TransactionalTree,
    batch: &sled::Batch,
) -> (result: Result<(), sled::transaction::UnabortableTransactionError>)
    ensures
        result is Ok ==> overlay_received(*tree, *batch),
{
    tree.apply_batch(batch)
}

/// The error a transaction closure hands back for a failed staging step
/// (`From<UnabortableTransactionError> for ConflictableTransactionError`).
#[verifier::external_body]
pub(crate) fn into_conflictable(
    error: sled::transaction::UnabortableTransactionError,
) -> (result: sled::transaction::ConflictableTransactionError<sled::Error>) {
    error.into()
}

/// The body of the transaction that `commit_writes` runs: it stages the four
/// batches, each on its own tree's overlay, and stops at the first failure.
/// When it succeeds, every overlay has received its batch.
fn stage_all(
    views: &(
        sled::transaction::TransactionalTree,
        sled::transaction::TransactionalTree,
        sled::transaction::TransactionalTree,
        sled::transaction::TransactionalTree,
    ),
    writes: &StoreWrites,
) -> (result: Result<(), sled::transaction::ConflictableTransactionError<sled::Error>>)
    ensures
        result is Ok ==> {
            &&& overlay_received(views.0, writes.pending)
            &&& overlay_received(views.1, writes.running)
            &&& overlay_received(views.2, writes.errored)
            &&& overlay_received(views.3, writes.finished)
        },
{
    match stage_batch(&views.0, &writes.pending) {
        Ok(()) => {},
        Err(e) => {
            return Err(into_conflictable(e));
        },
    }
    match stage_batch(&views.1, &writes.running) {
        Ok(()) => {},
        Err(e) => {
            return Err(into_conflictable(e));
        },
    }
    match stage_batch(&views.2, &writes.errored) {
        Ok(()) => {},
        Err(e) => {
            return Err(into_conflictable(e));
        },
    }
    match stage_batch(&views.3, &writes.finished) {
        Ok(()) => {},
        Err(e) => {
            return Err(into_conflictable(e));
        },
    }
    Ok(())
}

/// Runs one sled transaction over the four trees
/// (`sled::Transactional::transaction` on a tuple of trees) whose body is
/// `stage_all`, so that the four batches are applied together or not at
/// all. The store only ever hands sled the move of one job to one stage
/// (`moves_one_job`), which keeps every job in at most one tree. What the
/// trees hold afterwards is up to sled and to whoever else writes them, and
/// whether the transaction succeeds is up to sled's storage, so nothing is
/// claimed of either.
#[verifier::external_body]
pub(crate) fn commit_writes(
    pending: &sled::Tree,
    running: &sled::Tree,
    errored: &sled::Tree,
    finished: &sled::Tree,
    writes: &StoreWrites,
) -> (result: Result<(), sled::transaction::TransactionError<sled::Error>>)
    requires
        moves_one_job(*writes),
{
    (pending, running, errored, finished).transaction(|views| stage_all(views, writes))
}

} // verus!
