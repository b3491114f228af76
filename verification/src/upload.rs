//! The upload coordinator.
//!
//! One uploaded field is stored in two places: a metadata row is reserved
//! first, so the generated id is visible at once, and the bytes are then
//! written to the blob store under the key derived from that id. Cross-store
//! atomicity is unavailable, so a failed blob write is compensated by a
//! best-effort delete of the row; a failed delete is surfaced as a distinct
//! reconciliation failure, never absorbed.
//!
//! [`run_upload`] executes the whole saga against the in-memory store
//! models and pins down the post-state for every combination of store
//! failures. The [`SagaState`] machine is the same policy factored as pure
//! decisions, for a runtime whose store calls suspend: it performs the
//! [`SagaAction`] owed in the current state and feeds the [`StoreEvent`]
//! that came back.

use vstd::prelude::*;
use crate::blob::BlobEntryView;
use crate::blob::BlobStore;
use crate::blob::blob_key_spec;
use crate::meta::MetaStore;
use crate::meta::MetaView;
use crate::meta::other_id;

verus! {

/// Every id with a stored blob was drawn from the metadata store's counter:
/// the two stores never hold a blob whose id the metadata store could
/// generate again.
pub open spec fn pair_ok(m: MetaView, b: Map<u64, BlobEntryView>) -> bool {
    forall|id: u64| #[trigger] b.contains_key(id) ==> id < m.next_id
}

/// How one upload attempt ended.
#[derive(Clone, Copy, Debug, PartialEq, Eq, Structural)]
pub enum UploadOutcome {
    /// The metadata row and the blob both exist.
    Stored { id: u64 },
    /// The reservation insert failed; nothing was written anywhere.
    ReserveFailed,
    /// The blob write failed and the compensating delete removed the row:
    /// no trace is left.
    RolledBack { id: u64 },
    /// The blob write failed and the compensating delete failed too: the
    /// row is orphaned, and this outcome surfaces that distinctly.
    ReconciliationFailed { id: u64 },
}

/// Which store calls of one upload attempt the environment fails.
#[derive(Clone, Copy, Debug, PartialEq, Eq, Structural)]
pub struct UploadFaults {
    pub reserve_fails: bool,
    pub put_fails: bool,
    pub delete_fails: bool,
}

impl UploadFaults {
    /// All store calls succeed.
    pub fn none() -> (f: UploadFaults)
        ensures
            !f.reserve_fails && !f.put_fails && !f.delete_fails,
    {
        UploadFaults { reserve_fails: false, put_fails: false, delete_fails: false }
    }
}

/// A filtered id sequence that never contained `image` is unchanged.
proof fn lemma_filter_absent(s: Seq<u64>, image: u64)
    requires
        !s.contains(image),
    ensures
        s.filter(other_id(image)) == s,
    decreases s.len(),
{
    reveal(Seq::filter);
    if s.len() > 0 {
        let d = s.drop_last();
        assert(forall|j: int| 0 <= j < d.len() ==> d[j] == s[j]);
        assert(!d.contains(image)) by {
            if d.contains(image) {
                let j = choose|j: int| 0 <= j < d.len() && d[j] == image;
                assert(s[j] == image);
            }
        }
        lemma_filter_absent(d, image);
        assert(s.last() != image) by {
            if s.last() == image {
                assert(s[s.len() - 1] == image);
            }
        }
        assert(other_id(image)(s.last()));
        assert(s.filter(other_id(image)) =~= s);
    } else {
        assert(s.filter(other_id(image)) =~= s);
    }
}

/// Runs one whole upload attempt against the stores: reserve, then write
/// the blob, then reconcile a failed write with a best-effort delete. The
/// clauses pin the post-state of both stores for every combination of
/// store failures.
pub fn run_upload(
    meta: &mut MetaStore,
    blobs: &mut BlobStore,
    content_type: String,
    bytes: Vec<u8>,
    faults: UploadFaults,
) -> (r: UploadOutcome)
    requires
        old(meta)@.wf(),
        old(blobs).wf(),
        pair_ok(old(meta)@, old(blobs)@),
        old(meta)@.next_id < u64::MAX,
    ensures
        final(meta)@.wf(),
        final(blobs).wf(),
        pair_ok(final(meta)@, final(blobs)@),
        final(meta)@.annotations == old(meta)@.annotations,
        final(meta)@.dimensions == old(meta)@.dimensions,
        faults.reserve_fails ==> r == UploadOutcome::ReserveFailed && final(meta)@ == old(meta)@
            && final(blobs)@ == old(blobs)@,
        !faults.reserve_fails ==> final(meta)@.next_id == old(meta)@.next_id + 1,
        !faults.reserve_fails && !faults.put_fails ==> r == (UploadOutcome::Stored {
            id: old(meta)@.next_id,
        }) && final(meta)@.images == old(meta)@.images.push(old(meta)@.next_id)
            && final(blobs)@ == old(blobs)@.insert(
            old(meta)@.next_id,
            BlobEntryView {
                key: blob_key_spec(old(meta)@.next_id),
                content_type: content_type@,
                bytes: bytes@,
            },
        ),
        !faults.reserve_fails && faults.put_fails ==> final(blobs)@ == old(blobs)@,
        !faults.reserve_fails && faults.put_fails && !faults.delete_fails ==> r
            == (UploadOutcome::RolledBack { id: old(meta)@.next_id }) && final(meta)@.images
            == old(meta)@.images,
        !faults.reserve_fails && faults.put_fails && faults.delete_fails ==> r
            == (UploadOutcome::ReconciliationFailed { id: old(meta)@.next_id })
            && final(meta)@.images == old(meta)@.images.push(old(meta)@.next_id),
{
    if faults.reserve_fails {
        return UploadOutcome::ReserveFailed;
    }
    let id = meta.reserve();
    if faults.put_fails {
        if faults.delete_fails {
            return UploadOutcome::ReconciliationFailed { id };
        }
        proof {
            reveal(Seq::filter);
            let pushed = old(meta)@.images.push(id);
            assert(pushed.drop_last() =~= old(meta)@.images);
            assert(pushed.last() == id);
            assert(!other_id(id)(id));
            lemma_filter_absent(old(meta)@.images, id);
        }
        meta.delete_image(id);
        return UploadOutcome::RolledBack { id };
    }
    proof {
        assert(!old(blobs)@.contains_key(id));
    }
    blobs.put(id, content_type, bytes);
    UploadOutcome::Stored { id }
}

/// What the coordinator asks the runtime to do next.
#[derive(Clone, Copy, Debug, PartialEq, Eq, Structural)]
pub enum SagaAction {
    /// Insert the default image row, reporting the generated id.
    Reserve,
    /// Write the buffered bytes under the key of `id`.
    StoreBlob { id: u64 },
    /// Delete the image row of `id`.
    DeleteRow { id: u64 },
    /// Nothing is left to do.
    Done { outcome: UploadOutcome },
}

/// What one store call came back with.
#[derive(Clone, Copy, Debug, PartialEq, Eq, Structural)]
pub enum StoreEvent {
    ReserveOk { id: u64 },
    ReserveFailed,
    PutOk,
    PutFailed,
    DeleteOk,
    DeleteFailed,
}

/// The coordinator's position inside one upload attempt.
#[derive(Clone, Copy, Debug, PartialEq, Eq, Structural)]
pub enum SagaState {
    AwaitingReserve,
    AwaitingPut { id: u64 },
    AwaitingDelete { id: u64 },
    Finished { outcome: UploadOutcome },
}

/// The action owed in each position.
pub open spec fn spec_saga_action(s: SagaState) -> SagaAction {
    match s {
        SagaState::AwaitingReserve => SagaAction::Reserve,
        SagaState::AwaitingPut { id } => SagaAction::StoreBlob { id },
        SagaState::AwaitingDelete { id } => SagaAction::DeleteRow { id },
        SagaState::Finished { outcome } => SagaAction::Done { outcome },
    }
}

/// The transition table. The reservation commits strictly before the blob
/// write begins; the delete is reachable only after a failed write; a
/// finished attempt stays finished. An event that does not answer the
/// current position changes nothing.
pub open spec fn spec_saga_next(s: SagaState, e: StoreEvent) -> SagaState {
    match (s, e) {
        (SagaState::AwaitingReserve, StoreEvent::ReserveOk { id }) => SagaState::AwaitingPut { id },
        (SagaState::AwaitingReserve, StoreEvent::ReserveFailed) => SagaState::Finished {
            outcome: UploadOutcome::ReserveFailed,
        },
        (SagaState::AwaitingPut { id }, StoreEvent::PutOk) => SagaState::Finished {
            outcome: UploadOutcome::Stored { id },
        },
        (SagaState::AwaitingPut { id }, StoreEvent::PutFailed) => SagaState::AwaitingDelete { id },
        (SagaState::AwaitingDelete { id }, StoreEvent::DeleteOk) => SagaState::Finished {
            outcome: UploadOutcome::RolledBack { id },
        },
        (SagaState::AwaitingDelete { id }, StoreEvent::DeleteFailed) => SagaState::Finished {
            outcome: UploadOutcome::ReconciliationFailed { id },
        },
        (_, _) => s,
    }
}

/// The position a fresh upload attempt starts in.
pub fn saga_start() -> (s: SagaState)
    ensures
        s == SagaState::AwaitingReserve,
{
    SagaState::AwaitingReserve
}

/// The action owed in the current position.
pub fn saga_action(s: &SagaState) -> (a: SagaAction)
    ensures
        a == spec_saga_action(*s),
{
    match *s {
        SagaState::AwaitingReserve => SagaAction::Reserve,
        SagaState::AwaitingPut { id } => SagaAction::StoreBlob { id },
        SagaState::AwaitingDelete { id } => SagaAction::DeleteRow { id },
        SagaState::Finished { outcome } => SagaAction::Done { outcome },
    }
}

/// Advances the attempt by one store event.
pub fn saga_step(s: &SagaState, e: &StoreEvent) -> (n: SagaState)
    ensures
        n == spec_saga_next(*s, *e),
{
    match (*s, *e) {
        (SagaState::AwaitingReserve, StoreEvent::ReserveOk { id }) => SagaState::AwaitingPut { id },
        (SagaState::AwaitingReserve, StoreEvent::ReserveFailed) => SagaState::Finished {
            outcome: UploadOutcome::ReserveFailed,
        },
        (SagaState::AwaitingPut { id }, StoreEvent::PutOk) => SagaState::Finished {
            outcome: UploadOutcome::Stored { id },
        },
        (SagaState::AwaitingPut { id }, StoreEvent::PutFailed) => SagaState::AwaitingDelete { id },
        (SagaState::AwaitingDelete { id }, StoreEvent::DeleteOk) => SagaState::Finished {
            outcome: UploadOutcome::RolledBack { id },
        },
        (SagaState::AwaitingDelete { id }, StoreEvent::DeleteFailed) => SagaState::Finished {
            outcome: UploadOutcome::ReconciliationFailed { id },
        },
        (_, _) => *s,
    }
}

/// After an upload attempt that never stored its blob, the blob store does
/// not hold the attempt's id: a fetch for a rolled-back id finds nothing.
pub proof fn lemma_rolled_back_blob_absent(m: MetaView, b: Map<u64, BlobEntryView>, id: u64)
    requires
        pair_ok(m, b),
        id >= m.next_id,
    ensures
        !b.contains_key(id),
{
}

} // verus!
