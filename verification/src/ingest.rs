//! The multipart ingest loop's decisions.
//!
//! The runtime pulls fields out of one multipart request body; this module
//! decides, for each outcome of that pull, whether to hand the field to an
//! independent upload task, abort the request as malformed client input, or
//! finish with the redirect home. A single field's eventual upload failure
//! never fails the request; only malformed input does.
//!
//! [`run_fields`] executes one request's worth of uploads against the store
//! models and proves that the generated ids of the request's fields are
//! pairwise distinct, whatever each field's later fate.

use vstd::prelude::*;
use crate::blob::BlobStore;
use crate::blob::copy_bytes;
use crate::meta::MetaStore;
use crate::upload::UploadFaults;
use crate::upload::UploadOutcome;
use crate::upload::pair_ok;
use crate::upload::run_upload;

verus! {

/// Malformed client input, surfaced synchronously as a bad request.
#[derive(Clone, Copy, Debug, PartialEq, Eq, Structural)]
pub enum ClientInputError {
    /// A field arrived without a declared content type.
    MissingContentType,
    /// A field's bytes could not be read.
    UnreadableBody,
    /// The multipart stream itself broke or lost its framing.
    MalformedMultipart,
}

/// The boundary that multipart parsing extracts from a content type
/// header: present exactly when the header names `multipart/form-data`
/// and carries a `boundary` parameter.
pub uninterp spec fn boundary_of(header: Seq<char>) -> Option<Seq<char>>;

/// Relies on multer::parse_boundary: the result is a function of the
/// header text alone — it parses the text as a mime type and extracts the
/// `boundary` parameter of `multipart/form-data`, failing on anything
/// else.
#[verifier::external_body]
fn parse_boundary_text(header: &str) -> (r: Option<String>)
    ensures
        r matches Some(b) ==> boundary_of(header@) == Some(b@),
        r is None ==> boundary_of(header@) is None,
{
    multer::parse_boundary(header).ok()
}

/// How one upload request opens: with the boundary to parse fields by, or
/// rejected as malformed client input.
#[derive(Debug, PartialEq)]
pub enum RequestStart {
    /// Parse the body against this boundary.
    Proceed { boundary: String },
    /// No usable multipart boundary: answer bad request at once.
    Reject { error: ClientInputError },
}

/// Decides how an upload request opens: a missing content type header, or
/// one that multipart parsing finds no boundary in, rejects the request
/// before any field is read.
pub fn open_request(header: Option<&str>) -> (r: RequestStart)
    ensures
        ({
            match header {
                Some(h) => match boundary_of(h@) {
                    Some(b) => r matches RequestStart::Proceed { boundary } && boundary@ == b,
                    None => r == (RequestStart::Reject {
                        error: ClientInputError::MalformedMultipart,
                    }),
                },
                None => r == (RequestStart::Reject {
                    error: ClientInputError::MissingContentType,
                }),
            }
        }),
{
    match header {
        Some(h) => match parse_boundary_text(h) {
            Some(boundary) => RequestStart::Proceed { boundary },
            None => RequestStart::Reject { error: ClientInputError::MalformedMultipart },
        },
        None => RequestStart::Reject { error: ClientInputError::MissingContentType },
    }
}

/// What pulling the next multipart field out of the request came back with.
#[derive(Debug, PartialEq)]
pub enum FieldOutcome {
    /// A field, with its declared content type if it had one and its fully
    /// buffered bytes if they could be read.
    Field { content_type: Option<String>, bytes: Option<Vec<u8>> },
    /// The stream ended cleanly: no more fields.
    End,
    /// The stream broke.
    StreamError,
}

/// The ingest loop's response to one field outcome.
#[derive(Debug, PartialEq)]
pub enum IngestAction {
    /// Hand the field to an independent upload task and keep going.
    Spawn { content_type: String, bytes: Vec<u8> },
    /// Stop at once and answer with this client error.
    Abort { error: ClientInputError },
    /// All fields seen: answer with the redirect home.
    Finish,
}

/// The decision owed for one field outcome.
pub open spec fn spec_ingest_action(f: FieldOutcome) -> IngestAction {
    match f {
        FieldOutcome::Field { content_type, bytes } => match (content_type, bytes) {
            (Some(ct), Some(bs)) => IngestAction::Spawn { content_type: ct, bytes: bs },
            (None, _) => IngestAction::Abort { error: ClientInputError::MissingContentType },
            (Some(_), None) => IngestAction::Abort { error: ClientInputError::UnreadableBody },
        },
        FieldOutcome::End => IngestAction::Finish,
        FieldOutcome::StreamError => IngestAction::Abort {
            error: ClientInputError::MalformedMultipart,
        },
    }
}

/// Decides what the ingest loop does with one field outcome: a complete
/// field is spawned as its own upload task, a field without a content type
/// or without readable bytes aborts the request, a clean end finishes it.
pub fn ingest_step(f: FieldOutcome) -> (a: IngestAction)
    ensures
        a == spec_ingest_action(f),
{
    match f {
        FieldOutcome::Field { content_type, bytes } => match (content_type, bytes) {
            (Some(ct), Some(bs)) => IngestAction::Spawn { content_type: ct, bytes: bs },
            (None, _) => IngestAction::Abort { error: ClientInputError::MissingContentType },
            (Some(_), None) => IngestAction::Abort { error: ClientInputError::UnreadableBody },
        },
        FieldOutcome::End => IngestAction::Finish,
        FieldOutcome::StreamError => IngestAction::Abort {
            error: ClientInputError::MalformedMultipart,
        },
    }
}

/// The id an upload attempt reserved, if its reservation committed.
pub open spec fn outcome_id(o: UploadOutcome) -> Option<u64> {
    match o {
        UploadOutcome::Stored { id } => Some(id),
        UploadOutcome::ReserveFailed => None,
        UploadOutcome::RolledBack { id } => Some(id),
        UploadOutcome::ReconciliationFailed { id } => Some(id),
    }
}

/// Runs one upload attempt per field of a request against the stores, as
/// the ingest loop dispatches them. Every field whose reservation committed
/// got its own generated id, and those ids are pairwise distinct, whatever
/// each attempt's later fate and in whatever order the attempts finished.
pub fn run_fields(
    meta: &mut MetaStore,
    blobs: &mut BlobStore,
    fields: &Vec<(String, Vec<u8>)>,
    faults: &Vec<UploadFaults>,
) -> (outcomes: Vec<UploadOutcome>)
    requires
        old(meta)@.wf(),
        old(blobs).wf(),
        pair_ok(old(meta)@, old(blobs)@),
        faults@.len() == fields@.len(),
        old(meta)@.next_id + fields@.len() <= u64::MAX,
    ensures
        final(meta)@.wf(),
        final(blobs).wf(),
        pair_ok(final(meta)@, final(blobs)@),
        outcomes@.len() == fields@.len(),
        forall|k: int|
            0 <= k < outcomes@.len() ==> (outcome_id(#[trigger] outcomes@[k]) is Some
                <==> !faults@[k].reserve_fails),
        forall|a: int, b: int|
            0 <= a < b < outcomes@.len() && outcome_id(outcomes@[a]) is Some && outcome_id(
                outcomes@[b],
            ) is Some ==> outcome_id(outcomes@[a]) != outcome_id(outcomes@[b]),
{
    let mut outcomes: Vec<UploadOutcome> = Vec::new();
    let mut i: usize = 0;
    while i < fields.len()
        invariant
            meta@.wf(),
            blobs.wf(),
            pair_ok(meta@, blobs@),
            faults@.len() == fields@.len(),
            i <= fields@.len(),
            outcomes@.len() == i,
            meta@.next_id + (fields@.len() - i) <= u64::MAX,
            forall|k: int|
                0 <= k < i ==> (outcome_id(#[trigger] outcomes@[k]) is Some
                    <==> !faults@[k].reserve_fails),
            forall|k: int|
                0 <= k < i ==> (outcome_id(#[trigger] outcomes@[k]) matches Some(x) ==> x
                    < meta@.next_id),
            forall|a: int, b: int|
                0 <= a < b < i && outcome_id(outcomes@[a]) is Some && outcome_id(
                    outcomes@[b],
                ) is Some ==> outcome_id(outcomes@[a]) != outcome_id(outcomes@[b]),
        decreases fields@.len() - i,
    {
        let pair = &fields[i];
        let ct = pair.0.clone();
        let bs = copy_bytes(&pair.1);
        let o = run_upload(meta, blobs, ct, bs, faults[i]);
        outcomes.push(o);
        i = i + 1;
    }
    outcomes
}

} // verus!
