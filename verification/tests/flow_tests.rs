//! The upload saga, the replace transaction and the ingest loop against
//! the store models.

use image_annotation::annotation::Annotation;
use image_annotation::annotation::AnnotationGroup;
use image_annotation::blob::BlobStore;
use image_annotation::blob::FetchOutcome;
use image_annotation::ingest::ingest_step;
use image_annotation::ingest::open_request;
use image_annotation::ingest::RequestStart;
use image_annotation::ingest::run_fields;
use image_annotation::ingest::ClientInputError;
use image_annotation::ingest::FieldOutcome;
use image_annotation::ingest::IngestAction;
use image_annotation::meta::DimRow;
use image_annotation::meta::MetaStore;
use image_annotation::replace::run_replace;
use image_annotation::upload::run_upload;
use image_annotation::upload::saga_action;
use image_annotation::upload::saga_start;
use image_annotation::upload::saga_step;
use image_annotation::upload::SagaAction;
use image_annotation::upload::SagaState;
use image_annotation::upload::StoreEvent;
use image_annotation::upload::UploadFaults;
use image_annotation::upload::UploadOutcome;

fn ann(x1: &str, y1: &str, x2: &str, y2: &str) -> Annotation {
    Annotation {
        x1: x1.to_string(),
        y1: y1.to_string(),
        x2: x2.to_string(),
        y2: y2.to_string(),
    }
}

fn group(coords: &[(&str, &str, &str, &str)], width: u64, height: u64) -> AnnotationGroup {
    AnnotationGroup {
        annotations: coords.iter().map(|&(a, b, c, d)| ann(a, b, c, d)).collect(),
        width,
        height,
    }
}

#[test]
fn upload_success_stores_row_and_blob() {
    let mut meta = MetaStore::new();
    let mut blobs = BlobStore::new();
    let outcome = run_upload(
        &mut meta,
        &mut blobs,
        "image/png".to_string(),
        vec![1, 2, 3],
        UploadFaults::none(),
    );
    assert_eq!(outcome, UploadOutcome::Stored { id: 1 });
    assert_eq!(meta.images, vec![1]);
    match blobs.get(1) {
        FetchOutcome::Found { content_type, bytes } => {
            assert_eq!(content_type, "image/png");
            assert_eq!(bytes, vec![1, 2, 3]);
        }
        FetchOutcome::NotFound => panic!("blob missing after successful upload"),
    }
    assert_eq!(blobs.entries.len(), 1);
    assert_eq!(blobs.entries[0].key, "image-1");
}

#[test]
fn upload_blob_failure_rolls_back_row() {
    let mut meta = MetaStore::new();
    let mut blobs = BlobStore::new();
    let faults = UploadFaults { reserve_fails: false, put_fails: true, delete_fails: false };
    let outcome = run_upload(
        &mut meta,
        &mut blobs,
        "image/png".to_string(),
        vec![9],
        faults,
    );
    assert_eq!(outcome, UploadOutcome::RolledBack { id: 1 });
    assert!(meta.images.is_empty());
    assert_eq!(blobs.get(1), FetchOutcome::NotFound);
}

#[test]
fn upload_blob_and_delete_failure_surfaces_orphan() {
    let mut meta = MetaStore::new();
    let mut blobs = BlobStore::new();
    let faults = UploadFaults { reserve_fails: false, put_fails: true, delete_fails: true };
    let outcome = run_upload(
        &mut meta,
        &mut blobs,
        "image/png".to_string(),
        vec![9],
        faults,
    );
    assert_eq!(outcome, UploadOutcome::ReconciliationFailed { id: 1 });
    assert_eq!(meta.images, vec![1]);
    assert_eq!(blobs.get(1), FetchOutcome::NotFound);
}

#[test]
fn upload_reserve_failure_leaves_no_trace() {
    let mut meta = MetaStore::new();
    let mut blobs = BlobStore::new();
    let faults = UploadFaults { reserve_fails: true, put_fails: false, delete_fails: false };
    let outcome = run_upload(
        &mut meta,
        &mut blobs,
        "image/png".to_string(),
        vec![],
        faults,
    );
    assert_eq!(outcome, UploadOutcome::ReserveFailed);
    assert!(meta.images.is_empty());
    assert!(blobs.entries.is_empty());
}

#[test]
fn upload_of_empty_payload_is_accepted() {
    let mut meta = MetaStore::new();
    let mut blobs = BlobStore::new();
    let outcome = run_upload(
        &mut meta,
        &mut blobs,
        "image/png".to_string(),
        vec![],
        UploadFaults::none(),
    );
    assert_eq!(outcome, UploadOutcome::Stored { id: 1 });
    match blobs.get(1) {
        FetchOutcome::Found { content_type, bytes } => {
            assert_eq!(content_type, "image/png");
            assert!(bytes.is_empty());
        }
        FetchOutcome::NotFound => panic!("blob missing after successful upload"),
    }
}

#[test]
fn fetch_of_rolled_back_id_finds_nothing() {
    let mut meta = MetaStore::new();
    let mut blobs = BlobStore::new();
    let faults = UploadFaults { reserve_fails: false, put_fails: true, delete_fails: false };
    run_upload(&mut meta, &mut blobs, "image/gif".to_string(), vec![7, 7], faults);
    assert_eq!(blobs.get(1), FetchOutcome::NotFound);
    let outcome = run_upload(
        &mut meta,
        &mut blobs,
        "image/gif".to_string(),
        vec![8],
        UploadFaults::none(),
    );
    assert_eq!(outcome, UploadOutcome::Stored { id: 2 });
    assert_eq!(blobs.get(1), FetchOutcome::NotFound);
}

#[test]
fn replace_with_empty_payload_clears_only_that_image() {
    let mut meta = MetaStore::new();
    meta.reserve();
    meta.reserve();
    run_replace(&mut meta, 1, &group(&[("0", "0", "1", "1")], 10, 10), false).unwrap();
    run_replace(&mut meta, 2, &group(&[("5", "5", "6", "6")], 10, 10), false).unwrap();
    run_replace(&mut meta, 1, &group(&[], 10, 10), false).unwrap();
    assert!(meta.annotations_for(1).is_empty());
    assert_eq!(meta.annotations_for(2), vec![ann("5", "5", "6", "6")]);
}

#[test]
fn replace_twice_keeps_only_second_payload() {
    let mut meta = MetaStore::new();
    meta.reserve();
    run_replace(&mut meta, 1, &group(&[("0", "0", "1", "1"), ("1", "1", "2", "2")], 10, 10), false)
        .unwrap();
    run_replace(&mut meta, 1, &group(&[("3", "3", "4", "4")], 10, 10), false).unwrap();
    assert_eq!(meta.annotations_for(1), vec![ann("3", "3", "4", "4")]);
}

#[test]
fn replace_failure_rolls_back_exactly() {
    let mut meta = MetaStore::new();
    meta.reserve();
    run_replace(&mut meta, 1, &group(&[("0", "0", "1", "1")], 10, 10), false).unwrap();
    let dims_before = meta.dimensions.clone();
    let result = run_replace(&mut meta, 1, &group(&[("2", "2", "3", "3")], 20, 20), true);
    assert!(result.is_err());
    assert_eq!(meta.annotations_for(1), vec![ann("0", "0", "1", "1")]);
    assert_eq!(meta.dimensions, dims_before);
}

#[test]
fn dimensions_rows_accumulate() {
    let mut meta = MetaStore::new();
    meta.reserve();
    run_replace(&mut meta, 1, &group(&[("0", "0", "1", "1")], 640, 480), false).unwrap();
    run_replace(&mut meta, 1, &group(&[("0", "0", "1", "1")], 800, 600), false).unwrap();
    assert_eq!(
        meta.dimensions,
        vec![
            DimRow { image: 1, width: 640, height: 480 },
            DimRow { image: 1, width: 800, height: 600 },
        ]
    );
}

#[test]
fn concurrent_fields_get_distinct_ids() {
    let mut meta = MetaStore::new();
    let mut blobs = BlobStore::new();
    let fields = vec![
        ("image/png".to_string(), vec![1u8]),
        ("image/jpeg".to_string(), vec![2u8]),
        ("image/gif".to_string(), vec![3u8]),
    ];
    let faults = vec![
        UploadFaults::none(),
        UploadFaults { reserve_fails: false, put_fails: true, delete_fails: false },
        UploadFaults::none(),
    ];
    let outcomes = run_fields(&mut meta, &mut blobs, &fields, &faults);
    assert_eq!(
        outcomes,
        vec![
            UploadOutcome::Stored { id: 1 },
            UploadOutcome::RolledBack { id: 2 },
            UploadOutcome::Stored { id: 3 },
        ]
    );
    assert_eq!(meta.images, vec![1, 3]);
}

#[test]
fn ingest_decisions() {
    let spawned = ingest_step(FieldOutcome::Field {
        content_type: Some("image/png".to_string()),
        bytes: Some(vec![1]),
    });
    assert_eq!(
        spawned,
        IngestAction::Spawn { content_type: "image/png".to_string(), bytes: vec![1] }
    );
    assert_eq!(
        ingest_step(FieldOutcome::Field { content_type: None, bytes: Some(vec![1]) }),
        IngestAction::Abort { error: ClientInputError::MissingContentType }
    );
    assert_eq!(
        ingest_step(FieldOutcome::Field {
            content_type: Some("image/png".to_string()),
            bytes: None,
        }),
        IngestAction::Abort { error: ClientInputError::UnreadableBody }
    );
    assert_eq!(ingest_step(FieldOutcome::End), IngestAction::Finish);
    assert_eq!(
        ingest_step(FieldOutcome::StreamError),
        IngestAction::Abort { error: ClientInputError::MalformedMultipart }
    );
}

#[test]
fn request_opens_only_with_a_multipart_boundary() {
    assert_eq!(
        open_request(Some("multipart/form-data; boundary=ABCDEFG")),
        RequestStart::Proceed { boundary: "ABCDEFG".to_string() }
    );
    assert_eq!(
        open_request(Some("text/plain")),
        RequestStart::Reject { error: ClientInputError::MalformedMultipart }
    );
    assert_eq!(
        open_request(Some("multipart/form-data")),
        RequestStart::Reject { error: ClientInputError::MalformedMultipart }
    );
    assert_eq!(
        open_request(None),
        RequestStart::Reject { error: ClientInputError::MissingContentType }
    );
}

#[test]
fn saga_walks_the_failure_path() {
    let s0 = saga_start();
    assert_eq!(saga_action(&s0), SagaAction::Reserve);
    let s1 = saga_step(&s0, &StoreEvent::ReserveOk { id: 5 });
    assert_eq!(saga_action(&s1), SagaAction::StoreBlob { id: 5 });
    let s2 = saga_step(&s1, &StoreEvent::PutFailed);
    assert_eq!(saga_action(&s2), SagaAction::DeleteRow { id: 5 });
    let s3 = saga_step(&s2, &StoreEvent::DeleteOk);
    assert_eq!(
        saga_action(&s3),
        SagaAction::Done { outcome: UploadOutcome::RolledBack { id: 5 } }
    );
    let s4 = saga_step(&s3, &StoreEvent::PutOk);
    assert_eq!(s4, s3);
}

#[test]
fn saga_walks_the_success_path() {
    let s0 = saga_start();
    let s1 = saga_step(&s0, &StoreEvent::ReserveOk { id: 2 });
    let s2 = saga_step(&s1, &StoreEvent::PutOk);
    assert_eq!(s2, SagaState::Finished { outcome: UploadOutcome::Stored { id: 2 } });
    let failed = saga_step(&s0, &StoreEvent::ReserveFailed);
    assert_eq!(failed, SagaState::Finished { outcome: UploadOutcome::ReserveFailed });
}

#[test]
fn unannotated_pool_shrinks_as_images_are_annotated() {
    let mut meta = MetaStore::new();
    meta.reserve();
    meta.reserve();
    assert_eq!(meta.unannotated_images(), vec![1, 2]);
    run_replace(&mut meta, 1, &group(&[("0", "0", "1", "1")], 10, 10), false).unwrap();
    assert_eq!(meta.unannotated_images(), vec![2]);
    run_replace(&mut meta, 1, &group(&[], 10, 10), false).unwrap();
    assert_eq!(meta.unannotated_images(), vec![1, 2]);
}
