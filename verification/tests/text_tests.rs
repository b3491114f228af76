//! Numerals, keys, urls and the SQL batch text.

use image_annotation::annotation::Annotation;
use image_annotation::annotation::AnnotationGroup;
use image_annotation::blob::blob_key;
use image_annotation::pages::home_page;
use image_annotation::pages::image_page;
use image_annotation::pages::HomePage;
use image_annotation::sql::build_replace_batch;
use image_annotation::sql::checked_replace_batch;
use image_annotation::text::check_number_text;
use image_annotation::text::u64_to_string;

fn ann(x1: &str, y1: &str, x2: &str, y2: &str) -> Annotation {
    Annotation {
        x1: x1.to_string(),
        y1: y1.to_string(),
        x2: x2.to_string(),
        y2: y2.to_string(),
    }
}

#[test]
fn numeral_of_zero() {
    assert_eq!(u64_to_string(0), "0");
}

#[test]
fn numeral_of_many_digits() {
    assert_eq!(u64_to_string(12345), "12345");
    assert_eq!(u64_to_string(1000), "1000");
}

#[test]
fn numeral_of_max() {
    assert_eq!(u64_to_string(u64::MAX), "18446744073709551615");
}

#[test]
fn blob_key_text() {
    assert_eq!(blob_key(7), "image-7");
    assert_eq!(blob_key(0), "image-0");
    assert_eq!(blob_key(417), "image-417");
}

#[test]
fn number_texts_accepted() {
    assert!(check_number_text("0"));
    assert!(check_number_text("12.5"));
    assert!(check_number_text("-12.5"));
    assert!(check_number_text("-0.25"));
    assert!(check_number_text("1000"));
}

#[test]
fn number_texts_rejected() {
    assert!(!check_number_text(""));
    assert!(!check_number_text("-"));
    assert!(!check_number_text("12."));
    assert!(!check_number_text(".5"));
    assert!(!check_number_text("1.2.3"));
    assert!(!check_number_text("1e5"));
    assert!(!check_number_text("abc"));
    assert!(!check_number_text("--1"));
}

#[test]
fn batch_text_one_annotation() {
    let group = AnnotationGroup {
        annotations: vec![ann("0", "0", "1", "1")],
        width: 640,
        height: 480,
    };
    let batch = build_replace_batch(1, &group);
    assert_eq!(
        batch,
        "begin transaction;\
         delete from annotations where image = 1;\
         insert into annotations (image, x1, y1, x2, y2) values (1, 0, 0, 1, 1);\
         insert into dimensions (image, width, height) values (1, 640, 480);\
         commit transaction;"
    );
}

#[test]
fn batch_text_empty_payload() {
    let group = AnnotationGroup { annotations: vec![], width: 800, height: 600 };
    let batch = build_replace_batch(9, &group);
    assert_eq!(
        batch,
        "begin transaction;\
         delete from annotations where image = 9;\
         insert into dimensions (image, width, height) values (9, 800, 600);\
         commit transaction;"
    );
}

#[test]
fn batch_text_fractional_coordinates() {
    let group = AnnotationGroup {
        annotations: vec![ann("0.5", "-1.25", "10", "20.75")],
        width: 1920,
        height: 1080,
    };
    let batch = build_replace_batch(12, &group);
    assert_eq!(
        batch,
        "begin transaction;\
         delete from annotations where image = 12;\
         insert into annotations (image, x1, y1, x2, y2) values (12, 0.5, -1.25, 10, 20.75);\
         insert into dimensions (image, width, height) values (12, 1920, 1080);\
         commit transaction;"
    );
}

#[test]
fn checked_batch_refuses_malformed_coordinate() {
    let good = AnnotationGroup { annotations: vec![ann("1", "2", "3", "4")], width: 1, height: 1 };
    assert!(checked_replace_batch(5, &good).is_some());
    let bad = AnnotationGroup {
        annotations: vec![ann("1", "2", "3", "4);drop table images;--")],
        width: 1,
        height: 1,
    };
    assert!(checked_replace_batch(5, &bad).is_none());
}

#[test]
fn image_page_url() {
    let p = image_page(3);
    assert_eq!(p.id, 3);
    assert_eq!(p.url, "/api/get_image_data/3");
}

#[test]
fn home_page_choice() {
    match home_page(Some(4)) {
        HomePage::Annotate { page } => {
            assert_eq!(page.id, 4);
            assert_eq!(page.url, "/api/get_image_data/4");
        }
        HomePage::NoImagesYet => panic!("expected an image page"),
    }
    assert!(matches!(home_page(None), HomePage::NoImagesYet));
}
