use recipes::api::{Body, Response};
use recipes::error::StorageError;
use recipes::upload::{
    extension, finish_upload, plan_upload, post_image, UploadStep, UploadedFile, BUCKET,
    MULTIPLE_FILES, NO_CONTENT_TYPE, NO_EXTENSION, NO_FILE, NO_FILENAME, READ_FAILED,
};

const UUID: &str = "0f8fad5b-d9cb-469f-a165-70867728950e";

fn file(name: Option<&str>, content_type: Option<&str>, contents: Option<&[u8]>) -> UploadedFile {
    UploadedFile {
        file_name: name.map(|s| s.to_string()),
        content_type: content_type.map(|s| s.to_string()),
        contents: contents.map(|c| c.to_vec()),
    }
}

fn rejection(step: UploadStep) -> (u16, String) {
    match step {
        UploadStep::Respond(Response { status, body: Body::Error(m) }) => (status, m),
        _ => panic!("expected an error response"),
    }
}

#[test]
fn extension_keeps_case() {
    assert_eq!(extension("photo.JPG"), Some("JPG".to_string()));
}

#[test]
fn extension_is_last_segment() {
    assert_eq!(extension("archive.tar.gz"), Some("gz".to_string()));
    assert_eq!(extension("trailing."), Some(String::new()));
    assert_eq!(extension(".hidden"), Some("hidden".to_string()));
}

#[test]
fn extension_absent_without_dot() {
    assert_eq!(extension("noext"), None);
    assert_eq!(extension(""), None);
}

#[test]
fn filename_without_extension_is_rejected() {
    let step = plan_upload(vec![file(Some("noext"), Some("image/png"), Some(b"x"))], UUID);
    assert_eq!(rejection(step), (400, NO_EXTENSION.to_string()));
}

#[test]
fn upload_without_image_field() {
    let step = plan_upload(vec![], UUID);
    assert_eq!(rejection(step), (400, "No file found in request".to_string()));
    assert_eq!(NO_FILE, "No file found in request");
}

#[test]
fn upload_with_two_files() {
    let a = file(Some("a.png"), Some("image/png"), Some(b"a"));
    let b = file(Some("b.png"), Some("image/png"), Some(b"b"));
    let step = plan_upload(vec![a, b], UUID);
    assert_eq!(rejection(step), (400, "Multiple files found in request".to_string()));
    assert_eq!(MULTIPLE_FILES, "Multiple files found in request");
}

#[test]
fn upload_missing_filename_content_type_or_bytes() {
    let s = plan_upload(vec![file(None, None, None)], UUID);
    assert_eq!(rejection(s), (400, NO_FILENAME.to_string()));
    let s = plan_upload(vec![file(Some("a.png"), None, None)], UUID);
    assert_eq!(rejection(s), (400, NO_CONTENT_TYPE.to_string()));
    let s = plan_upload(vec![file(Some("a.png"), Some("image/png"), None)], UUID);
    assert_eq!(rejection(s), (500, READ_FAILED.to_string()));
    let s = plan_upload(vec![file(Some("noext"), Some("image/png"), None)], UUID);
    assert_eq!(rejection(s), (500, "Failed to read file".to_string()));
}

#[test]
fn upload_builds_key_from_uuid_and_extension() {
    let step = plan_upload(vec![file(Some("photo.JPG"), Some("image/jpeg"), Some(b"\x01\x02"))], UUID);
    match step {
        UploadStep::Store(put, name) => {
            assert_eq!(name, format!("{}.JPG", UUID));
            assert_eq!(put.key, format!("images/{}.JPG", UUID));
            assert_eq!(put.bucket, BUCKET);
            assert_eq!(put.bucket, "recipes.elliotdavies.co.uk");
            assert_eq!(put.content_type, "image/jpeg");
            assert_eq!(put.contents, vec![1u8, 2u8]);
        }
        _ => panic!("expected an object to store"),
    }
    match plan_upload(vec![file(Some("archive.tar.gz"), Some("image/gif"), Some(b""))], UUID) {
        UploadStep::Store(put, name) => {
            assert_eq!(name, format!("{}.gz", UUID));
            assert_eq!(put.key, format!("images/{}.gz", UUID));
        }
        _ => panic!("expected an object to store"),
    }
}

#[test]
fn post_image_draws_a_fresh_uuid() {
    let a = post_image(vec![file(Some("cat.png"), Some("image/png"), Some(b"p"))]);
    let b = post_image(vec![file(Some("cat.png"), Some("image/png"), Some(b"p"))]);
    let (ka, na) = match a {
        UploadStep::Store(put, name) => (put.key, name),
        _ => panic!("expected an object to store"),
    };
    let nb = match b {
        UploadStep::Store(_, name) => name,
        _ => panic!("expected an object to store"),
    };
    assert_eq!(na.len(), 36 + ".png".len());
    assert!(na.ends_with(".png"));
    assert_eq!(&na[14..15], "4");
    assert_eq!(ka, format!("images/{}", na));
    assert_ne!(na, nb);
}

#[test]
fn post_image_rejects_before_storing() {
    assert_eq!(rejection(post_image(vec![])), (400, NO_FILE.to_string()));
}

#[test]
fn finish_upload_answers_filename_or_500() {
    match finish_upload("n.png".to_string(), Ok(())) {
        Response { status: 200, body: Body::Filename(f) } => assert_eq!(f, "n.png"),
        _ => panic!("expected 200 with the filename"),
    }
    match finish_upload("n.png".to_string(), Err(StorageError::PutFailed)) {
        Response { status: 500, body: Body::Error(m) } => assert_eq!(m, "Failed to store file"),
        _ => panic!("expected 500"),
    }
}
