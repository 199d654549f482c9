use std::path::PathBuf;

use qrsync::error::{ModeError, QrSyncError};
use qrsync::reference::{encode_reference, ReferenceError};
use qrsync::routes::Page;
use qrsync::session::{content_disposition, DownloadReply, State};

#[test]
fn download_of_selected_file_with_its_reference_is_served() {
    let state = State::new(Some("photo.jpg".to_string()), PathBuf::from("/tmp"));
    let reference = encode_reference("photo.jpg");
    assert_eq!(state.download_file(&reference), Ok("photo.jpg".to_string()));
    assert_eq!(state.root_dir(), &PathBuf::from("/tmp"));
}

#[test]
fn download_of_another_file_is_refused() {
    let state = State::new(Some("photo.jpg".to_string()), PathBuf::from("/tmp"));
    let reference = encode_reference("../etc/passwd");
    assert_eq!(state.download_file(&reference), Err(QrSyncError::Mode(ModeError::Mismatch)));
    assert_eq!(
        state.download_file("not base64!"),
        Err(QrSyncError::Reference(ReferenceError::Malformed))
    );
    assert_eq!(state.download_file("_w"), Err(QrSyncError::Reference(ReferenceError::NotUtf8)));
}

#[test]
fn download_in_receive_mode_always_fails() {
    let state = State::new(None, PathBuf::from("."));
    for reference in ["YS1maWxl", "", "!!!", "_w"] {
        assert!(state.download_file(reference).is_err());
    }
    assert_eq!(state.download_file("YS1maWxl"), Err(QrSyncError::Mode(ModeError::NotSendMode)));
}

#[test]
fn decide_download_follows_the_decoded_name() {
    let state = State::new(Some("a".to_string()), PathBuf::from("."));
    assert_eq!(state.decide_download(Ok("a".to_string())), Ok("a".to_string()));
    assert_eq!(state.decide_download(Ok("b".to_string())), Err(QrSyncError::Mode(ModeError::Mismatch)));
    assert_eq!(
        state.decide_download(Err(ReferenceError::NotUtf8)),
        Err(QrSyncError::Reference(ReferenceError::NotUtf8))
    );
}

#[test]
fn content_disposition_names_the_attachment() {
    assert_eq!(content_disposition("a-file"), "attachment; filename=\"a-file\"");
}

#[test]
fn errors_have_a_message() {
    let e = QrSyncError::Mode(ModeError::NotSendMode);
    assert_eq!(e.message(), "QrSync is not running in send mode");
    assert_eq!(QrSyncError::Mode(ModeError::Mismatch).message(), "Requested file differs from served one");
}

#[test]
fn download_reply_serves_the_selected_file_as_an_attachment() {
    let state = State::new(Some("a-file".to_string()), PathBuf::from("a-dir"));
    match state.download_reply("YS1maWxl") {
        DownloadReply::Serve { file_name, disposition } => {
            assert_eq!(file_name, "a-file");
            assert_eq!(disposition, "attachment; filename=\"a-file\"");
        }
        DownloadReply::Redirect(_) => panic!("the selected file should be served"),
    }
    for reference in ["YS1maWxm", "!!!", "", "_w"] {
        assert!(matches!(state.download_reply(reference), DownloadReply::Redirect(Page::Error)));
    }
}

#[test]
fn download_reply_in_receive_mode_redirects_to_the_error_page() {
    let state = State::new(None, PathBuf::from("a-dir"));
    for reference in ["YS1maWxl", "", "!!!", "_w"] {
        assert!(matches!(state.download_reply(reference), DownloadReply::Redirect(Page::Error)));
    }
}
