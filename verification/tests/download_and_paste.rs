use local_whisper::download::{
    check_download_status, check_model_digest, fetch_steps, Completion, FetchStep, ModelDownload, existing_model_action, status_error, EXPECTED_SHA256, DownloadProgress, ExistingModel, ProgressEvent,
    MIN_MODEL_BYTES, PROGRESS_INTERVAL_MS,
};
use local_whisper::error::TranscribeError;
use local_whisper::paste::{
    paste_key_events, paste_steps, send_paste_keystroke, KeyStroke, PasteStep, KEY_V,
};

#[test]
fn existing_model_files() {
    assert_eq!(existing_model_action(None), ExistingModel::Absent);
    assert_eq!(existing_model_action(Some(0)), ExistingModel::Replace);
    assert_eq!(existing_model_action(Some(9_999_999)), ExistingModel::Replace);
    assert_eq!(existing_model_action(Some(MIN_MODEL_BYTES)), ExistingModel::Keep);
    assert_eq!(existing_model_action(Some(10_000_001)), ExistingModel::Keep);
    assert_eq!(existing_model_action(Some(488_000_000)), ExistingModel::Keep);
}

#[test]
fn download_status() {
    assert_eq!(check_download_status(200), Ok(()));
    assert_eq!(check_download_status(206), Ok(()));
    assert_eq!(check_download_status(299), Ok(()));
    assert_eq!(
        check_download_status(404),
        Err(TranscribeError::Download("HTTP 404 Not Found".to_string()))
    );
    assert_eq!(
        check_download_status(302),
        Err(TranscribeError::Download("HTTP 302 Found".to_string()))
    );
    assert_eq!(
        check_download_status(199),
        Err(TranscribeError::Download("HTTP 199 <unknown status code>".to_string()))
    );
    assert_eq!(
        check_download_status(503),
        Err(TranscribeError::Download("HTTP 503 Service Unavailable".to_string()))
    );
}

#[test]
fn status_error_formats_reason() {
    assert_eq!(
        status_error(418, Some("I'm a teapot")),
        TranscribeError::Download("HTTP 418 I'm a teapot".to_string())
    );
    assert_eq!(
        status_error(999, None),
        TranscribeError::Download("HTTP 999 <unknown status code>".to_string())
    );
}

#[test]
fn progress_is_throttled() {
    assert_eq!(PROGRESS_INTERVAL_MS, 120);
    let mut p = DownloadProgress::new(1000);
    assert_eq!(p.on_chunk(100, 5), Some(ProgressEvent { downloaded: 100, total: 1000 }));
    assert_eq!(p.on_chunk(100, 50), None);
    assert_eq!(p.on_chunk(100, 124), None);
    assert_eq!(p.on_chunk(100, 125), Some(ProgressEvent { downloaded: 400, total: 1000 }));
    assert_eq!(p.on_chunk(50, 126), None);
    assert_eq!(p.downloaded, 450);
    assert_eq!(p.final_report(), ProgressEvent { downloaded: 450, total: 1000 });
}

#[test]
fn final_report_total_covers_what_arrived() {
    let mut p = DownloadProgress::new(0);
    p.on_chunk(300, 0);
    p.on_chunk(200, 1000);
    assert_eq!(p.final_report(), ProgressEvent { downloaded: 500, total: 500 });
}

#[test]
fn paste_steps_for_text() {
    let steps = paste_steps("hello", Some("previous".to_string()));
    assert_eq!(
        steps,
        vec![
            PasteStep::SetClipboard("hello".to_string()),
            PasteStep::Wait(80),
            PasteStep::SendKeystroke,
            PasteStep::Wait(200),
            PasteStep::Restore("previous".to_string()),
        ]
    );
    let steps = paste_steps("hello", None);
    assert_eq!(steps.len(), 4);
    assert_eq!(steps[3], PasteStep::Wait(200));
}

#[test]
fn paste_steps_for_empty_text_do_nothing() {
    assert!(paste_steps("", Some("previous".to_string())).is_empty());
    assert!(paste_steps("", None).is_empty());
}

#[test]
fn paste_keystroke() {
    let evs = paste_key_events();
    assert_eq!(evs[0], KeyStroke { keycode: KEY_V, key_down: true, command: true });
    assert_eq!(evs[1], KeyStroke { keycode: 9, key_down: false, command: true });
    assert_eq!(
        send_paste_keystroke(),
        Err(TranscribeError::Other(
            "paste keystroke not implemented for this platform".to_string()
        ))
    );
}

#[test]
fn model_digest_check() {
    assert_eq!(EXPECTED_SHA256, None);
    let digest = [0xde, 0xad, 0xbe, 0xef];
    assert_eq!(check_model_digest(None, &digest), Ok(()));
    assert_eq!(check_model_digest(Some("deadbeef"), &digest), Ok(()));
    assert_eq!(
        check_model_digest(Some("DEADBEEF"), &digest),
        Err(TranscribeError::HashMismatch {
            expected: "DEADBEEF".to_string(),
            actual: "deadbeef".to_string()
        })
    );
    assert_eq!(
        check_model_digest(Some("00"), &[]),
        Err(TranscribeError::HashMismatch { expected: "00".to_string(), actual: String::new() })
    );
}

const SHA256_ABC: &str = "ba7816bf8f01cfea414140de5dae2223b00361a396177a9cb410ff61f20015ad";

#[test]
fn model_download_hashes_all_chunks() {
    let mut d = ModelDownload::new(3);
    assert_eq!(d.on_chunk(b"a", 0), Some(ProgressEvent { downloaded: 1, total: 3 }));
    assert_eq!(d.on_chunk(b"bc", 10), None);
    assert_eq!(d.progress().downloaded, 3);
    assert_eq!(d.final_report(), ProgressEvent { downloaded: 3, total: 3 });
    assert_eq!(d.finish(Some(SHA256_ABC)), Completion::Install);
}

#[test]
fn model_download_refuses_a_wrong_hash() {
    let mut d = ModelDownload::new(0);
    d.on_chunk(b"ab", 0);
    d.on_chunk(b"c", 1);
    assert_eq!(
        d.finish(Some("00")),
        Completion::Discard(TranscribeError::HashMismatch {
            expected: "00".to_string(),
            actual: SHA256_ABC.to_string()
        })
    );
    let d = ModelDownload::new(0);
    assert_eq!(d.finish(None), Completion::Install);
    let d = ModelDownload::new(0);
    assert_eq!(
        d.finish(Some("e3b0c44298fc1c149afbf4c8996fb92427ae41e4649b934ca495991b7852b855")),
        Completion::Install
    );
}

#[test]
fn fetch_steps_before_download() {
    assert_eq!(fetch_steps(Some(MIN_MODEL_BYTES)), vec![FetchStep::UseExisting]);
    assert_eq!(
        fetch_steps(Some(5)),
        vec![FetchStep::RemoveModel, FetchStep::RemovePartial, FetchStep::Download]
    );
    assert_eq!(fetch_steps(None), vec![FetchStep::RemovePartial, FetchStep::Download]);
}
