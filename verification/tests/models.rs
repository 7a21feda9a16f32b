use local_whisper::error::TranscribeError;
use local_whisper::model::{find_model, model_entries, models, DEFAULT_MODEL_ID};

#[test]
fn catalog_lists_base_then_small() {
    let all = models();
    assert_eq!(all.len(), 2);
    assert_eq!(all[0].id, "base.en");
    assert_eq!(all[0].label, "Base (74M)");
    assert_eq!(all[0].file, "ggml-base.en.bin");
    assert_eq!(all[0].size_mb, 142);
    assert_eq!(all[1].id, "small.en");
    assert_eq!(all[1].file, "ggml-small.en.bin");
    assert_eq!(
        all[1].url,
        "https://huggingface.co/ggerganov/whisper.cpp/resolve/main/ggml-small.en.bin"
    );
    assert_eq!(all[1].size_mb, 466);
}

#[test]
fn find_model_resolves_every_catalog_id() {
    for m in models() {
        assert_eq!(find_model(m.id), Ok(m));
    }
    assert_eq!(find_model(DEFAULT_MODEL_ID).unwrap().id, "small.en");
}

#[test]
fn find_model_refuses_unknown_ids() {
    assert_eq!(
        find_model("medium.en"),
        Err(TranscribeError::Other("unknown model id: medium.en".to_string()))
    );
    assert_eq!(
        find_model(""),
        Err(TranscribeError::Other("unknown model id: ".to_string()))
    );
    assert!(find_model("small.en ").is_err());
}

#[test]
fn model_entries_mark_presence_and_active() {
    let rows = model_entries("small.en", &vec![true, false]);
    assert_eq!(rows.len(), 2);
    assert_eq!(rows[0].id, "base.en");
    assert!(rows[0].present && !rows[0].active);
    assert_eq!(rows[1].id, "small.en");
    assert!(!rows[1].present && rows[1].active);
    assert_eq!(rows[1].label, "Small (244M)");
    assert_eq!(rows[1].size_mb, 466);
}

#[test]
fn model_entries_with_unknown_active_mark_none() {
    let rows = model_entries("tiny.en", &vec![false, false]);
    assert!(rows.iter().all(|r| !r.active));
    let rows = model_entries("base.en", &vec![false, false]);
    assert_eq!(rows.iter().filter(|r| r.active).count(), 1);
}
