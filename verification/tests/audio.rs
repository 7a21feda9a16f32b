use local_whisper::audio::{
    check_sample_count, decode_pcm_samples, inference_threads, join_segment_texts, pcm_samples,
    validate_pcm, SegmentText, MIN_SAMPLES,
};
use local_whisper::error::TranscribeError;

#[test]
fn validate_pcm_checks_in_order() {
    assert_eq!(validate_pcm(&[], true), Err(TranscribeError::AudioTooShort(0)));
    assert_eq!(validate_pcm(&[], false), Err(TranscribeError::AudioTooShort(0)));
    assert_eq!(
        validate_pcm(&[1, 2, 3], false),
        Err(TranscribeError::Other(
            "PCM byte length must be a multiple of 2 (i16 samples)".to_string()
        ))
    );
    assert_eq!(validate_pcm(&[0; 8], false), Err(TranscribeError::ModelNotLoaded));
    assert_eq!(validate_pcm(&[0; 8], true), Ok(4));
    assert_eq!(validate_pcm(&[0; 2], true), Ok(1));
}

#[test]
fn decode_pcm_samples_is_little_endian_i16() {
    let samples = [0i16, 1, -1, i16::MAX, i16::MIN, 12345, -2];
    let mut bytes = Vec::new();
    for s in samples {
        bytes.extend_from_slice(&s.to_le_bytes());
    }
    assert_eq!(decode_pcm_samples(&bytes), samples.to_vec());
    assert_eq!(decode_pcm_samples(&[0x34, 0x12]), vec![0x1234]);
    assert_eq!(decode_pcm_samples(&[]), Vec::<i16>::new());
}

#[test]
fn pcm_samples_refuses_then_decodes() {
    assert_eq!(pcm_samples(&[1, 0], false), Err(TranscribeError::ModelNotLoaded));
    assert_eq!(pcm_samples(&[1, 0, 0, 0x80], true), Ok(vec![1, i16::MIN]));
    assert!(matches!(pcm_samples(&[1, 2, 3], true), Err(TranscribeError::Other(_))));
}

#[test]
fn check_sample_count_rejects_under_a_tenth_of_a_second() {
    assert_eq!(MIN_SAMPLES, 1600);
    assert_eq!(check_sample_count(1599), Err(TranscribeError::AudioTooShort(1599)));
    assert_eq!(check_sample_count(0), Err(TranscribeError::AudioTooShort(0)));
    assert_eq!(check_sample_count(1600), Ok(()));
    assert_eq!(check_sample_count(16000), Ok(()));
}

#[test]
fn inference_threads_falls_back_to_four() {
    assert_eq!(inference_threads(None), 4);
    assert_eq!(inference_threads(Some(8)), 8);
    assert_eq!(inference_threads(Some(1)), 1);
}

#[test]
fn join_segment_texts_concatenates_in_order() {
    let segs = vec![
        SegmentText::Text(" Hello".to_string()),
        SegmentText::Text(" world.".to_string()),
    ];
    assert_eq!(join_segment_texts(&segs), Ok(" Hello world.".to_string()));
    assert_eq!(join_segment_texts(&vec![]), Ok(String::new()));
}

#[test]
fn join_segment_texts_stops_at_first_bad_segment() {
    let segs = vec![
        SegmentText::Text("a".to_string()),
        SegmentText::Missing,
        SegmentText::Unreadable("bad utf8".to_string()),
    ];
    assert_eq!(
        join_segment_texts(&segs),
        Err(TranscribeError::WhisperFailed("missing segment 1".to_string()))
    );
    let segs = vec![
        SegmentText::Unreadable("bad utf8".to_string()),
        SegmentText::Missing,
    ];
    assert_eq!(
        join_segment_texts(&segs),
        Err(TranscribeError::WhisperFailed("segment_text: bad utf8".to_string()))
    );
}
