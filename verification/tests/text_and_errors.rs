use local_whisper::error::TranscribeError;
use local_whisper::text::{decimal_string, hex_lower, str_eq};

#[test]
fn hex_lower_renders_two_lowercase_digits_per_byte() {
    assert_eq!(hex_lower(&[0xbe, 0xef, 0x00, 0x0f, 0xa5]), "beef000fa5");
    assert_eq!(hex_lower(&[]), "");
    assert_eq!(hex_lower(&[0xff]).len(), 2);
}

#[test]
fn hex_lower_of_every_byte_is_lowercase_hex() {
    let all: Vec<u8> = (0u8..=255).collect();
    let s = hex_lower(&all);
    assert_eq!(s.len(), 512);
    assert!(s.chars().all(|c| c.is_ascii_hexdigit() && !c.is_ascii_uppercase()));
    assert_eq!(&s[0..4], "0001");
    assert_eq!(&s[508..], "feff");
}

#[test]
fn decimal_string_matches_std_formatting() {
    for n in [0usize, 7, 9, 10, 42, 1599, 1600, 65535, usize::MAX] {
        assert_eq!(decimal_string(n), n.to_string());
    }
}

#[test]
fn str_eq_compares_contents() {
    assert!(str_eq("small.en", "small.en"));
    assert!(!str_eq("small.en", "small.e"));
    assert!(!str_eq("base.en", "small.en"));
    assert!(str_eq("", ""));
    assert!(!str_eq("é", "e"));
}

#[test]
fn error_messages() {
    assert_eq!(TranscribeError::ModelNotLoaded.message(), "model not loaded");
    assert_eq!(TranscribeError::AudioTooShort(12).message(), "audio too short (12 samples)");
    assert_eq!(TranscribeError::AudioTooShort(0).message(), "audio too short (0 samples)");
    assert_eq!(
        TranscribeError::WhisperFailed("full: boom".to_string()).message(),
        "whisper failed: full: boom"
    );
    assert_eq!(TranscribeError::Io("denied".to_string()).message(), "io error: denied");
    assert_eq!(
        TranscribeError::Download("HTTP 404 Not Found".to_string()).message(),
        "download failed: HTTP 404 Not Found"
    );
    assert_eq!(
        TranscribeError::HashMismatch { expected: "ab".to_string(), actual: "cd".to_string() }
            .message(),
        "hash mismatch (expected ab, got cd)"
    );
    assert_eq!(TranscribeError::Other("plain".to_string()).message(), "plain");
}

#[test]
fn hex_lower_concatenates_and_distinguishes() {
    let a = [0x01u8, 0xab];
    let b = [0xcdu8];
    let ab = [0x01u8, 0xab, 0xcd];
    assert_eq!(hex_lower(&ab), hex_lower(&a) + &hex_lower(&b));
    assert_ne!(hex_lower(&[0x10]), hex_lower(&[0x01]));
    assert_ne!(hex_lower(&[0x00]), hex_lower(&[0x00, 0x00]));
}
