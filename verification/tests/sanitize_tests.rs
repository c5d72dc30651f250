use telemetry::sanitize::{decode_if_encoded, encode_for_transport};
use telemetry::textfmt::{format_percent_tenths, format_uptime, u64_to_hex_upper, u64_to_string};

#[test]
fn clean_strips_non_printable() {
    assert_eq!(decode_if_encoded("py\u{7}thon"), "python");
    assert_eq!(decode_if_encoded("  spaced\tout  "), "  spaced\tout  ");
}

#[test]
fn base64_payload_is_substituted() {
    // "aGVsbG8gd29ybGQ=" is the standard base64 encoding of "hello world".
    assert_eq!(decode_if_encoded("aGVsbG8gd29ybGQ="), "hello world");
}

#[test]
fn hex_payload_is_substituted() {
    // "68656c6c6f" spells "hello" in hex pairs.
    assert_eq!(decode_if_encoded("68656c6c6f"), "hello");
}

#[test]
fn short_decodings_are_rejected() {
    // "6162" would decode to "ab", which is too short to substitute.
    assert_eq!(decode_if_encoded("6162"), "6162");
    assert_eq!(decode_if_encoded("ab"), "ab");
}

#[test]
fn decode_is_idempotent_on_plain_text() {
    let once = decode_if_encoded("hello world");
    let twice = decode_if_encoded(&once);
    assert_eq!(once, twice);
    assert_eq!(once, "hello world");
}

#[test]
fn decode_is_idempotent_on_singly_encoded_text() {
    let once = decode_if_encoded("aGVsbG8gd29ybGQ=");
    let twice = decode_if_encoded(&once);
    assert_eq!(once, twice);
}

#[test]
fn nested_encoding_decodes_one_stage_per_pass() {
    // The base64 encoding of "aGVsbG8gd29ybGQ=" itself: decoding once yields
    // the inner encoding, decoding again yields the text.
    let nested = encode_for_transport("aGVsbG8gd29ybGQ=");
    let once = decode_if_encoded(&nested);
    assert_eq!(once, "aGVsbG8gd29ybGQ=");
    let twice = decode_if_encoded(&once);
    assert_eq!(twice, "hello world");
}

#[test]
fn encode_then_decode_round_trips() {
    let encoded = encode_for_transport("hello world");
    assert_ne!(encoded, "hello world");
    assert_eq!(decode_if_encoded(&encoded), "hello world");
}

#[test]
fn encode_round_trips_every_printable_sample() {
    for s in ["abc", "A longer line with spaces.", "tabs\tand\nnewlines"] {
        let encoded = encode_for_transport(s);
        assert_eq!(decode_if_encoded(&encoded), s);
    }
}

#[test]
fn decimal_rendering() {
    assert_eq!(u64_to_string(0), "0");
    assert_eq!(u64_to_string(7), "7");
    assert_eq!(u64_to_string(1234), "1234");
    assert_eq!(u64_to_string(u64::MAX), "18446744073709551615");
}

#[test]
fn hex_rendering() {
    assert_eq!(u64_to_hex_upper(0), "0");
    assert_eq!(u64_to_hex_upper(0x1A2B), "1A2B");
    assert_eq!(u64_to_hex_upper(255), "FF");
}

#[test]
fn percent_and_uptime_rendering() {
    assert_eq!(format_percent_tenths(523), "52.3%");
    assert_eq!(format_percent_tenths(0), "0.0%");
    assert_eq!(format_percent_tenths(1000), "100.0%");
    assert_eq!(format_uptime(5, 3), "5h 3m");
    assert_eq!(format_uptime(0, 59), "0h 59m");
}
