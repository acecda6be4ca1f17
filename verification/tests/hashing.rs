use mock_relayer::hashing::{compute_email_hash, format_digest, hash_content};
use mock_relayer::ids::{id_text, prefixed, synthesize_id};

#[test]
fn hash_of_hello_is_the_known_digest() {
    assert_eq!(
        hash_content("hello"),
        "0x1c8aff950685c2ed4bc3174f3472287b56d9517b9c948127319a09a7a36deac8"
    );
}

#[test]
fn hash_of_the_empty_text_is_the_known_digest() {
    assert_eq!(
        hash_content(""),
        "0xc5d2460186f7233c927e7db2dcc703c0e500b653ca82273b7bfad8045d85a470"
    );
}

#[test]
fn hash_takes_text_as_utf8() {
    assert_ne!(hash_content("caf\u{e9}"), hash_content("cafe"));
    assert_eq!(hash_content("caf\u{e9}").len(), 66);
}

#[test]
fn email_hash_joins_sender_subject_and_body() {
    assert_eq!(compute_email_hash("he", "l", "lo"), hash_content("hello"));
    assert_eq!(compute_email_hash("", "", ""), hash_content(""));
}

#[test]
fn equal_content_gives_equal_hashes() {
    let first = compute_email_hash("a@resy.com", "LIST", "Dinner at Noma");
    let second = compute_email_hash("a@resy.com", "LIST", "Dinner at Noma");
    assert_eq!(first, second);
    assert_ne!(first, compute_email_hash("a@resy.com", "LIST", "Dinner at Nomad"));
}

#[test]
fn digest_is_written_with_two_lower_case_digits_per_byte() {
    let mut digest = [0u8; 32];
    digest[0] = 0x01;
    digest[1] = 0xf0;
    digest[2] = 0x0f;
    digest[31] = 0xab;
    assert_eq!(
        format_digest(&digest),
        "0x01f00f00000000000000000000000000000000000000000000000000000000ab"
    );
}

#[test]
fn id_text_is_hyphenated_lower_case() {
    assert_eq!(
        id_text(0xa1a2a3a4b1b2c1c2d1d2d3d4d5d6d7d8),
        "a1a2a3a4-b1b2-c1c2-d1d2-d3d4d5d6d7d8"
    );
    assert_eq!(id_text(0x1f), "00000000-0000-0000-0000-00000000001f");
    assert_eq!(id_text(0), "00000000-0000-0000-0000-000000000000");
    assert_eq!(id_text(u128::MAX), "ffffffff-ffff-ffff-ffff-ffffffffffff");
}

#[test]
fn synthetic_id_takes_eight_upper_case_digits() {
    assert_eq!(synthesize_id("RES-", 0xa1a2a3a4b1b2c1c2d1d2d3d4d5d6d7d8), "RES-A1A2A3A4");
    assert_eq!(synthesize_id("TEST-", 0x00000bcd_0000_0000_0000_000000000000), "TEST-00000BCD");
    assert_eq!(synthesize_id("", u128::MAX), "FFFFFFFF");
}

#[test]
fn prefixed_puts_the_code_behind_the_prefix() {
    assert_eq!(prefixed("RES-", "0A1B2C3D"), "RES-0A1B2C3D");
    assert_eq!(prefixed("", ""), "");
}
