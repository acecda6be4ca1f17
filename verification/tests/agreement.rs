use mock_relayer::encoding::render_signal;
use mock_relayer::extraction::extract_restaurant_name;
use mock_relayer::hashing::format_digest;
use mock_relayer::ids::{id_text, synthesize_id};
use mock_relayer::mock_proofs::deterministic_proof_from;
use mock_relayer::text::{contains_text, split_tokens};

struct Lcg(u64);

impl Lcg {
    fn next(&mut self) -> u64 {
        self.0 = self.0.wrapping_mul(6364136223846793005).wrapping_add(1442695040888963407);
        self.0 >> 11
    }

    fn text(&mut self, alphabet: &[char], max_len: u64) -> String {
        let len = self.next() % (max_len + 1);
        (0..len).map(|_| alphabet[(self.next() % alphabet.len() as u64) as usize]).collect()
    }
}

const ALPHABET: [char; 10] = ['a', 't', ' ', '\n', 'x', '\t', '\u{e9}', '\u{a0}', 'A', '\r'];

#[test]
fn tokens_agree_with_split_whitespace_on_many_texts() {
    let mut lcg = Lcg(1);
    for _ in 0..2000 {
        let text = lcg.text(&ALPHABET, 24);
        let expected: Vec<String> = text.split_whitespace().map(|w| w.to_string()).collect();
        assert_eq!(split_tokens(&text), expected, "{:?}", text);
    }
}

#[test]
fn contains_agrees_with_the_standard_library_on_many_texts() {
    let mut lcg = Lcg(2);
    for _ in 0..2000 {
        let hay = lcg.text(&ALPHABET[..5], 16);
        let needle = lcg.text(&ALPHABET[..5], 3);
        assert_eq!(contains_text(&hay, &needle), hay.contains(&needle), "{:?} {:?}", hay, needle);
    }
}

#[test]
fn restaurant_name_is_the_trimmed_rest_of_the_line_on_many_texts() {
    let mut lcg = Lcg(3);
    for _ in 0..2000 {
        let body = lcg.text(&ALPHABET, 24);
        let expected = body.find("at ").map(|at| {
            let rest = &body[at + 3..];
            let line = match rest.find('\n') {
                Some(end) => &rest[..end],
                None => rest,
            };
            line.trim().to_string()
        });
        assert_eq!(extract_restaurant_name(&body), expected, "{:?}", body);
    }
}

#[test]
fn signals_agree_with_padded_formatting_on_many_words() {
    let mut lcg = Lcg(4);
    for _ in 0..500 {
        let word = lcg.next().wrapping_mul(lcg.next());
        assert_eq!(render_signal(word), format!("0x{:064x}", word));
    }
}

#[test]
fn deterministic_words_are_wrapped_products_on_many_hashes() {
    let mut lcg = Lcg(5);
    for _ in 0..200 {
        let h = lcg.next().wrapping_mul(lcg.next());
        let proof = deterministic_proof_from(h);
        let factors: [u64; 8] = [1, 2, 3, 5, 7, 11, 13, 17];
        for (word, factor) in proof.proof_data.iter().zip(factors) {
            assert_eq!(*word as u128, (h as u128 * factor as u128) % (1u128 << 64));
        }
        let signal_factors: [u64; 3] = [1, 19, 23];
        for (signal, factor) in proof.public_signals.iter().zip(signal_factors) {
            let value = ((h as u128 * factor as u128) % (1u128 << 64)) as u64;
            assert_eq!(*signal, format!("0x{:064x}", value));
        }
    }
}

#[test]
fn id_text_is_the_grouped_numeral_on_many_ids() {
    let mut lcg = Lcg(6);
    for _ in 0..500 {
        let id = ((lcg.next().wrapping_mul(lcg.next()) as u128) << 64)
            | lcg.next().wrapping_mul(lcg.next()) as u128;
        let digits = format!("{:032x}", id);
        let expected = format!(
            "{}-{}-{}-{}-{}",
            &digits[0..8],
            &digits[8..12],
            &digits[12..16],
            &digits[16..20],
            &digits[20..32]
        );
        assert_eq!(id_text(id), expected);
        assert_eq!(synthesize_id("RES-", id), format!("RES-{:08X}", (id >> 96) as u32));
    }
}

#[test]
fn digest_text_is_two_digits_per_byte_on_many_digests() {
    let mut lcg = Lcg(7);
    for _ in 0..200 {
        let mut digest = [0u8; 32];
        for byte in digest.iter_mut() {
            *byte = (lcg.next() % 256) as u8;
        }
        let mut expected = String::from("0x");
        for byte in digest {
            expected.push_str(&format!("{:02x}", byte));
        }
        assert_eq!(format_digest(&digest), expected);
    }
}
