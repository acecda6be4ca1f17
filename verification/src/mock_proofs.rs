//! Stand-in proofs. They have the shape of a proof and no meaning: eight
//! words and three signals, drawn at random or worked out from a seed.

use crate::encoding::{render_signal, signal_text};
use crate::models::{MockProof, MockProofView};
use std::collections::hash_map::DefaultHasher;
use std::hash::Hasher;
use vstd::prelude::*;
use vstd::std_specs::hash::DefaultHasherAdditionalSpecFns;

verus! {

/// What a hasher has been fed once a text was hashed into it, given what it
/// had been fed before.
pub uninterp spec fn str_hash_writes(before: Seq<Seq<u8>>, s: Seq<char>) -> Seq<Seq<u8>>;

/// `Hash::hash` of `str` on a `DefaultHasher` of the standard library. The
/// contract names what the hasher holds afterwards as a function of what it
/// held before and of the characters of `s`; how a text is fed to a hasher is
/// left to the standard library.
#[verifier::external_body]
fn hash_str(hasher: &mut DefaultHasher, s: &str)
    ensures
        final(hasher)@ == str_hash_writes(old(hasher)@, s@),
{
    std::hash::Hash::hash(s, hasher)
}

/// `rand::thread_rng` and one `Rng::gen` on it: a random word, of which
/// nothing is known. rand panics where the operating system gives it no
/// random bytes to start from.
#[verifier::external_body]
fn random_word() -> (word: u64)
{
    rand::Rng::gen(&mut rand::thread_rng())
}

/// The 64-bit hash of a seed: that of a fresh default hasher of the standard
/// library which was fed the seed and nothing else.
pub open spec fn seed_hash(seed: Seq<char>) -> u64 {
    DefaultHasher::spec_finish(str_hash_writes(Seq::empty(), seed))
}

/// The product of `h` and `k`, of which only the low 64 bits are kept.
pub open spec fn wrapped_product(h: u64, k: u64) -> u64 {
    ((h as nat * k as nat) % 0x1_0000_0000_0000_0000) as u64
}

/// The proof that holds the given words, and the given signals as text.
pub open spec fn mock_proof_of(words: Seq<u64>, signals: Seq<u64>) -> MockProofView {
    MockProofView {
        proof_data: words,
        public_signals: Seq::new(signals.len(), |i: int| signal_text(signals[i])),
    }
}

/// A proof of the right shape: eight words and three signals.
pub open spec fn is_mock_proof(proof: MockProofView) -> bool {
    exists|words: Seq<u64>, signals: Seq<u64>|
        words.len() == 8 && signals.len() == 3 && proof == #[trigger] mock_proof_of(
            words,
            signals,
        )
}

/// The words that belong to the hash `h`: its products with 1, 2, 3, 5, 7,
/// 11, 13 and 17.
pub open spec fn deterministic_words(h: u64) -> Seq<u64> {
    seq![
        h,
        wrapped_product(h, 2),
        wrapped_product(h, 3),
        wrapped_product(h, 5),
        wrapped_product(h, 7),
        wrapped_product(h, 11),
        wrapped_product(h, 13),
        wrapped_product(h, 17),
    ]
}

/// The signals that belong to the hash `h`: its products with 1, 19 and 23.
pub open spec fn deterministic_signals(h: u64) -> Seq<u64> {
    seq![h, wrapped_product(h, 19), wrapped_product(h, 23)]
}

/// The proof that belongs to the hash `h`.
pub open spec fn deterministic_proof(h: u64) -> MockProofView {
    mock_proof_of(deterministic_words(h), deterministic_signals(h))
}

/// The proof that holds the given words and signals.
pub fn mock_proof_from(words: [u64; 8], signals: [u64; 3]) -> (proof: MockProof)
    ensures
        proof@ == mock_proof_of(words@, signals@),
{
    let mut public_signals: Vec<String> = Vec::new();
    let mut i: usize = 0;
    while i < 3
        invariant
            i <= 3,
            public_signals.len() == i,
            forall|j: int| 0 <= j < i ==> public_signals[j]@ == signal_text(signals[j]),
        decreases 3 - i,
    {
        public_signals.push(render_signal(signals[i]));
        i += 1;
    }
    let proof = MockProof { proof_data: words, public_signals };
    assert(proof@.public_signals =~= mock_proof_of(words@, signals@).public_signals);
    proof
}

/// A mock proof with random words and signals.
pub fn generate_mock_proof() -> (proof: MockProof)
    ensures
        is_mock_proof(proof@),
{
    let words: [u64; 8] = [
        random_word(),
        random_word(),
        random_word(),
        random_word(),
        random_word(),
        random_word(),
        random_word(),
        random_word(),
    ];
    let signals: [u64; 3] = [random_word(), random_word(), random_word()];
    mock_proof_from(words, signals)
}

/// The mock proof that belongs to the hash `h`.
pub fn deterministic_proof_from(h: u64) -> (proof: MockProof)
    ensures
        proof@ == deterministic_proof(h),
{
    let words: [u64; 8] = [
        h,
        h.wrapping_mul(2),
        h.wrapping_mul(3),
        h.wrapping_mul(5),
        h.wrapping_mul(7),
        h.wrapping_mul(11),
        h.wrapping_mul(13),
        h.wrapping_mul(17),
    ];
    let signals: [u64; 3] = [h, h.wrapping_mul(19), h.wrapping_mul(23)];
    assert(words@ =~= deterministic_words(h));
    assert(signals@ =~= deterministic_signals(h));
    mock_proof_from(words, signals)
}

/// The mock proof that belongs to a seed: the same seed gives the same proof.
pub fn generate_deterministic_mock_proof(seed: &str) -> (proof: MockProof)
    ensures
        proof@ == deterministic_proof(seed_hash(seed@)),
{
    let mut hasher = DefaultHasher::new();
    hash_str(&mut hasher, seed);
    let h = hasher.finish();
    deterministic_proof_from(h)
}

/// The proof of a seed is fixed by the seed: two proofs made from the same
/// seed agree in every word and every signal.
pub proof fn lemma_same_seed_same_proof(
    seed: Seq<char>,
    other_seed: Seq<char>,
    proof: MockProofView,
    other_proof: MockProofView,
)
    requires
        seed == other_seed,
        proof == deterministic_proof(seed_hash(seed)),
        other_proof == deterministic_proof(seed_hash(other_seed)),
    ensures
        proof.proof_data == other_proof.proof_data,
        proof.public_signals == other_proof.public_signals,
{
}

} // verus!
