//! Hexadecimal numerals in lower case, and the texts made of them: encoded
//! bytes, hyphenated identifiers and public signals.

use vstd::prelude::*;
use vstd::string::*;

verus! {

/// The lower-case hexadecimal digit for a value below sixteen.
pub open spec fn lower_hex_digit(d: nat) -> char
    recommends
        d < 16,
{
    seq!['0', '1', '2', '3', '4', '5', '6', '7', '8', '9', 'a', 'b', 'c', 'd', 'e', 'f'][d as int]
}

/// The last `width` digits of `x` written in base sixteen, most significant
/// first, with zeros in front where `x` is short.
pub open spec fn hex_numeral(x: nat, width: nat) -> Seq<char>
    decreases width,
{
    if width == 0 {
        Seq::empty()
    } else {
        hex_numeral(x / 16, (width - 1) as nat).push(lower_hex_digit(x % 16))
    }
}

/// Two digits for each byte, in the order of the bytes.
pub open spec fn lower_hex(bytes: Seq<u8>) -> Seq<char>
    decreases bytes.len(),
{
    if bytes.len() == 0 {
        Seq::empty()
    } else {
        lower_hex(bytes.drop_last()) + hex_numeral(bytes.last() as nat, 2)
    }
}

/// The thirty-two digits of `x` in groups of 8, 4, 4, 4 and 12, with a hyphen
/// between the groups.
pub open spec fn hyphenated(x: u128) -> Seq<char> {
    let digits = hex_numeral(x as nat, 32);
    digits.subrange(0, 8) + seq!['-'] + digits.subrange(8, 12) + seq!['-'] + digits.subrange(
        12,
        16,
    ) + seq!['-'] + digits.subrange(16, 20) + seq!['-'] + digits.subrange(20, 32)
}

/// A public signal as text: `0x` and then sixty-four digits.
pub open spec fn signal_text(x: u64) -> Seq<char> {
    seq!['0', 'x'] + hex_numeral(x as nat, 64)
}

/// A numeral has as many digits as its width.
pub proof fn lemma_hex_numeral_len(x: nat, width: nat)
    ensures
        hex_numeral(x, width).len() == width,
    decreases width,
{
    if width > 0 {
        lemma_hex_numeral_len(x / 16, (width - 1) as nat);
    }
}

/// A hyphenated identifier has thirty-six characters.
pub proof fn lemma_hyphenated_len(x: u128)
    ensures
        hyphenated(x).len() == 36,
{
    lemma_hex_numeral_len(x as nat, 32);
}

/// Sixteen to the power of `n`.
pub open spec fn pow16(n: nat) -> nat
    decreases n,
{
    if n == 0 {
        1
    } else {
        16 * pow16((n - 1) as nat)
    }
}

/// Different values below sixteen have different digits.
pub proof fn lemma_hex_digit_injective(a: nat, b: nat)
    requires
        a < 16,
        b < 16,
        lower_hex_digit(a) == lower_hex_digit(b),
    ensures
        a == b,
{
}

/// Different numbers that fit the width have different numerals.
pub proof fn lemma_hex_numeral_injective(x: nat, y: nat, width: nat)
    requires
        x < pow16(width),
        y < pow16(width),
        hex_numeral(x, width) == hex_numeral(y, width),
    ensures
        x == y,
    decreases width,
{
    if width > 0 {
        let shorter = (width - 1) as nat;
        let left = hex_numeral(x / 16, shorter).push(lower_hex_digit(x % 16));
        let right = hex_numeral(y / 16, shorter).push(lower_hex_digit(y % 16));
        assert(left.last() == right.last());
        assert(left.drop_last() =~= hex_numeral(x / 16, shorter));
        assert(right.drop_last() =~= hex_numeral(y / 16, shorter));
        lemma_hex_digit_injective(x % 16, y % 16);
        lemma_hex_numeral_injective(x / 16, y / 16, shorter);
    }
}

/// Different identifiers have different texts.
pub proof fn lemma_hyphenated_injective(a: u128, b: u128)
    requires
        hyphenated(a) == hyphenated(b),
    ensures
        a == b,
{
    let left = hex_numeral(a as nat, 32);
    let right = hex_numeral(b as nat, 32);
    lemma_hex_numeral_len(a as nat, 32);
    lemma_hex_numeral_len(b as nat, 32);
    let text = hyphenated(a);
    let digits = text.subrange(0, 8) + text.subrange(9, 13) + text.subrange(14, 18)
        + text.subrange(19, 23) + text.subrange(24, 36);
    assert(left =~= digits);
    assert(right =~= digits);
    assert(pow16(32) == 0x1_0000_0000_0000_0000_0000_0000_0000_0000) by {
        reveal_with_fuel(pow16, 33);
    }
    lemma_hex_numeral_injective(a as nat, b as nat, 32);
}

/// The text of one digit.
fn digit_text(d: u8) -> (text: &'static str)
    requires
        d < 16,
    ensures
        text@ == seq![lower_hex_digit(d as nat)],
{
    let text = match d {
        0 => "0",
        1 => "1",
        2 => "2",
        3 => "3",
        4 => "4",
        5 => "5",
        6 => "6",
        7 => "7",
        8 => "8",
        9 => "9",
        10 => "a",
        11 => "b",
        12 => "c",
        13 => "d",
        14 => "e",
        _ => "f",
    };
    proof {
        reveal_strlit("0");
        reveal_strlit("1");
        reveal_strlit("2");
        reveal_strlit("3");
        reveal_strlit("4");
        reveal_strlit("5");
        reveal_strlit("6");
        reveal_strlit("7");
        reveal_strlit("8");
        reveal_strlit("9");
        reveal_strlit("a");
        reveal_strlit("b");
        reveal_strlit("c");
        reveal_strlit("d");
        reveal_strlit("e");
        reveal_strlit("f");
        assert(text@ =~= seq![lower_hex_digit(d as nat)]);
    }
    text
}

/// Renders a public signal.
pub fn render_signal(x: u64) -> (text: String)
    ensures
        text@ == signal_text(x),
{
    let mut low_first: Vec<u8> = Vec::new();
    let mut rest: u64 = x;
    let ghost mut digits: Seq<char> = Seq::empty();
    let mut i: usize = 0;
    proof {
        assert(hex_numeral(x as nat, 64) + digits =~= hex_numeral(x as nat, 64));
    }
    while i < 64
        invariant
            i <= 64,
            low_first.len() == i,
            digits.len() == i,
            forall|m: int| 0 <= m < i ==> low_first[m] < 16,
            forall|m: int|
                0 <= m < i ==> #[trigger] digits[m] == lower_hex_digit(low_first[i - 1 - m] as nat),
            hex_numeral(x as nat, 64) == hex_numeral(rest as nat, (64 - i) as nat) + digits,
        decreases 64 - i,
    {
        let d: u8 = (rest % 16) as u8;
        proof {
            let grown = seq![lower_hex_digit(d as nat)] + digits;
            assert(hex_numeral(rest as nat, (64 - i) as nat) + digits =~= hex_numeral(
                rest as nat / 16,
                (64 - i - 1) as nat,
            ) + grown);
            digits = grown;
        }
        low_first.push(d);
        rest = rest / 16;
        i += 1;
    }
    assert(hex_numeral(x as nat, 64) =~= digits);
    let mut text = String::from_str("0x");
    let mut k: usize = 64;
    proof {
        reveal_strlit("0x");
        assert(text@ =~= seq!['0', 'x'] + digits.take(0));
    }
    while k > 0
        invariant
            k <= 64,
            low_first.len() == 64,
            digits.len() == 64,
            forall|m: int| 0 <= m < 64 ==> low_first[m] < 16,
            forall|m: int|
                0 <= m < 64 ==> #[trigger] digits[m] == lower_hex_digit(
                    low_first[64 - 1 - m] as nat,
                ),
            text@ == seq!['0', 'x'] + digits.take(64 - k),
        decreases k,
    {
        k -= 1;
        text.append(digit_text(low_first[k]));
        proof {
            assert(digits[64 - 1 - k] == lower_hex_digit(low_first[k as int] as nat));
            assert(text@ =~= seq!['0', 'x'] + digits.take(64 - k));
        }
    }
    assert(digits.take(64) =~= digits);
    text
}

} // verus!
