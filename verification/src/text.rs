//! Text as sequences of characters: searching, lines, trimming and
//! whitespace-separated tokens.
//!
//! Every specification here speaks of `Seq<char>`, the view of `str` and
//! `String`. Positions are character positions, never byte offsets.

use vstd::prelude::*;
use vstd::string::*;

verus! {

/// Whether `c` is whitespace: one of the code points that Unicode gives the
/// property `White_Space`.
pub open spec fn is_white_space(c: char) -> bool {
    let n = c as u32;
    ||| 0x09 <= n <= 0x0d
    ||| n == 0x20
    ||| n == 0x85
    ||| n == 0xa0
    ||| n == 0x1680
    ||| 0x2000 <= n <= 0x200a
    ||| n == 0x2028
    ||| n == 0x2029
    ||| n == 0x202f
    ||| n == 0x205f
    ||| n == 0x3000
}

/// Whether `c` is whitespace.
pub fn is_whitespace(c: char) -> (b: bool)
    ensures
        b == is_white_space(c),
{
    let n: u32 = c as u32;
    (0x09 <= n && n <= 0x0d) || n == 0x20 || n == 0x85 || n == 0xa0 || n == 0x1680 || (0x2000
        <= n && n <= 0x200a) || n == 0x2028 || n == 0x2029 || n == 0x202f || n == 0x205f || n
        == 0x3000
}

/// The uppercase form of `s`: the result of `str::to_uppercase`, which goes by
/// the Unicode case mappings and may change the number of characters.
pub uninterp spec fn uppercase(s: Seq<char>) -> Seq<char>;

/// `str::to_uppercase` of the standard library. The contract only names its
/// result, as a function of the characters of `s`.
pub assume_specification[ str::to_uppercase ](s: &str) -> (r: String)
    ensures
        r@ == uppercase(s@),
;

/// `needle` stands in `hay` at character position `at`.
pub open spec fn occurs_at(hay: Seq<char>, needle: Seq<char>, at: int) -> bool {
    &&& 0 <= at
    &&& at + needle.len() <= hay.len()
    &&& hay.subrange(at, at + needle.len()) == needle
}

/// `needle` stands somewhere in `hay`.
pub open spec fn has_occurrence(hay: Seq<char>, needle: Seq<char>) -> bool {
    exists|at: int| occurs_at(hay, needle, at)
}

/// `at` is the leftmost position of `needle` in `hay`.
pub open spec fn is_first_occurrence(hay: Seq<char>, needle: Seq<char>, at: int) -> bool {
    &&& occurs_at(hay, needle, at)
    &&& forall|j: int| 0 <= j < at ==> !occurs_at(hay, needle, j)
}

/// The leftmost position of `needle` in `hay`, if there is one.
pub open spec fn first_occurrence(hay: Seq<char>, needle: Seq<char>) -> Option<int> {
    if has_occurrence(hay, needle) {
        Some(choose|at: int| is_first_occurrence(hay, needle, at))
    } else {
        None
    }
}

/// A leftmost position is the value of `first_occurrence`.
pub proof fn lemma_first_occurrence_is(hay: Seq<char>, needle: Seq<char>, at: int)
    requires
        is_first_occurrence(hay, needle, at),
    ensures
        first_occurrence(hay, needle) == Some(at),
{
    let chosen = choose|k: int| is_first_occurrence(hay, needle, k);
    assert(is_first_occurrence(hay, needle, chosen));
    if chosen < at {
        assert(!occurs_at(hay, needle, chosen));
    }
    if at < chosen {
        assert(!occurs_at(hay, needle, at));
    }
}

/// The text of `s` up to its first line feed, or all of `s` if it has none.
pub open spec fn first_line(s: Seq<char>) -> Seq<char> {
    match first_occurrence(s, seq!['\n']) {
        Some(at) => s.take(at),
        None => s,
    }
}

/// How many characters at the front of `s` are whitespace (`ws` true) or are
/// not (`ws` false), counted up to the first character of the other kind.
pub open spec fn leading_run(s: Seq<char>, ws: bool) -> nat
    decreases s.len(),
{
    if s.len() > 0 && is_white_space(s[0]) == ws {
        1 + leading_run(s.drop_first(), ws)
    } else {
        0
    }
}

/// How many characters at the back of `s` are whitespace.
pub open spec fn trailing_white_space(s: Seq<char>) -> nat
    decreases s.len(),
{
    if s.len() > 0 && is_white_space(s.last()) {
        1 + trailing_white_space(s.drop_last())
    } else {
        0
    }
}

/// `s` without the whitespace at its front and at its back.
pub open spec fn trimmed(s: Seq<char>) -> Seq<char> {
    let rest = s.skip(leading_run(s, true) as int);
    rest.take(rest.len() - trailing_white_space(rest))
}

/// The maximal runs of non-whitespace characters of `s`, from left to right.
pub open spec fn tokens(s: Seq<char>) -> Seq<Seq<char>>
    decreases s.len(),
{
    let rest = s.skip(leading_run(s, true) as int);
    let n = leading_run(rest, false) as int;
    if n == 0 {
        Seq::empty()
    } else {
        proof {
            lemma_leading_run_bound(s, true);
            lemma_leading_run_bound(rest, false);
        }
        seq![rest.take(n)] + tokens(rest.skip(n))
    }
}

/// A run never reaches past the end of the text.
pub proof fn lemma_leading_run_bound(s: Seq<char>, ws: bool)
    ensures
        leading_run(s, ws) <= s.len(),
    decreases s.len(),
{
    if s.len() > 0 && is_white_space(s[0]) == ws {
        lemma_leading_run_bound(s.drop_first(), ws);
    }
}

/// Every character of a run is of the kind of the run.
pub proof fn lemma_leading_run_kind(s: Seq<char>, ws: bool, i: int)
    requires
        0 <= i < leading_run(s, ws),
    ensures
        i < s.len(),
        is_white_space(s[i]) == ws,
    decreases s.len(),
{
    if i > 0 {
        lemma_leading_run_kind(s.drop_first(), ws, i - 1);
    }
}

/// Every token is a word: it is not empty and holds no whitespace.
pub proof fn lemma_tokens_are_words(s: Seq<char>, k: int)
    requires
        0 <= k < tokens(s).len(),
    ensures
        tokens(s)[k].len() > 0,
        forall|i: int| 0 <= i < tokens(s)[k].len() ==> !is_white_space(#[trigger] tokens(s)[k][i]),
    decreases s.len(),
{
    let rest = s.skip(leading_run(s, true) as int);
    let n = leading_run(rest, false) as int;
    lemma_leading_run_bound(s, true);
    lemma_leading_run_bound(rest, false);
    if k == 0 {
        assert forall|i: int| 0 <= i < tokens(s)[k].len() implies !is_white_space(
            #[trigger] tokens(s)[k][i],
        ) by {
            lemma_leading_run_kind(rest, false, i);
        }
    } else {
        lemma_tokens_are_words(rest.skip(n), k - 1);
    }
}

/// The characters of `s`, in order.
pub fn chars_of(s: &str) -> (out: Vec<char>)
    ensures
        out@ == s@,
{
    let mut out: Vec<char> = Vec::new();
    for c in it: s.chars()
        invariant
            out@ == it.seq().take(it.index() as int),
            it.seq() == s@,
    {
        out.push(c);
    }
    out
}

/// Whether `needle` stands in `hay` at position `at`.
pub fn matches_at(hay: &Vec<char>, needle: &Vec<char>, at: usize) -> (found: bool)
    ensures
        found == occurs_at(hay@, needle@, at as int),
{
    if needle.len() > hay.len() || at > hay.len() - needle.len() {
        return false;
    }
    let mut k: usize = 0;
    while k < needle.len()
        invariant
            k <= needle.len(),
            at + needle.len() <= hay.len(),
            forall|j: int| 0 <= j < k ==> hay[at + j] == needle[j],
        decreases needle.len() - k,
    {
        if hay[at + k] != needle[k] {
            assert(hay@.subrange(at as int, at + needle.len())[k as int] != needle@[k as int]);
            return false;
        }
        k += 1;
    }
    assert(hay@.subrange(at as int, at + needle.len()) =~= needle@);
    true
}

/// The leftmost position of `needle` in `hay` that is not before `from`.
pub fn find_from(hay: &Vec<char>, needle: &Vec<char>, from: usize) -> (found: Option<usize>)
    ensures
        match found {
            Some(at) => from <= at && occurs_at(hay@, needle@, at as int) && forall|j: int|
                from <= j < at ==> !occurs_at(hay@, needle@, j),
            None => forall|j: int| from <= j ==> !occurs_at(hay@, needle@, j),
        },
{
    if needle.len() > hay.len() {
        return None;
    }
    let last: usize = hay.len() - needle.len();
    let mut at: usize = from;
    while at <= last
        invariant
            last == hay.len() - needle.len(),
            from <= at,
            forall|j: int| from <= j < at ==> !occurs_at(hay@, needle@, j),
        decreases last + 1 - at,
    {
        if matches_at(hay, needle, at) {
            return Some(at);
        }
        if at == last {
            return None;
        }
        at += 1;
    }
    None
}

/// The leftmost position of `needle` in `hay`.
pub fn find(hay: &Vec<char>, needle: &Vec<char>) -> (found: Option<usize>)
    ensures
        found.is_some() == has_occurrence(hay@, needle@),
        match found {
            Some(at) => first_occurrence(hay@, needle@) == Some(at as int) && occurs_at(
                hay@,
                needle@,
                at as int,
            ),
            None => first_occurrence(hay@, needle@).is_none(),
        },
{
    let found = find_from(hay, needle, 0);
    proof {
        if let Some(at) = found {
            lemma_first_occurrence_is(hay@, needle@, at as int);
        }
    }
    found
}

/// Whether two texts are the same, character for character.
pub fn same_text(a: &str, b: &str) -> (same: bool)
    ensures
        same == (a@ == b@),
{
    a.to_owned() == b.to_owned()
}

/// Whether `needle` stands somewhere in `hay`.
pub fn contains_text(hay: &str, needle: &str) -> (found: bool)
    ensures
        found == has_occurrence(hay@, needle@),
{
    let hay_chars = chars_of(hay);
    let needle_chars = chars_of(needle);
    find(&hay_chars, &needle_chars).is_some()
}

/// Where `needle` stands in the text after position `from`, it stands in the
/// whole text, `from` places further on.
pub proof fn lemma_occurs_at_skip(hay: Seq<char>, needle: Seq<char>, from: int, at: int)
    requires
        0 <= from <= hay.len(),
        0 <= at,
    ensures
        occurs_at(hay.skip(from), needle, at) == occurs_at(hay, needle, from + at),
{
    if at + needle.len() <= hay.len() - from {
        assert(hay.skip(from).subrange(at, at + needle.len()) =~= hay.subrange(
            from + at,
            from + at + needle.len(),
        ));
    }
}

/// The end of the run of whitespace (`ws` true) or of other characters (`ws`
/// false) that starts at `from` and stays before `to`.
fn run_end(chars: &Vec<char>, from: usize, to: usize, ws: bool) -> (end: usize)
    requires
        from <= to <= chars.len(),
    ensures
        from <= end <= to,
        end - from == leading_run(chars@.subrange(from as int, to as int), ws),
{
    let mut j: usize = from;
    while j < to && is_whitespace(chars[j]) == ws
        invariant
            from <= j <= to <= chars.len(),
            leading_run(chars@.subrange(from as int, to as int), ws) == (j - from) + leading_run(
                chars@.subrange(j as int, to as int),
                ws,
            ),
        decreases to - j,
    {
        assert(chars@.subrange(j as int, to as int).drop_first() =~= chars@.subrange(
            j + 1,
            to as int,
        ));
        j += 1;
    }
    j
}

/// The start of the run of whitespace that ends at `to` and stays after
/// `from`.
fn trailing_start(chars: &Vec<char>, from: usize, to: usize) -> (start: usize)
    requires
        from <= to <= chars.len(),
    ensures
        from <= start <= to,
        to - start == trailing_white_space(chars@.subrange(from as int, to as int)),
{
    let mut j: usize = to;
    while j > from && is_whitespace(chars[j - 1])
        invariant
            from <= j <= to <= chars.len(),
            trailing_white_space(chars@.subrange(from as int, to as int)) == (to - j)
                + trailing_white_space(chars@.subrange(from as int, j as int)),
        decreases j - from,
    {
        assert(chars@.subrange(from as int, j as int).drop_last() =~= chars@.subrange(
            from as int,
            j - 1,
        ));
        j -= 1;
    }
    j
}

/// The bounds of what is left of the characters from `from` to `to` once the
/// whitespace at both ends is taken away.
pub(crate) fn trim_bounds(chars: &Vec<char>, from: usize, to: usize) -> (bounds: (usize, usize))
    requires
        from <= to <= chars.len(),
    ensures
        from <= bounds.0 <= bounds.1 <= to,
        chars@.subrange(bounds.0 as int, bounds.1 as int) == trimmed(
            chars@.subrange(from as int, to as int),
        ),
{
    let start = run_end(chars, from, to, true);
    let end = trailing_start(chars, start, to);
    proof {
        let s = chars@.subrange(from as int, to as int);
        let rest = s.skip(start - from);
        assert(rest =~= chars@.subrange(start as int, to as int));
        assert(rest.take(end - start) =~= chars@.subrange(start as int, end as int));
    }
    (start, end)
}

/// The whitespace-separated words of `s`, in order.
pub fn split_tokens(s: &str) -> (words: Vec<String>)
    ensures
        words.deep_view() == tokens(s@),
{
    let chars = chars_of(s);
    let n = chars.len();
    let mut words: Vec<String> = Vec::new();
    let mut i: usize = 0;
    proof {
        assert(s@.skip(0) =~= s@);
        assert(words.deep_view() + tokens(s@) =~= tokens(s@));
    }
    loop
        invariant
            chars@ == s@,
            n == chars.len(),
            i <= n,
            tokens(s@) == words.deep_view() + tokens(s@.skip(i as int)),
        ensures
            words.deep_view() == tokens(s@),
        decreases n - i,
    {
        let start = run_end(&chars, i, n, true);
        let end = run_end(&chars, start, n, false);
        proof {
            let rest = s@.skip(i as int).skip(start - i);
            assert(s@.skip(i as int) =~= chars@.subrange(i as int, n as int));
            assert(rest =~= chars@.subrange(start as int, n as int));
            assert(rest.take(end - start) =~= s@.subrange(start as int, end as int));
            assert(rest.skip(end - start) =~= s@.skip(end as int));
        }
        if end == start {
            assert(words.deep_view() + Seq::<Seq<char>>::empty() =~= words.deep_view());
            break ;
        }
        let ghost before = words.deep_view();
        let word = s.substring_char(start, end).to_owned();
        words.push(word);
        proof {
            let piece = s@.subrange(start as int, end as int);
            assert(words.deep_view() =~= before.push(piece));
            assert(before + (seq![piece] + tokens(s@.skip(end as int))) =~= before.push(piece)
                + tokens(s@.skip(end as int)));
        }
        i = end;
    }
    words
}

} // verus!
