//! Text primitives: equality, decimal numbers, truth values and
//! comma-separated lists, each with its mathematical meaning.

use vstd::prelude::*;
use vstd::string::*;

verus! {

/// The view of a borrowed text that may be absent.
pub open spec fn text_of(v: Option<&str>) -> Option<Seq<char>> {
    match v {
        Some(s) => Some(s@),
        None => None,
    }
}

/// The view of a string that may be absent.
pub open spec fn owned_text(v: Option<String>) -> Option<Seq<char>> {
    match v {
        Some(s) => Some(s@),
        None => None,
    }
}

/// Whether two texts are the same, character for character.
pub fn same_text(a: &str, b: &str) -> (r: bool)
    ensures
        r == (a@ == b@),
{
    let n: usize = a.unicode_len();
    if b.unicode_len() != n {
        return false;
    }
    let mut i: usize = 0;
    while i < n
        invariant
            n == a@.len(),
            n == b@.len(),
            i <= n,
            a@.subrange(0, i as int) == b@.subrange(0, i as int),
        decreases n - i,
    {
        if a.get_char(i) != b.get_char(i) {
            assert(a@[i as int] != b@[i as int]);
            return false;
        }
        assert(a@.subrange(0, i + 1) =~= a@.subrange(0, i as int).push(a@[i as int]));
        assert(b@.subrange(0, i + 1) =~= b@.subrange(0, i as int).push(b@[i as int]));
        i += 1;
    }
    assert(a@ =~= a@.subrange(0, n as int));
    assert(b@ =~= b@.subrange(0, n as int));
    true
}

/// Whether a character is a decimal digit.
pub open spec fn is_digit(c: char) -> bool {
    '0' <= c && c <= '9'
}

/// The number a decimal digit stands for; 0 for any other character.
pub open spec fn digit_value(c: char) -> nat {
    if is_digit(c) {
        (c as u8 - 48) as nat
    } else {
        0
    }
}

/// Whether a text holds decimal digits only.
pub open spec fn all_digits(s: Seq<char>) -> bool {
    forall|i: int| 0 <= i < s.len() ==> is_digit(#[trigger] s[i])
}

/// The number that a run of decimal digits writes, most significant first.
pub open spec fn decimal_value(s: Seq<char>) -> nat
    decreases s.len(),
{
    if s.len() == 0 {
        0
    } else {
        decimal_value(s.drop_last()) * 10 + digit_value(s.last())
    }
}

/// The digits of a number text: the text without one leading `+`.
pub open spec fn unsigned_digits(s: Seq<char>) -> Seq<char> {
    if s.len() > 0 && s[0] == '+' {
        s.skip(1)
    } else {
        s
    }
}

/// What a text means as an unsigned 64-bit number: an optional `+`, then at
/// least one decimal digit and nothing else, with a value that fits.
pub open spec fn unsigned_of(s: Seq<char>) -> Option<u64> {
    let digits = unsigned_digits(s);
    if digits.len() > 0 && all_digits(digits) && decimal_value(digits) <= u64::MAX {
        Some(decimal_value(digits) as u64)
    } else {
        None
    }
}

/// A run of digits is worth at least as much as any run it starts with.
pub proof fn lemma_decimal_value_grows(s: Seq<char>, k: int)
    requires
        0 <= k <= s.len(),
    ensures
        decimal_value(s.subrange(0, k)) <= decimal_value(s),
    decreases s.len(),
{
    if k == s.len() {
        assert(s.subrange(0, k) =~= s);
    } else {
        lemma_decimal_value_grows(s.drop_last(), k);
        assert(s.drop_last().subrange(0, k) =~= s.subrange(0, k));
    }
}

/// Reads an unsigned 64-bit number as `unsigned_of` says.
pub fn parse_unsigned(s: &str) -> (r: Option<u64>)
    ensures
        r == unsigned_of(s@),
{
    let n: usize = s.unicode_len();
    let mut start: usize = 0;
    if n > 0 && s.get_char(0) == '+' {
        start = 1;
    }
    let ghost digits = unsigned_digits(s@);
    assert(digits =~= s@.subrange(start as int, n as int));
    if start == n {
        return None;
    }
    let mut acc: u64 = 0;
    let mut i: usize = start;
    while i < n
        invariant
            n == s@.len(),
            start <= i <= n,
            digits == unsigned_digits(s@),
            digits == s@.subrange(start as int, n as int),
            all_digits(digits.subrange(0, i - start)),
            acc == decimal_value(digits.subrange(0, i - start)),
        decreases n - i,
    {
        let c: char = s.get_char(i);
        let ghost seen = digits.subrange(0, i - start);
        let ghost next = digits.subrange(0, i + 1 - start);
        assert(next.drop_last() =~= seen);
        assert(next.last() == c);
        if !('0' <= c && c <= '9') {
            assert(!is_digit(digits[i - start]));
            return None;
        }
        let d: u64 = ((c as u8) - 48u8) as u64;
        assert(d == digit_value(c));
        assert(decimal_value(next) == acc * 10 + d);
        proof {
            lemma_decimal_value_grows(digits, i + 1 - start);
        }
        let tens: u64 = match acc.checked_mul(10) {
            Some(t) => t,
            None => {
                return None;
            },
        };
        let sum: u64 = match tens.checked_add(d) {
            Some(t) => t,
            None => {
                return None;
            },
        };
        assert forall|j: int| 0 <= j < next.len() implies is_digit(#[trigger] next[j]) by {
            if j < seen.len() {
                assert(next[j] == seen[j]);
            }
        }
        acc = sum;
        i += 1;
    }
    assert(digits.subrange(0, n - start) =~= digits);
    Some(acc)
}

/// What a text means as a truth value: `true` or `false`, spelled exactly so.
pub open spec fn truth_of(s: Seq<char>) -> Option<bool> {
    if s == "true"@ {
        Some(true)
    } else if s == "false"@ {
        Some(false)
    } else {
        None
    }
}

/// Reads a truth value as `truth_of` says.
pub fn parse_truth(s: &str) -> (r: Option<bool>)
    ensures
        r == truth_of(s@),
{
    if same_text(s, "true") {
        Some(true)
    } else if same_text(s, "false") {
        Some(false)
    } else {
        None
    }
}

/// The views of a list of strings, in order.
pub open spec fn texts(v: Seq<String>) -> Seq<Seq<char>> {
    Seq::new(v.len(), |i: int| v[i]@)
}

/// Where the first comma of a text stands; the text's length if it has none.
pub open spec fn first_comma(s: Seq<char>) -> int
    decreases s.len(),
{
    if s.len() == 0 || s[0] == ',' {
        0
    } else {
        1 + first_comma(s.drop_first())
    }
}

/// The pieces between the commas of a text, in order. A text without a
/// comma is one piece; a piece may be empty.
pub open spec fn comma_pieces(s: Seq<char>) -> Seq<Seq<char>>
    decreases s.len(),
{
    let k = first_comma(s);
    if 0 <= k < s.len() {
        seq![s.take(k)] + comma_pieces(s.skip(k + 1))
    } else {
        seq![s]
    }
}

/// What a text means as a list: nothing for the empty text, else its pieces
/// between commas, blank ones kept.
pub open spec fn comma_list(s: Seq<char>) -> Seq<Seq<char>> {
    if s.len() == 0 {
        Seq::empty()
    } else {
        comma_pieces(s)
    }
}

/// `first_comma` is the one place with a comma, or the end, before which
/// no comma stands.
pub proof fn lemma_first_comma(s: Seq<char>, k: int)
    requires
        0 <= k <= s.len(),
        forall|j: int| 0 <= j < k ==> s[j] != ',',
        k < s.len() ==> s[k] == ',',
    ensures
        first_comma(s) == k,
    decreases s.len(),
{
    if s.len() == 0 || s[0] == ',' {
    } else {
        let rest = s.drop_first();
        assert forall|j: int| 0 <= j < k - 1 implies rest[j] != ',' by {
            assert(rest[j] == s[j + 1]);
        }
        lemma_first_comma(rest, k - 1);
    }
}

/// Before `first_comma` no comma stands, and where it is not the end, a
/// comma stands there.
pub proof fn lemma_first_comma_is_first(s: Seq<char>)
    ensures
        0 <= first_comma(s) <= s.len(),
        forall|j: int| 0 <= j < first_comma(s) ==> s[j] != ',',
        first_comma(s) < s.len() ==> s[first_comma(s)] == ',',
    decreases s.len(),
{
    if s.len() == 0 || s[0] == ',' {
    } else {
        let rest = s.drop_first();
        lemma_first_comma_is_first(rest);
        assert forall|j: int| 0 <= j < first_comma(s) implies s[j] != ',' by {
            if j > 0 {
                assert(s[j] == rest[j - 1]);
            }
        }
    }
}

/// Texts put one after another with a comma between each two.
pub open spec fn comma_joined(pieces: Seq<Seq<char>>) -> Seq<char>
    decreases pieces.len(),
{
    if pieces.len() == 0 {
        Seq::empty()
    } else if pieces.len() == 1 {
        pieces[0]
    } else {
        pieces[0] + seq![','] + comma_joined(pieces.drop_first())
    }
}

/// The pieces of a text hold no comma, and joined by commas they are the
/// text again.
pub proof fn lemma_comma_pieces_rejoin(s: Seq<char>)
    ensures
        comma_pieces(s).len() >= 1,
        comma_joined(comma_pieces(s)) == s,
        forall|i: int, j: int|
            0 <= i < comma_pieces(s).len() && 0 <= j < comma_pieces(s)[i].len()
                ==> comma_pieces(s)[i][j] != ',',
    decreases s.len(),
{
    lemma_first_comma_is_first(s);
    let k = first_comma(s);
    let pieces = comma_pieces(s);
    if k < s.len() {
        let head = s.take(k);
        let tail = s.skip(k + 1);
        let rest = comma_pieces(tail);
        lemma_comma_pieces_rejoin(tail);
        assert(pieces =~= seq![head] + rest);
        assert(pieces.drop_first() =~= rest);
        assert(pieces[0] == head);
        assert(head + seq![','] + tail =~= s);
        assert forall|i: int, j: int|
            0 <= i < pieces.len() && 0 <= j < pieces[i].len() implies pieces[i][j] != ',' by {
            if i == 0 {
                assert(head[j] == s[j]);
            } else {
                assert(pieces[i] == rest[i - 1]);
            }
        }
    } else {
        assert(pieces =~= seq![s]);
    }
}

/// Splits a text as `comma_list` says.
pub fn split_commas(s: &str) -> (r: Vec<String>)
    ensures
        texts(r@) == comma_list(s@),
{
    let n: usize = s.unicode_len();
    let mut out: Vec<String> = Vec::new();
    if n == 0 {
        assert(texts(out@) =~= comma_list(s@));
        return out;
    }
    let mut start: usize = 0;
    let mut i: usize = 0;
    assert(s@.skip(0) =~= s@);
    assert(texts(out@) + comma_pieces(s@.skip(0)) =~= comma_pieces(s@));
    while i < n
        invariant
            n == s@.len(),
            start <= i <= n,
            forall|j: int| start <= j < i ==> s@[j] != ',',
            comma_pieces(s@) == texts(out@) + comma_pieces(s@.skip(start as int)),
        decreases n - i,
    {
        if s.get_char(i) == ',' {
            let piece: String = String::from_str(s.substring_char(start, i));
            proof {
                let rest = s@.skip(start as int);
                let k = i - start;
                assert forall|j: int| 0 <= j < k implies rest[j] != ',' by {
                    assert(rest[j] == s@[start + j]);
                }
                lemma_first_comma(rest, k);
                assert(rest.take(k) =~= s@.subrange(start as int, i as int));
                assert(rest.skip(k + 1) =~= s@.skip(i + 1));
                assert(texts(out@.push(piece)) =~= texts(out@) + seq![piece@]);
                assert(texts(out@) + (seq![piece@] + comma_pieces(s@.skip(i + 1)))
                    =~= texts(out@.push(piece)) + comma_pieces(s@.skip(i + 1)));
            }
            out.push(piece);
            start = i + 1;
        }
        i += 1;
    }
    let piece: String = String::from_str(s.substring_char(start, n));
    proof {
        let rest = s@.skip(start as int);
        assert forall|j: int| 0 <= j < rest.len() implies rest[j] != ',' by {
            assert(rest[j] == s@[start + j]);
        }
        lemma_first_comma(rest, rest.len() as int);
        assert(rest =~= s@.subrange(start as int, n as int));
        assert(texts(out@.push(piece)) =~= texts(out@) + seq![piece@]);
    }
    out.push(piece);
    out
}

} // verus!
