//! Text as the probe server reads and writes it: searching a request, splitting
//! it into words, and writing numbers.

use vstd::prelude::*;
use vstd::utf8::{decode_utf8, valid_utf8};

verus! {

/// What `String::from_utf8_lossy` makes of bytes.
pub uninterp spec fn utf8_lossy(bytes: Seq<u8>) -> Seq<char>;

/// Calls `String::from_utf8_lossy`. The text is a function of the bytes alone,
/// named [`utf8_lossy`]. Of bytes that are valid UTF-8 it is the text that they
/// encode, and only malformed bytes are replaced: where the bytes begin with valid
/// UTF-8, the text begins with what that encodes and goes on with what is made of
/// the rest. What stands for malformed bytes is left to the name.
#[verifier::external_body]
pub(crate) fn decode_lossy(bytes: &[u8]) -> (text: String)
    ensures
        text@ == utf8_lossy(bytes@),
        valid_utf8(bytes@) ==> text@ == decode_utf8(bytes@),
        forall|a: Seq<u8>, b: Seq<u8>|
            #![trigger decode_utf8(a), utf8_lossy(b)]
            valid_utf8(a) && bytes@ == a + b ==> text@ == decode_utf8(a) + utf8_lossy(b),
{
    String::from_utf8_lossy(bytes).into_owned()
}

/// The characters with the Unicode property `White_Space`.
pub open spec fn is_white_space(c: char) -> bool {
    ||| '\u{9}' <= c <= '\u{d}'
    ||| c == '\u{20}'
    ||| c == '\u{85}'
    ||| c == '\u{a0}'
    ||| c == '\u{1680}'
    ||| '\u{2000}' <= c <= '\u{200a}'
    ||| c == '\u{2028}'
    ||| c == '\u{2029}'
    ||| c == '\u{202f}'
    ||| c == '\u{205f}'
    ||| c == '\u{3000}'
}

/// `char::is_whitespace` tells whether a character has the Unicode property
/// `White_Space`.
pub assume_specification[ char::is_whitespace ](c: char) -> (white: bool)
    ensures
        white == is_white_space(c),
;

/// The characters of `text`.
pub(crate) fn chars_of(text: &str) -> (chars: Vec<char>)
    ensures
        chars@ == text@,
{
    let mut chars: Vec<char> = Vec::new();
    for c in iter: text.chars()
        invariant
            chars@ == text@.take(iter.index()),
            iter.seq() == text@,
    {
        chars.push(c);
        assert(text@.take(iter.index() + 1) =~= text@.take(iter.index()).push(c));
    }
    assert(text@.take(text@.len() as int) =~= text@);
    chars
}

/// Whether `pattern` stands in `text` at `at`.
pub open spec fn occurs_at(text: Seq<char>, pattern: Seq<char>, at: int) -> bool {
    &&& 0 <= at
    &&& at + pattern.len() <= text.len()
    &&& text.subrange(at, at + pattern.len()) == pattern
}

/// Whether `text` begins with `pattern`.
pub open spec fn begins_with(text: Seq<char>, pattern: Seq<char>) -> bool {
    occurs_at(text, pattern, 0)
}

/// Whether `pattern` stands anywhere in `text`.
pub open spec fn contains_text(text: Seq<char>, pattern: Seq<char>) -> bool {
    exists|at: int| occurs_at(text, pattern, at)
}

/// Length of the word that `text` begins with: the number of characters before
/// the first white space.
pub open spec fn word_len(text: Seq<char>) -> nat
    decreases text.len(),
{
    if text.len() == 0 || is_white_space(text[0]) {
        0
    } else {
        1 + word_len(text.drop_first())
    }
}

/// The words of `text`, in order: the longest stretches without white space.
pub open spec fn words(text: Seq<char>) -> Seq<Seq<char>>
    decreases text.len(),
{
    if text.len() == 0 {
        Seq::empty()
    } else if is_white_space(text[0]) {
        words(text.drop_first())
    } else {
        proof {
            lemma_word_len(text);
        }
        seq![text.take(word_len(text) as int)] + words(text.skip(word_len(text) as int))
    }
}

/// The part of `text` before the first `mark`, and all of it if there is none.
pub open spec fn before_first(text: Seq<char>, mark: char) -> Seq<char> {
    match text.index_of_first(mark) {
        Some(at) => text.take(at),
        None => text,
    }
}

/// A decimal digit.
pub open spec fn digit(d: nat) -> char {
    seq!['0', '1', '2', '3', '4', '5', '6', '7', '8', '9'][d as int]
}

/// A number written in decimal, without leading zeros.
pub open spec fn decimal(n: nat) -> Seq<char>
    decreases n,
{
    if n < 10 {
        seq![digit(n)]
    } else {
        decimal(n / 10).push(digit(n % 10))
    }
}

/// The number that decimal digits stand for.
pub open spec fn decimal_value(digits: Seq<char>) -> int
    decreases digits.len(),
{
    if digits.len() == 0 {
        0
    } else {
        10 * decimal_value(digits.drop_last()) + (digits.last() as int - '0' as int)
    }
}

/// A word is no longer than the text that it begins.
pub proof fn lemma_word_len(text: Seq<char>)
    ensures
        word_len(text) <= text.len(),
        forall|i: int| 0 <= i < word_len(text) ==> !is_white_space(#[trigger] text[i]),
        word_len(text) < text.len() ==> is_white_space(text[word_len(text) as int]),
    decreases text.len(),
{
    if text.len() != 0 && !is_white_space(text[0]) {
        let rest = text.drop_first();
        lemma_word_len(rest);
        assert forall|i: int| 0 <= i < word_len(text) implies !is_white_space(
            #[trigger] text[i],
        ) by {
            if i > 0 {
                assert(text[i] == rest[i - 1]);
            }
        }
    }
}

/// Whether `text` begins with `pattern`.
pub(crate) fn starts_with(text: &Vec<char>, pattern: &Vec<char>) -> (found: bool)
    ensures
        found == begins_with(text@, pattern@),
{
    matches_at(text, pattern, 0)
}

/// Whether `pattern` stands in `text` at `at`.
fn matches_at(text: &Vec<char>, pattern: &Vec<char>, at: usize) -> (found: bool)
    requires
        at <= text.len(),
    ensures
        found == occurs_at(text@, pattern@, at as int),
{
    if text.len() - at < pattern.len() {
        return false;
    }
    let mut i: usize = 0;
    while i < pattern.len()
        invariant
            i <= pattern.len(),
            at + pattern.len() <= text.len(),
            forall|j: int| 0 <= j < i ==> text[at + j] == pattern[j],
        decreases pattern.len() - i,
    {
        if text[at + i] != pattern[i] {
            proof {
                let part = text@.subrange(at as int, at + pattern.len());
                assert(part[i as int] == text[at + i]);
            }
            return false;
        }
        i += 1;
    }
    assert(text@.subrange(at as int, at + pattern.len()) =~= pattern@);
    true
}

/// Whether `pattern` stands anywhere in `text`.
pub(crate) fn contains(text: &Vec<char>, pattern: &Vec<char>) -> (found: bool)
    ensures
        found == contains_text(text@, pattern@),
{
    let mut at: usize = 0;
    while at < text.len()
        invariant
            at <= text.len(),
            forall|i: int| 0 <= i < at ==> !occurs_at(text@, pattern@, i),
        decreases text.len() - at,
    {
        if matches_at(text, pattern, at) {
            return true;
        }
        at += 1;
    }
    matches_at(text, pattern, at)
}

/// Whether `c` stands anywhere in `text`.
pub(crate) fn contains_char(text: &Vec<char>, c: char) -> (found: bool)
    ensures
        found == text@.contains(c),
{
    let mut i: usize = 0;
    while i < text.len()
        invariant
            i <= text.len(),
            forall|j: int| 0 <= j < i ==> text[j] != c,
        decreases text.len() - i,
    {
        if text[i] == c {
            return true;
        }
        i += 1;
    }
    false
}

/// The word of `text` with `n` words before it, if there is one.
pub(crate) fn nth_word(text: &Vec<char>, n: usize) -> (word: Option<Vec<char>>)
    ensures
        match word {
            Some(word) => n < words(text@).len() && word@ == words(text@)[n as int],
            None => words(text@).len() <= n,
        },
{
    let ghost all = words(text@);
    let mut left: usize = n;
    let mut at: usize = 0;
    assert(text@.skip(0) =~= text@);
    loop
        invariant
            at <= text.len(),
            left <= n,
            all == words(text@),
            all.len() == (n - left) + words(text@.skip(at as int)).len(),
            forall|k: int|
                0 <= k < words(text@.skip(at as int)).len() ==> all[n - left + k] == words(
                    text@.skip(at as int),
                )[k],
        decreases text.len() - at,
    {
        let ghost rest = words(text@.skip(at as int));
        let ghost from = at;
        while at < text.len() && text[at].is_whitespace()
            invariant
                from <= at <= text.len(),
                rest == words(text@.skip(at as int)),
            decreases text.len() - at,
        {
            assert(text@.skip(at as int).drop_first() =~= text@.skip(at + 1));
            assert(text@.skip(at as int)[0] == text[at as int]);
            at += 1;
        }
        if at == text.len() {
            assert(text@.skip(at as int).len() == 0);
            return None;
        }
        let ghost tail = text@.skip(at as int);
        let mut word: Vec<char> = Vec::new();
        let start: usize = at;
        proof {
            assert(tail[0] == text[at as int]);
            lemma_word_len(tail);
        }
        while at < text.len() && !text[at].is_whitespace()
            invariant
                start <= at <= text.len(),
                tail == text@.skip(start as int),
                word@ == text@.subrange(start as int, at as int),
                word_len(tail) == (at - start) + word_len(text@.skip(at as int)),
            decreases text.len() - at,
        {
            let ghost here = text@.skip(at as int);
            assert(here[0] == text[at as int]);
            assert(here.drop_first() =~= text@.skip(at + 1));
            word.push(text[at]);
            assert(text@.subrange(start as int, at + 1) =~= text@.subrange(
                start as int,
                at as int,
            ).push(text[at as int]));
            at += 1;
        }
        proof {
            let here = text@.skip(at as int);
            if at < text.len() {
                assert(here[0] == text[at as int]);
            }
            assert(word_len(here) == 0);
            assert(tail.take(word_len(tail) as int) =~= word@);
            assert(tail.skip(word_len(tail) as int) =~= here);
            assert(rest == seq![word@] + words(here));
            assert(rest[0] == word@);
            assert(all[n - left + 0] == rest[0]);
            assert forall|k: int| 0 <= k < words(here).len() implies all[n - left + 1 + k] == words(
                here,
            )[k] by {
                assert(all[n - left + (k + 1)] == rest[k + 1]);
            }
        }
        if left == 0 {
            return Some(word);
        }
        left -= 1;
    }
}

/// The part of `text` before the first `mark`, and all of it if there is none.
pub(crate) fn up_to(text: &Vec<char>, mark: char) -> (part: Vec<char>)
    ensures
        part@ == before_first(text@, mark),
{
    let mut part: Vec<char> = Vec::new();
    let mut i: usize = 0;
    while i < text.len() && text[i] != mark
        invariant
            i <= text.len(),
            part@ == text@.take(i as int),
            forall|j: int| 0 <= j < i ==> text[j] != mark,
        decreases text.len() - i,
    {
        part.push(text[i]);
        assert(text@.take(i + 1) =~= text@.take(i as int).push(text[i as int]));
        i += 1;
    }
    proof {
        text@.index_of_first_ensures(mark);
        if i < text.len() {
            assert(text@.contains(text[i as int]));
        } else {
            assert(text@.take(i as int) =~= text@);
        }
    }
    part
}

/// Whether `a` and `b` are the same text.
pub(crate) fn same_text(a: &Vec<char>, b: &Vec<char>) -> (same: bool)
    ensures
        same == (a@ == b@),
{
    if a.len() != b.len() {
        return false;
    }
    let same = matches_at(a, b, 0);
    assert(a@.subrange(0, b.len() as int) =~= a@);
    same
}

/// The text of a decimal digit.
fn digit_text(d: usize) -> (text: &'static str)
    requires
        d < 10,
    ensures
        text@ == seq![digit(d as nat)],
{
    proof {
        reveal_strlit("0");
        reveal_strlit("1");
        reveal_strlit("2");
        reveal_strlit("3");
        reveal_strlit("4");
        reveal_strlit("5");
        reveal_strlit("6");
        reveal_strlit("7");
        reveal_strlit("8");
        reveal_strlit("9");
    }
    match d {
        0 => "0",
        1 => "1",
        2 => "2",
        3 => "3",
        4 => "4",
        5 => "5",
        6 => "6",
        7 => "7",
        8 => "8",
        _ => "9",
    }
}

/// `n` written in decimal.
pub(crate) fn decimal_text(n: usize) -> (text: String)
    ensures
        text@ == decimal(n as nat),
    decreases n,
{
    let mut text = if n < 10 {
        String::new()
    } else {
        decimal_text(n / 10)
    };
    text.append(digit_text(n % 10));
    text
}

/// Law: a number can be read back from its decimal writing.
pub proof fn law_decimal_reads_back(n: nat)
    ensures
        decimal_value(decimal(n)) == n,
    decreases n,
{
    if n < 10 {
        assert(decimal(n).drop_last() =~= Seq::<char>::empty());
        assert(decimal_value(decimal(n)) == digit(n) as int - '0' as int) by {
            reveal_with_fuel(decimal_value, 2);
        }
    } else {
        law_decimal_reads_back(n / 10);
        assert(decimal(n).drop_last() =~= decimal(n / 10));
    }
}

/// Law: white space is the twenty-five characters with these code points.
pub proof fn law_white_space_code_points(c: char)
    ensures
        is_white_space(c) <==> {
            let n = c as u32;
            ||| n == 9 || n == 10 || n == 11 || n == 12 || n == 13
            ||| n == 32
            ||| n == 133
            ||| n == 160
            ||| n == 5760
            ||| 8192 <= n <= 8202
            ||| n == 8232 || n == 8233
            ||| n == 8239
            ||| n == 8287
            ||| n == 12288
        },
{
}

/// Law: the last digit of a number is what it leaves modulo ten, and the digits
/// before it are those of a tenth of it; a number under ten has no other digit.
pub proof fn law_decimal_digit_by_digit(n: nat)
    ensures
        decimal(n).len() > 0,
        decimal(n).last() as int == '0' as int + n % 10,
        decimal(n).drop_last() == (if n < 10 {
            Seq::<char>::empty()
        } else {
            decimal(n / 10)
        }),
{
    if n < 10 {
        assert(decimal(n).drop_last() =~= Seq::<char>::empty());
    } else {
        assert(decimal(n).drop_last() =~= decimal(n / 10));
    }
}

} // verus!
