//! Text primitives: equality of strings, the tokenizer that splits a line
//! on white space, and the reading of decimal integers.

use vstd::prelude::*;
use vstd::string::*;
use vstd::utf8::*;

verus! {

/// Whether two strings hold the same characters.
pub fn text_eq(a: &str, b: &str) -> (same: bool)
    ensures
        same == (a@ == b@),
{
    let x = a.as_bytes();
    let y = b.as_bytes();
    proof {
        encode_utf8_decode_utf8(a@);
        encode_utf8_decode_utf8(b@);
    }
    if x.len() != y.len() {
        return false;
    }
    let mut i: usize = 0;
    while i < x.len()
        invariant
            i <= x.len(),
            x.len() == y.len(),
            x@ == a.spec_bytes(),
            y@ == b.spec_bytes(),
            forall|k: int| 0 <= k < i ==> x@[k] == y@[k],
        decreases x.len() - i,
    {
        if x[i] != y[i] {
            return false;
        }
        i += 1;
    }
    assert(x@ =~= y@);
    true
}

/// The characters that separate tokens: the code points that Unicode marks
/// as white space.
pub open spec fn is_whitespace(c: char) -> bool {
    let u = c as u32;
    ||| 0x09 <= u <= 0x0D
    ||| u == 0x20
    ||| u == 0x85
    ||| u == 0xA0
    ||| u == 0x1680
    ||| 0x2000 <= u <= 0x200A
    ||| u == 0x2028
    ||| u == 0x2029
    ||| u == 0x202F
    ||| u == 0x205F
    ||| u == 0x3000
}

/// Executable test for [`is_whitespace`].
pub fn is_space(c: char) -> (space: bool)
    ensures
        space == is_whitespace(c),
{
    let u: u32 = c as u32;
    (0x09 <= u && u <= 0x0D) || u == 0x20 || u == 0x85 || u == 0xA0 || u == 0x1680 || (0x2000 <= u
        && u <= 0x200A) || u == 0x2028 || u == 0x2029 || u == 0x202F || u == 0x205F || u == 0x3000
}

/// The index just past the run of non-white characters of `s` that starts
/// at `i`.
pub open spec fn word_end(s: Seq<char>, i: int) -> int
    decreases s.len() - i,
{
    if 0 <= i < s.len() && !is_whitespace(s[i]) {
        word_end(s, i + 1)
    } else {
        i
    }
}

/// The words of `s` from index `i` on, in order.
pub open spec fn words_from(s: Seq<char>, i: int) -> Seq<Seq<char>>
    decreases s.len() - i,
{
    if i < 0 || i >= s.len() {
        Seq::empty()
    } else if is_whitespace(s[i]) {
        words_from(s, i + 1)
    } else {
        proof {
            lemma_word_end_bounds(s, i);
        }
        seq![s.subrange(i, word_end(s, i))] + words_from(s, word_end(s, i))
    }
}

/// The words of a line: its maximal runs of non-white characters, in the
/// order in which they occur.
pub open spec fn words(s: Seq<char>) -> Seq<Seq<char>> {
    words_from(s, 0)
}

/// A word that starts at `i` ends after `i` and within `s`.
pub proof fn lemma_word_end_bounds(s: Seq<char>, i: int)
    requires
        0 <= i <= s.len(),
    ensures
        i <= word_end(s, i) <= s.len(),
        i < s.len() && !is_whitespace(s[i]) ==> i < word_end(s, i),
        forall|k: int| i <= k < word_end(s, i) ==> !is_whitespace(#[trigger] s[k]),
        word_end(s, i) < s.len() ==> is_whitespace(s[word_end(s, i)]),
    decreases s.len() - i,
{
    if i < s.len() && !is_whitespace(s[i]) {
        lemma_word_end_bounds(s, i + 1);
    }
}

/// Whether a string can be a token: it is not empty and holds no white
/// character.
pub open spec fn is_word(w: Seq<char>) -> bool {
    &&& w.len() > 0
    &&& forall|j: int| 0 <= j < w.len() ==> !is_whitespace(#[trigger] w[j])
}

/// Every word of a line can be a token.
pub proof fn law_words_are_solid(s: Seq<char>, i: int)
    requires
        0 <= i <= s.len(),
    ensures
        forall|k: int| 0 <= k < words_from(s, i).len() ==> is_word(#[trigger] words_from(s, i)[k]),
    decreases s.len() - i,
{
    if i < s.len() {
        if is_whitespace(s[i]) {
            law_words_are_solid(s, i + 1);
            assert(words_from(s, i) == words_from(s, i + 1));
        } else {
            lemma_word_end_bounds(s, i);
            law_words_are_solid(s, word_end(s, i));
            let head = s.subrange(i, word_end(s, i));
            let rest = words_from(s, word_end(s, i));
            assert(words_from(s, i) == seq![head] + rest);
            assert(is_word(head));
            assert forall|k: int| 0 <= k < words_from(s, i).len() implies is_word(
                #[trigger] words_from(s, i)[k],
            ) by {
                if k == 0 {
                    assert(words_from(s, i)[0] == head);
                } else {
                    assert(words_from(s, i)[k] == rest[k - 1]);
                }
            }
        }
    } else {
        assert(words_from(s, i).len() == 0);
    }
}

/// The characters of each token.
pub open spec fn texts(tokens: Seq<&str>) -> Seq<Seq<char>> {
    tokens.map_values(|t: &str| t@)
}

/// Splits a line on white space. Empty input, or input of white space only,
/// gives no token.
pub fn tokenize<'a>(line: &'a str) -> (tokens: Vec<&'a str>)
    ensures
        texts(tokens@) == words(line@),
        line@.len() == 0 ==> tokens@.len() == 0,
{
    let n = line.unicode_len();
    let mut tokens: Vec<&'a str> = Vec::new();
    let mut start: usize = 0;
    let mut inside = false;
    let mut i: usize = 0;
    assert(texts(tokens@) =~= Seq::<Seq<char>>::empty());
    for c in it: line.chars()
        invariant
            it.seq() == line@,
            n == line@.len(),
            i == it.index(),
            i <= n,
            inside ==> start < i && !is_whitespace(line@[start as int]) && word_end(
                line@,
                start as int,
            ) == word_end(line@, i as int),
            texts(tokens@) + words_from(line@, if inside { start as int } else { i as int })
                == words(line@),
    {
        assert(c == line@[i as int]);
        if is_space(c) {
            if inside {
                let ghost before = tokens@;
                let word = line.substring_char(start, i);
                tokens.push(word);
                proof {
                    assert(texts(tokens@) =~= texts(before) + seq![word@]);
                    assert(texts(before) + (seq![word@] + words_from(line@, i as int))
                        =~= texts(before) + seq![word@] + words_from(line@, i as int));
                }
                inside = false;
            }
        } else if !inside {
            start = i;
            inside = true;
        }
        i += 1;
    }
    if inside {
        let ghost before = tokens@;
        let word = line.substring_char(start, n);
        tokens.push(word);
        proof {
            assert(words_from(line@, n as int) =~= Seq::<Seq<char>>::empty());
            assert(texts(tokens@) =~= texts(before) + seq![word@]);
        }
    } else {
        assert(words_from(line@, n as int) =~= Seq::<Seq<char>>::empty());
        assert(texts(tokens@) + Seq::<Seq<char>>::empty() =~= texts(tokens@));
    }
    tokens
}

/// Why a token is not an integer of 32 bits.
#[derive(Clone, Copy, Debug, PartialEq, Eq, Structural)]
pub enum ParseError {
    /// The token is empty.
    Empty,
    /// The token is not an optional sign followed by decimal digits.
    InvalidDigit,
    /// The digits denote a number below `i32::MIN` or above `i32::MAX`.
    OutOfRange,
}

/// Whether `c` is one of the ten decimal digits.
pub open spec fn is_digit(c: char) -> bool {
    0x30 <= c as u32 <= 0x39
}

/// The number that a string of decimal digits denotes; leading zeros count
/// for nothing.
pub open spec fn decimal(digits: Seq<char>) -> int
    decreases digits.len(),
{
    if digits.len() == 0 {
        0
    } else {
        decimal(digits.drop_last()) * 10 + (digits.last() as u32 - 0x30)
    }
}

/// Whether a token begins with a sign.
pub open spec fn has_sign(s: Seq<char>) -> bool {
    s.len() > 0 && (s[0] == '+' || s[0] == '-')
}

/// What follows the optional sign of a token.
pub open spec fn magnitude(s: Seq<char>) -> Seq<char> {
    if has_sign(s) {
        s.subrange(1, s.len() as int)
    } else {
        s
    }
}

/// Whether a token is written as an integer: an optional `+` or `-`, then
/// one decimal digit or more, and nothing else.
pub open spec fn is_integer(s: Seq<char>) -> bool {
    &&& magnitude(s).len() > 0
    &&& forall|k: int| 0 <= k < magnitude(s).len() ==> is_digit(#[trigger] magnitude(s)[k])
}

/// The number that a token written as an integer denotes.
pub open spec fn integer_value(s: Seq<char>) -> int {
    if s.len() > 0 && s[0] == '-' {
        -decimal(magnitude(s))
    } else {
        decimal(magnitude(s))
    }
}

/// The reading of a token as an integer of 32 bits.
pub open spec fn parse_i32_spec(s: Seq<char>) -> Result<i32, ParseError> {
    if s.len() == 0 {
        Err(ParseError::Empty)
    } else if !is_integer(s) {
        Err(ParseError::InvalidDigit)
    } else if integer_value(s) < i32::MIN || integer_value(s) > i32::MAX {
        Err(ParseError::OutOfRange)
    } else {
        Ok(integer_value(s) as i32)
    }
}

/// Reads a token as an integer of 32 bits.
pub fn parse_i32(token: &str) -> (parsed: Result<i32, ParseError>)
    ensures
        parsed == parse_i32_spec(token@),
{
    let ghost digits = magnitude(token@);
    let ghost start: int = if has_sign(token@) {
        1
    } else {
        0
    };
    let limit: i64 = 2147483648;
    let mut total: i64 = 0;
    let mut beyond = false;
    let mut negative = false;
    let mut first = true;
    let mut seen = false;
    assert(digits =~= token@.subrange(start, token@.len() as int));
    for c in it: token.chars()
        invariant
            it.seq() == token@,
            limit == 2147483648,
            digits == magnitude(token@),
            digits == token@.subrange(start, token@.len() as int),
            start == if has_sign(token@) { 1int } else { 0int },
            first <==> it.index() == 0,
            !first ==> it.index() >= start,
            first ==> !seen && !negative && !beyond && total == 0,
            negative <==> !first && token@[0] == '-',
            seen <==> it.index() > start,
            forall|k: int| 0 <= k < it.index() - start ==> is_digit(#[trigger] digits[k]),
            !beyond && !first ==> 0 <= total <= limit && total == decimal(
                digits.subrange(0, it.index() - start),
            ),
            beyond ==> decimal(digits.subrange(0, it.index() - start)) > limit,
    {
        let ghost at = it.index();
        assert(c == token@[at]);
        if first && (c == '-' || c == '+') {
            negative = c == '-';
            proof {
                assert(digits.subrange(0, 0) =~= Seq::<char>::empty());
                assert(decimal(digits.subrange(0, 0)) == 0);
            }
        } else {
            let u: u32 = c as u32;
            if u < 0x30 || u > 0x39 {
                assert(!is_digit(digits[at - start]));
                return Err(ParseError::InvalidDigit);
            }
            proof {
                if first {
                    assert(digits.subrange(0, 0) =~= Seq::<char>::empty());
                    assert(decimal(digits.subrange(0, 0)) == 0);
                }
                let longer = digits.subrange(0, at - start + 1);
                assert(longer.drop_last() =~= digits.subrange(0, at - start));
                assert(longer.last() == c);
            }
            if !beyond {
                total = total * 10 + (u - 0x30) as i64;
                if total > limit {
                    beyond = true;
                }
            }
            seen = true;
        }
        first = false;
    }
    proof {
        assert(digits.subrange(0, token@.len() - start) =~= digits);
    }
    if first {
        Err(ParseError::Empty)
    } else if !seen {
        Err(ParseError::InvalidDigit)
    } else if beyond {
        Err(ParseError::OutOfRange)
    } else if negative {
        Ok((-total) as i32)
    } else if total == limit {
        Err(ParseError::OutOfRange)
    } else {
        Ok(total as i32)
    }
}

} // verus!
