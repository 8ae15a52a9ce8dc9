//! Character and string helpers shared by the tokenizer and the argument
//! parsers: whitespace classification, ASCII case folding, decimal number
//! parsing and token joining.

use vstd::prelude::*;
use vstd::string::StrSliceExecFns;

verus! {

/// The characters the tokenizer treats as token separators: the Unicode
/// `White_Space` set.
pub open spec fn spec_is_space(c: char) -> bool {
    ||| c == '\u{0009}'
    ||| c == '\u{000A}'
    ||| c == '\u{000B}'
    ||| c == '\u{000C}'
    ||| c == '\u{000D}'
    ||| c == ' '
    ||| c == '\u{0085}'
    ||| c == '\u{00A0}'
    ||| c == '\u{1680}'
    ||| ('\u{2000}' <= c && c <= '\u{200A}')
    ||| c == '\u{2028}'
    ||| c == '\u{2029}'
    ||| c == '\u{202F}'
    ||| c == '\u{205F}'
    ||| c == '\u{3000}'
}

/// Runtime counterpart of [`spec_is_space`].
pub fn is_space(c: char) -> (r: bool)
    ensures
        r == spec_is_space(c),
{
    c == '\u{0009}' || c == '\u{000A}' || c == '\u{000B}' || c == '\u{000C}' || c == '\u{000D}'
        || c == ' ' || c == '\u{0085}' || c == '\u{00A0}' || c == '\u{1680}'
        || ('\u{2000}' <= c && c <= '\u{200A}') || c == '\u{2028}' || c == '\u{2029}'
        || c == '\u{202F}' || c == '\u{205F}' || c == '\u{3000}'
}

/// ASCII case folding of a single character; everything outside `A..=Z` is
/// left unchanged. Command words are matched case-insensitively under this
/// folding.
pub open spec fn spec_lower_char(c: char) -> char {
    match c {
        'A' => 'a',
        'B' => 'b',
        'C' => 'c',
        'D' => 'd',
        'E' => 'e',
        'F' => 'f',
        'G' => 'g',
        'H' => 'h',
        'I' => 'i',
        'J' => 'j',
        'K' => 'k',
        'L' => 'l',
        'M' => 'm',
        'N' => 'n',
        'O' => 'o',
        'P' => 'p',
        'Q' => 'q',
        'R' => 'r',
        'S' => 's',
        'T' => 't',
        'U' => 'u',
        'V' => 'v',
        'W' => 'w',
        'X' => 'x',
        'Y' => 'y',
        'Z' => 'z',
        _ => c,
    }
}

/// Case folding of a whole character sequence.
pub open spec fn spec_lower(s: Seq<char>) -> Seq<char> {
    s.map_values(|c: char| spec_lower_char(c))
}

/// Runtime counterpart of [`spec_lower_char`].
pub fn lower_char(c: char) -> (r: char)
    ensures
        r == spec_lower_char(c),
{
    match c {
        'A' => 'a',
        'B' => 'b',
        'C' => 'c',
        'D' => 'd',
        'E' => 'e',
        'F' => 'f',
        'G' => 'g',
        'H' => 'h',
        'I' => 'i',
        'J' => 'j',
        'K' => 'k',
        'L' => 'l',
        'M' => 'm',
        'N' => 'n',
        'O' => 'o',
        'P' => 'p',
        'Q' => 'q',
        'R' => 'r',
        'S' => 's',
        'T' => 't',
        'U' => 'u',
        'V' => 'v',
        'W' => 'w',
        'X' => 'x',
        'Y' => 'y',
        'Z' => 'z',
        _ => c,
    }
}

/// Case folding of a character vector.
pub fn lower_chars(s: &Vec<char>) -> (r: Vec<char>)
    ensures
        r@ == spec_lower(s@),
{
    let mut out: Vec<char> = Vec::new();
    let mut i: usize = 0;
    while i < s.len()
        invariant
            i <= s.len(),
            out@ =~= spec_lower(s@).take(i as int),
        decreases s.len() - i,
    {
        out.push(lower_char(s[i]));
        i = i + 1;
    }
    proof {
        assert(out@ =~= spec_lower(s@));
    }
    out
}

/// The characters of a string slice, in order.
pub fn str_to_chars(s: &str) -> (r: Vec<char>)
    ensures
        r@ == s@,
{
    let n: usize = s.unicode_len();
    let mut out: Vec<char> = Vec::new();
    let mut i: usize = 0;
    while i < n
        invariant
            i <= n,
            n == s@.len(),
            out@ =~= s@.take(i as int),
        decreases n - i,
    {
        out.push(s.get_char(i));
        i = i + 1;
    }
    proof {
        assert(out@ =~= s@);
    }
    out
}

/// The UTF-8 byte length of a character sequence: what `String::len`
/// returns for a string holding these characters.
pub open spec fn spec_utf8_len(s: Seq<char>) -> nat {
    vstd::utf8::encode_utf8(s).len()
}

/// Relies on `String::push`: appends the given character to the end of the
/// string.
#[verifier::external_body]
pub(crate) fn push_char(s: &mut String, c: char)
    ensures
        final(s)@ == old(s)@.push(c),
{
    s.push(c)
}

/// Relies on `String::pop`: removes the last character of the string and
/// returns it, or returns `None` when the string is empty.
#[verifier::external_body]
pub(crate) fn pop_char(s: &mut String) -> (r: Option<char>)
    ensures
        old(s)@.len() == 0 ==> r is None && final(s)@ == old(s)@,
        old(s)@.len() > 0 ==> r == Some(old(s)@.last()) && final(s)@ == old(s)@.drop_last(),
{
    s.pop()
}

/// A `String` holding exactly the given characters, in order.
pub fn chars_to_string(v: &Vec<char>) -> (r: String)
    ensures
        r@ == v@,
{
    let mut out: String = String::new();
    let mut i: usize = 0;
    while i < v.len()
        invariant
            i <= v.len(),
            out@ =~= v@.take(i as int),
        decreases v.len() - i,
    {
        push_char(&mut out, v[i]);
        i = i + 1;
    }
    proof {
        assert(out@ =~= v@);
    }
    out
}

/// A fresh vector holding the same characters.
pub fn copy_chars(v: &Vec<char>) -> (r: Vec<char>)
    ensures
        r@ == v@,
{
    let mut out: Vec<char> = Vec::new();
    let mut i: usize = 0;
    while i < v.len()
        invariant
            i <= v.len(),
            out@ =~= v@.take(i as int),
        decreases v.len() - i,
    {
        out.push(v[i]);
        i = i + 1;
    }
    proof {
        assert(out@ =~= v@);
    }
    out
}

/// Whether a character vector holds exactly the characters of a string
/// slice.
pub fn chars_eq_str(v: &Vec<char>, s: &str) -> (r: bool)
    ensures
        r == (v@ == s@),
{
    let n: usize = s.unicode_len();
    if n != v.len() {
        return false;
    }
    let mut i: usize = 0;
    while i < n
        invariant
            i <= n,
            n == s@.len(),
            n == v@.len(),
            forall|j: int| 0 <= j < i ==> v@[j] == s@[j],
        decreases n - i,
    {
        if s.get_char(i) != v[i] {
            return false;
        }
        i = i + 1;
    }
    proof {
        assert(v@ =~= s@);
    }
    true
}

/// The same tokens, as strings.
pub fn tokens_to_strings(toks: &Vec<Vec<char>>) -> (r: Vec<String>)
    ensures
        r.deep_view() == toks.deep_view(),
{
    let mut out: Vec<String> = Vec::new();
    let mut i: usize = 0;
    while i < toks.len()
        invariant
            i <= toks.len(),
            out.deep_view() =~~= toks.deep_view().take(i as int),
        decreases toks.len() - i,
    {
        let s = chars_to_string(&toks[i]);
        let ghost prev: Seq<Seq<char>> = out.deep_view();
        proof {
            assert(s@ =~= toks.deep_view()[i as int]);
        }
        out.push(s);
        proof {
            assert(out.deep_view() =~~= prev.push(s@));
            assert(toks.deep_view().take(i as int + 1) =~= toks.deep_view().take(i as int).push(
                toks.deep_view()[i as int],
            ));
        }
        i = i + 1;
    }
    proof {
        assert(toks.deep_view().take(toks@.len() as int) =~= toks.deep_view());
        assert(out.deep_view() =~~= toks.deep_view());
    }
    out
}

/// Decimal digits.
pub open spec fn spec_is_digit(c: char) -> bool {
    c == '0' || c == '1' || c == '2' || c == '3' || c == '4' || c == '5' || c == '6' || c == '7'
        || c == '8' || c == '9'
}

/// The value of a decimal digit; characters outside `0..=9` count as zero,
/// but [`spec_parse_usize`] only applies this to digits.
pub open spec fn spec_digit_val(c: char) -> int {
    match c {
        '0' => 0,
        '1' => 1,
        '2' => 2,
        '3' => 3,
        '4' => 4,
        '5' => 5,
        '6' => 6,
        '7' => 7,
        '8' => 8,
        '9' => 9,
        _ => 0,
    }
}

/// The unbounded value of a digit sequence read in base ten.
pub open spec fn spec_digits_val(s: Seq<char>) -> int
    decreases s.len(),
{
    if s.len() == 0 {
        0
    } else {
        spec_digits_val(s.drop_last()) * 10 + spec_digit_val(s.last())
    }
}

/// The digit portion of a number token: everything after an optional
/// leading `+`.
pub open spec fn spec_digits_of(s: Seq<char>) -> Seq<char> {
    if s.len() > 0 && s[0] == '+' {
        s.drop_first()
    } else {
        s
    }
}

/// How `str::parse::<usize>` reads a token: an optional leading `+`, then
/// one or more decimal digits, and the value must fit in `usize`; anything
/// else is no number.
pub open spec fn spec_parse_usize(s: Seq<char>) -> Option<usize> {
    let digits = spec_digits_of(s);
    if digits.len() == 0 {
        None
    } else if !(forall|i: int| 0 <= i < digits.len() ==> spec_is_digit(digits[i])) {
        None
    } else if spec_digits_val(digits) > usize::MAX {
        None
    } else {
        Some(spec_digits_val(digits) as usize)
    }
}

proof fn lemma_digits_val_nonneg(s: Seq<char>)
    ensures
        spec_digits_val(s) >= 0,
    decreases s.len(),
{
    if s.len() > 0 {
        lemma_digits_val_nonneg(s.drop_last());
    }
}

/// Once a digit prefix exceeds a bound, the whole sequence does too.
proof fn lemma_digits_val_prefix_le(s: Seq<char>, i: int)
    requires
        0 <= i <= s.len(),
    ensures
        spec_digits_val(s.take(i)) <= spec_digits_val(s),
    decreases s.len() - i,
{
    if i == s.len() {
        assert(s.take(i) =~= s);
    } else {
        lemma_digits_val_prefix_le(s, i + 1);
        let t = s.take(i + 1);
        assert(t.drop_last() =~= s.take(i));
        lemma_digits_val_nonneg(s.take(i));
        assert(spec_digits_val(t) == spec_digits_val(s.take(i)) * 10 + spec_digit_val(t.last()));
    }
}

fn digit_val(c: char) -> (r: usize)
    requires
        spec_is_digit(c),
    ensures
        r == spec_digit_val(c),
        r <= 9,
{
    match c {
        '0' => 0,
        '1' => 1,
        '2' => 2,
        '3' => 3,
        '4' => 4,
        '5' => 5,
        '6' => 6,
        '7' => 7,
        '8' => 8,
        _ => 9,
    }
}

fn is_digit(c: char) -> (r: bool)
    ensures
        r == spec_is_digit(c),
{
    c == '0' || c == '1' || c == '2' || c == '3' || c == '4' || c == '5' || c == '6' || c == '7'
        || c == '8' || c == '9'
}

/// Runtime counterpart of [`spec_parse_usize`]: reads a token as a
/// non-negative decimal number, rejecting anything malformed or out of
/// range.
pub fn parse_usize_chars(s: &Vec<char>) -> (r: Option<usize>)
    ensures
        r == spec_parse_usize(s@),
{
    let mut start: usize = 0;
    if s.len() > 0 && s[0] == '+' {
        start = 1;
    }
    let ghost digits: Seq<char> = spec_digits_of(s@);
    proof {
        if s@.len() > 0 && s@[0] == '+' {
            assert(digits =~= s@.skip(start as int));
        } else {
            assert(digits =~= s@.skip(start as int));
        }
    }
    if start == s.len() {
        return None;
    }
    let mut acc: usize = 0;
    let mut i: usize = start;
    while i < s.len()
        invariant
            start <= i <= s.len(),
            digits == spec_digits_of(s@),
            digits == s@.skip(start as int),
            digits.len() == s@.len() - start,
            forall|j: int| 0 <= j < i - start ==> spec_is_digit(digits[j]),
            acc == spec_digits_val(digits.take(i - start)),
        decreases s.len() - i,
    {
        let c = s[i];
        if !is_digit(c) {
            proof {
                assert(digits[i - start] == s@[i as int]);
                assert(!(forall|j: int| 0 <= j < digits.len() ==> spec_is_digit(digits[j])))
                    by {
                    assert(0 <= i - start < digits.len() && !spec_is_digit(digits[i - start]));
                }
            }
            return None;
        }
        let d = digit_val(c);
        proof {
            assert(digits.take(i - start + 1).drop_last() =~= digits.take(i - start));
            assert(digits.take(i - start + 1).last() == digits[i - start]);
        }
        if acc > (usize::MAX - d) / 10 {
            // The value no longer fits; the digits that remain can only
            // grow it.
            proof {
                assert(acc * 10 + d > usize::MAX) by (nonlinear_arith)
                    requires
                        acc > (usize::MAX - d) / 10,
                        d <= 9,
                ;
                assert(digits[i - start] == s@[i as int]);
                assert(spec_digits_val(digits.take(i - start + 1)) == acc * 10 + d);
                lemma_digits_val_prefix_le(digits, i - start + 1);
                assert(spec_digits_val(digits) > usize::MAX);
            }
            return None;
        }
        proof {
            assert(acc * 10 + d <= usize::MAX) by (nonlinear_arith)
                requires
                    acc <= (usize::MAX - d) / 10,
                    d <= 9,
            ;
        }
        acc = acc * 10 + d;
        i = i + 1;
    }
    proof {
        assert(digits.take(i - start) =~= digits);
    }
    Some(acc)
}

/// The tokens joined with single spaces, the way argument paths are
/// reassembled from token lists.
pub open spec fn spec_join(toks: Seq<Seq<char>>) -> Seq<char>
    decreases toks.len(),
{
    if toks.len() == 0 {
        Seq::empty()
    } else if toks.len() == 1 {
        toks[0]
    } else {
        spec_join(toks.drop_last()) + seq![' '] + toks.last()
    }
}

/// Runtime counterpart of [`spec_join`].
pub fn join_tokens(toks: &Vec<Vec<char>>) -> (r: Vec<char>)
    ensures
        r@ == spec_join(toks.deep_view()),
{
    let mut out: Vec<char> = Vec::new();
    let mut i: usize = 0;
    while i < toks.len()
        invariant
            i <= toks.len(),
            out@ =~= spec_join(toks.deep_view().take(i as int)),
            toks.deep_view().len() == toks.len(),
            forall|j: int| 0 <= j < toks.len() ==> toks.deep_view()[j] == toks@[j]@,
        decreases toks.len() - i,
    {
        if i > 0 {
            out.push(' ');
        }
        let tok = &toks[i];
        let mut j: usize = 0;
        let ghost before: Seq<char> = out@;
        while j < tok.len()
            invariant
                j <= tok.len(),
                out@ =~= before + tok@.take(j as int),
            decreases tok.len() - j,
        {
            out.push(tok[j]);
            j = j + 1;
        }
        proof {
            let prefix = toks.deep_view().take(i + 1);
            assert(prefix.drop_last() =~= toks.deep_view().take(i as int));
            assert(prefix.last() == toks@[i as int]@);
            assert(out@ =~= before + tok@);
            if i == 0 {
                assert(out@ =~= spec_join(prefix));
            } else {
                assert(out@ =~= spec_join(prefix.drop_last()) + seq![' '] + prefix.last());
            }
        }
        i = i + 1;
    }
    proof {
        assert(toks.deep_view().take(toks@.len() as int) =~= toks.deep_view());
    }
    out
}

} // verus!
