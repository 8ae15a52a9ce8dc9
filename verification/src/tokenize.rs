//! The tokenizer: splits a raw line into a case-folded head token and a
//! sequence of argument tokens that keep their original casing.

use vstd::prelude::*;
use crate::text::{is_space, lower_chars, spec_is_space, spec_lower, str_to_chars, chars_to_string};

verus! {

/// Whitespace splitting, carrying the token collected so far.
pub open spec fn spec_split_rec(s: Seq<char>, cur: Seq<char>) -> Seq<Seq<char>>
    decreases s.len(),
{
    if s.len() == 0 {
        if cur.len() == 0 {
            Seq::empty()
        } else {
            seq![cur]
        }
    } else if spec_is_space(s[0]) {
        if cur.len() == 0 {
            spec_split_rec(s.drop_first(), Seq::empty())
        } else {
            seq![cur] + spec_split_rec(s.drop_first(), Seq::empty())
        }
    } else {
        spec_split_rec(s.drop_first(), cur.push(s[0]))
    }
}

/// The whitespace-separated tokens of a line, in order, each non-empty.
pub open spec fn spec_tokens(s: Seq<char>) -> Seq<Seq<char>> {
    spec_split_rec(s, Seq::empty())
}

/// The case-folded head token; the empty sequence when the line is empty or
/// whitespace only.
pub open spec fn spec_head(s: Seq<char>) -> Seq<char> {
    if spec_tokens(s).len() == 0 {
        Seq::empty()
    } else {
        spec_lower(spec_tokens(s)[0])
    }
}

/// The argument tokens: everything after the head, original casing kept.
pub open spec fn spec_args(s: Seq<char>) -> Seq<Seq<char>> {
    if spec_tokens(s).len() == 0 {
        Seq::empty()
    } else {
        spec_tokens(s).drop_first()
    }
}

/// Splitting a run of non-space characters appends them to the token
/// being collected and yields exactly one token.
proof fn lemma_split_rec_all_nonspace(s: Seq<char>, cur: Seq<char>)
    requires
        forall|i: int| 0 <= i < s.len() ==> !spec_is_space(s[i]),
    ensures
        spec_split_rec(s, cur) == if cur.len() + s.len() == 0 {
            Seq::<Seq<char>>::empty()
        } else {
            seq![cur + s]
        },
    decreases s.len(),
{
    if s.len() == 0 {
        if cur.len() > 0 {
            assert(cur + s =~= cur);
        }
    } else {
        let rest = s.drop_first();
        assert(forall|i: int| 0 <= i < rest.len() ==> rest[i] == s[i + 1]);
        lemma_split_rec_all_nonspace(rest, cur.push(s[0]));
        assert(cur.push(s[0]) + rest =~= cur + s);
    }
}

/// A line that is one non-empty run of non-space characters tokenizes to
/// exactly itself: the head is its case folding and there are no argument
/// tokens.
pub proof fn lemma_single_token(s: Seq<char>)
    requires
        s.len() > 0,
        forall|i: int| 0 <= i < s.len() ==> !spec_is_space(s[i]),
    ensures
        spec_tokens(s) == seq![s],
        spec_head(s) == spec_lower(s),
        spec_args(s) == Seq::<Seq<char>>::empty(),
{
    lemma_split_rec_all_nonspace(s, Seq::empty());
    assert(Seq::<char>::empty() + s =~= s);
    assert(spec_tokens(s) == seq![s]);
    assert(seq![s].drop_first() =~= Seq::<Seq<char>>::empty());
}

/// Splits a line into its whitespace-separated tokens.
pub fn split_tokens(text: &Vec<char>) -> (r: Vec<Vec<char>>)
    ensures
        r.deep_view() == spec_tokens(text@),
{
    let mut toks: Vec<Vec<char>> = Vec::new();
    let mut cur: Vec<char> = Vec::new();
    let mut i: usize = 0;
    proof {
        assert(text@.skip(0) =~= text@);
        assert(cur@ =~= Seq::<char>::empty());
        assert(toks.deep_view() + spec_split_rec(text@.skip(0), cur@) =~~= spec_tokens(text@));
    }
    while i < text.len()
        invariant
            i <= text.len(),
            spec_tokens(text@) == toks.deep_view() + spec_split_rec(
                text@.skip(i as int),
                cur@,
            ),
        decreases text.len() - i,
    {
        let ghost rem: Seq<char> = text@.skip(i as int);
        proof {
            assert(rem[0] == text@[i as int]);
            assert(rem.drop_first() =~= text@.skip(i as int + 1));
        }
        let c = text[i];
        if is_space(c) {
            if cur.len() > 0 {
                let ghost old_toks: Seq<Seq<char>> = toks.deep_view();
                let ghost done: Seq<char> = cur@;
                toks.push(cur);
                cur = Vec::new();
                proof {
                    assert(toks.deep_view() =~~= old_toks.push(done));
                    assert(spec_split_rec(rem, done) == seq![done] + spec_split_rec(
                        rem.drop_first(),
                        Seq::empty(),
                    ));
                    assert(old_toks + (seq![done] + spec_split_rec(rem.drop_first(), Seq::empty()))
                        =~= toks.deep_view() + spec_split_rec(rem.drop_first(), cur@));
                }
            } else {
                proof {
                    assert(cur@ =~= Seq::<char>::empty());
                }
            }
        } else {
            cur.push(c);
        }
        i = i + 1;
    }
    proof {
        assert(text@.skip(text@.len() as int) =~= Seq::<char>::empty());
    }
    if cur.len() > 0 {
        let ghost old_toks: Seq<Seq<char>> = toks.deep_view();
        let ghost done: Seq<char> = cur@;
        toks.push(cur);
        proof {
            assert(toks.deep_view() =~~= old_toks.push(done));
            assert(old_toks + seq![done] =~= old_toks.push(done));
        }
    } else {
        proof {
            assert(cur@ =~= Seq::<char>::empty());
            assert(toks.deep_view() + Seq::<Seq<char>>::empty() =~= toks.deep_view());
        }
    }
    toks
}

/// Splits a line into the case-folded head token and the argument tokens.
pub fn head_and_args(text: &Vec<char>) -> (r: (Vec<char>, Vec<Vec<char>>))
    ensures
        r.0@ == spec_head(text@),
        r.1.deep_view() == spec_args(text@),
{
    let mut toks = split_tokens(text);
    if toks.len() == 0 {
        (Vec::new(), Vec::new())
    } else {
        let ghost whole: Seq<Seq<char>> = toks.deep_view();
        let first = toks.remove(0);
        proof {
            assert(whole[0] =~= first@);
            assert(toks.deep_view() =~= whole.drop_first());
        }
        let head = lower_chars(&first);
        (head, toks)
    }
}

/// Splits raw text into a lower-cased head token (empty string when the
/// input is empty or whitespace only) and the remaining
/// whitespace-separated tokens with their original casing. No side effects
/// and no failures: empty input is a valid input.
pub fn tokenize(text: &str) -> (r: (String, Vec<String>))
    ensures
        r.0@ == spec_head(text@),
        r.1.deep_view() == spec_args(text@),
{
    let chars = str_to_chars(text);
    let (head, args) = head_and_args(&chars);
    let head_s = chars_to_string(&head);
    let args_s = crate::text::tokens_to_strings(&args);
    (head_s, args_s)
}

} // verus!
