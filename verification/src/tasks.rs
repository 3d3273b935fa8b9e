//! The task membership file: whitespace-separated decimal task identifiers,
//! split into tokens and parsed, with an exact account of failure.

use vstd::prelude::*;
use vstd::string::*;
use crate::text::{all_dec_digits, dec_val, is_dec_digit, parse_u64};

verus! {

/// Whether a character separates tokens in a task membership file.
pub open spec fn is_space(c: char) -> bool {
    c == ' ' || c == '\n' || c == '\t' || c == '\r'
}

/// The length of the maximal leading run of non-separator characters.
pub open spec fn token_len(s: Seq<char>) -> nat
    decreases s.len(),
{
    if s.len() == 0 || is_space(s[0]) {
        0
    } else {
        1 + token_len(s.skip(1))
    }
}

/// A leading token is never longer than the text it starts.
pub proof fn lemma_token_len_le(s: Seq<char>)
    ensures
        token_len(s) <= s.len(),
    decreases s.len(),
{
    if s.len() > 0 && !is_space(s[0]) {
        lemma_token_len_le(s.skip(1));
    }
}

/// The tokens of a text: the maximal runs of non-separator characters, in
/// order, with separators discarded.
pub open spec fn split_ws(s: Seq<char>) -> Seq<Seq<char>>
    decreases s.len(),
    via split_ws_decreases
{
    if s.len() == 0 {
        Seq::empty()
    } else if is_space(s[0]) {
        split_ws(s.skip(1))
    } else {
        seq![s.take(token_len(s) as int)] + split_ws(s.skip(token_len(s) as int))
    }
}

#[via_fn]
proof fn split_ws_decreases(s: Seq<char>) {
    if s.len() > 0 && !is_space(s[0]) {
        lemma_token_len_le(s);
    }
}

/// What parsing one token as a task identifier yields: the digits' value when
/// the token is made of decimal digits and fits the identifier type.
pub open spec fn spec_parse_task(t: Seq<char>) -> Option<i32> {
    if t.len() > 0 && all_dec_digits(t) && dec_val(t) <= i32::MAX {
        Some(dec_val(t) as i32)
    } else {
        None
    }
}

/// What parsing a whole task membership file yields: every token parsed as a
/// task identifier, or nothing at all if any token is malformed.
pub open spec fn spec_parse_tasks(s: Seq<char>) -> Option<Seq<i32>> {
    let toks = split_ws(s);
    if forall|k: int| 0 <= k < toks.len() ==> (#[trigger] spec_parse_task(toks[k])) is Some {
        Some(toks.map_values(|t: Seq<char>| spec_parse_task(t).unwrap()))
    } else {
        None
    }
}

proof fn lemma_token_len_all_digits(s: Seq<char>)
    requires
        all_dec_digits(s),
    ensures
        token_len(s) == s.len(),
    decreases s.len(),
{
    if s.len() > 0 {
        assert(is_dec_digit(s[0]));
        assert(!is_space(s[0]));
        assert forall|i: int| 0 <= i < s.skip(1).len() implies is_dec_digit(#[trigger] s.skip(1)[i]) by {
            assert(s.skip(1)[i] == s[i + 1]);
        }
        lemma_token_len_all_digits(s.skip(1));
    }
}

/// A text that is one whole digit run parses as exactly that one task.
pub proof fn lemma_single_token_tasks(s: Seq<char>)
    requires
        s.len() > 0,
        all_dec_digits(s),
        dec_val(s) <= i32::MAX,
    ensures
        spec_parse_tasks(s) == Some(seq![dec_val(s) as i32]),
{
    lemma_token_len_all_digits(s);
    assert(is_dec_digit(s[0]));
    assert(!is_space(s[0]));
    assert(s.take(s.len() as int) =~= s);
    assert(s.skip(s.len() as int) =~= Seq::<char>::empty());
    assert(split_ws(Seq::<char>::empty()) =~= Seq::<Seq<char>>::empty());
    let toks = split_ws(s);
    assert(toks =~= seq![s]);
    assert(spec_parse_task(toks[0]) == Some(dec_val(s) as i32));
    assert(toks.map_values(|t: Seq<char>| spec_parse_task(t).unwrap()) =~= seq![
        dec_val(s) as i32,
    ]);
}

/// Parses one whitespace-free token as a task identifier.
fn parse_task(t: &str) -> (r: Option<i32>)
    ensures
        r == spec_parse_task(t@),
{
    let p = parse_u64(t);
    if let Some(v) = p {
        if v <= (i32::MAX as u64) {
            return Some(v as i32);
        }
    }
    None
}

/// Splits a task membership file on whitespace and parses every token as a
/// task identifier. Returns nothing at all if any token is malformed.
pub fn parse_tasks_str(raw: &str) -> (r: Option<Vec<i32>>)
    ensures
        match spec_parse_tasks(raw@) {
            Some(ts) => r is Some && r.unwrap()@ == ts,
            None => r is None,
        },
{
    let len = raw.unicode_len();
    let mut out: Vec<i32> = Vec::new();
    let mut i: usize = 0;
    let ghost mut done: Seq<Seq<char>> = Seq::empty();
    proof {
        assert(raw@.skip(0) =~= raw@);
    }
    while i < len
        invariant
            0 <= i <= len == raw@.len(),
            split_ws(raw@) =~= done + split_ws(raw@.skip(i as int)),
            forall|k: int| 0 <= k < done.len() ==> (#[trigger] spec_parse_task(done[k])) is Some,
            out@.len() == done.len(),
            forall|k: int| 0 <= k < done.len() ==> out@[k] == spec_parse_task(#[trigger] done[k]).unwrap(),
        decreases len - i,
    {
        let c = raw.get_char(i);
        if c == ' ' || c == '\n' || c == '\t' || c == '\r' {
            proof {
                assert(raw@.skip(i as int)[0] == raw@[i as int]);
                assert(raw@.skip(i as int).skip(1) =~= raw@.skip(i + 1));
            }
            i = i + 1;
        } else {
            let ghost rest = raw@.skip(i as int);
            let mut j: usize = i;
            loop
                invariant_except_break
                    0 <= i <= j <= len == raw@.len(),
                    rest == raw@.skip(i as int),
                    token_len(rest) == (j - i) + token_len(raw@.skip(j as int)),
                ensures
                    0 <= i <= j <= len == raw@.len(),
                    token_len(rest) == j - i,
                decreases len - j,
                {
                    if j >= len {
                        proof {
                            assert(raw@.skip(j as int) =~= Seq::<char>::empty());
                        }
                        break;
                    }
                    let cj = raw.get_char(j);
                    if cj == ' ' || cj == '\n' || cj == '\t' || cj == '\r' {
                        proof {
                            assert(raw@.skip(j as int)[0] == raw@[j as int]);
                        }
                        break;
                    }
                    proof {
                        assert(raw@.skip(j as int)[0] == raw@[j as int]);
                        assert(raw@.skip(j as int).skip(1) =~= raw@.skip(j + 1));
                    }
                    j = j + 1;
                }
            proof {
                assert(rest.take((j - i) as int) =~= raw@.subrange(i as int, j as int));
                assert(rest.skip((j - i) as int) =~= raw@.skip(j as int));
                assert(split_ws(rest) =~= seq![raw@.subrange(i as int, j as int)] + split_ws(
                    raw@.skip(j as int),
                ));
            }
            let tok = raw.substring_char(i, j);
            let parsed = parse_task(tok);
            match parsed {
                None => {
                    proof {
                        let toks = split_ws(raw@);
                        assert(toks[done.len() as int] == raw@.subrange(i as int, j as int));
                        assert(spec_parse_task(toks[done.len() as int]) is None);
                    }
                    return None;
                },
                Some(pid) => {
                    out.push(pid);
                    proof {
                        done = done.push(raw@.subrange(i as int, j as int));
                        assert(split_ws(raw@) =~= done + split_ws(raw@.skip(j as int)));
                    }
                    i = j;
                },
            }
        }
    }
    proof {
        assert(raw@.skip(len as int) =~= Seq::<char>::empty());
        assert(split_ws(raw@) =~= done);
        let toks = split_ws(raw@);
        assert(out@ =~= toks.map_values(|t: Seq<char>| spec_parse_task(t).unwrap()));
    }
    Some(out)
}

} // verus!
