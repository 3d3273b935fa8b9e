//! Scalar control values: types with a faithful decimal/text form, written to
//! and read back from cgroup control files.

use vstd::prelude::*;
use vstd::string::*;
use crate::text::{
    all_dec_digits, dec_rep, dec_rep_signed, dec_val, i64_to_string, is_dec_digit, parse_u64,
    spec_parse_u64, u64_to_string,
};

verus! {

/// What parsing a decimal string as an `i64` yields: an optional leading `-`
/// ahead of the digits, with the magnitude in range.
pub open spec fn spec_parse_i64(s: Seq<char>) -> Option<i64> {
    if s.len() > 0 && s[0] == '-' {
        let mag = s.skip(1);
        if mag.len() > 0 && all_dec_digits(mag) && dec_val(mag) <= 0x8000000000000000 {
            Some((-(dec_val(mag) as int)) as i64)
        } else {
            None
        }
    } else if s.len() > 0 && all_dec_digits(s) && dec_val(s) <= i64::MAX {
        Some(dec_val(s) as i64)
    } else {
        None
    }
}

/// Parses a decimal string as an `i64`.
pub fn parse_i64(s: &str) -> (r: Option<i64>)
    ensures
        r == spec_parse_i64(s@),
{
    let len = s.unicode_len();
    if len == 0 {
        return None;
    }
    if s.get_char(0) == '-' {
        let mag = s.substring_char(1, len);
        proof {
            assert(mag@ =~= s@.skip(1));
        }
        match parse_u64(mag) {
            Some(m) if m <= 9223372036854775808u64 => {
                if m == 9223372036854775808u64 {
                    Some(i64::MIN)
                } else {
                    Some(-(m as i64))
                }
            },
            _ => None,
        }
    } else {
        match parse_u64(s) {
            Some(v) if v <= (i64::MAX as u64) => Some(v as i64),
            _ => None,
        }
    }
}

/// A value with a canonical text form, fit for a cgroup control file: writing
/// renders the value, reading parses it back, and the two are proved inverse.
pub trait Scalar: Sized {
    /// The canonical text rendering of the value.
    spec fn text_of(&self) -> Seq<char>;

    /// What parsing a text as this type yields.
    spec fn spec_parse(s: Seq<char>) -> Option<Self>;

    /// Renders the value as text.
    fn to_text(&self) -> (r: String)
        ensures
            r@ == self.text_of(),
    ;

    /// Parses a text as this type.
    fn parse_text(s: &str) -> (r: Option<Self>)
        ensures
            r == Self::spec_parse(s@),
    ;

    /// Parsing the canonical rendering gives the value back, and the
    /// rendering is never empty and never ends with a line terminator.
    proof fn lemma_text_round_trip(&self)
        ensures
            Self::spec_parse(self.text_of()) == Some(*self),
            self.text_of().len() > 0,
            self.text_of().last() != '\n',
    ;
}

impl Scalar for u64 {
    open spec fn text_of(&self) -> Seq<char> {
        dec_rep(*self as nat)
    }

    open spec fn spec_parse(s: Seq<char>) -> Option<u64> {
        spec_parse_u64(s)
    }

    fn to_text(&self) -> (r: String) {
        u64_to_string(*self)
    }

    fn parse_text(s: &str) -> (r: Option<u64>) {
        parse_u64(s)
    }

    proof fn lemma_text_round_trip(&self) {
        crate::text::lemma_dec_rep_val(*self as nat);
        let t = dec_rep(*self as nat);
        assert(is_dec_digit(t[t.len() - 1]));
    }
}

impl Scalar for i64 {
    open spec fn text_of(&self) -> Seq<char> {
        dec_rep_signed(*self as int)
    }

    open spec fn spec_parse(s: Seq<char>) -> Option<i64> {
        spec_parse_i64(s)
    }

    fn to_text(&self) -> (r: String) {
        i64_to_string(*self)
    }

    fn parse_text(s: &str) -> (r: Option<i64>) {
        parse_i64(s)
    }

    proof fn lemma_text_round_trip(&self) {
        let n = *self as int;
        if n >= 0 {
            crate::text::lemma_dec_rep_val(n as nat);
            let t = dec_rep(n as nat);
            assert(is_dec_digit(t[0]));
            assert(is_dec_digit(t[t.len() - 1]));
        } else {
            crate::text::lemma_dec_rep_val((-n) as nat);
            let t = self.text_of();
            let mag = dec_rep((-n) as nat);
            assert(t[0] == '-');
            assert(t.skip(1) =~= mag);
            assert(t.last() == mag.last());
            assert(is_dec_digit(mag[mag.len() - 1]));
        }
    }
}

impl Scalar for bool {
    open spec fn text_of(&self) -> Seq<char> {
        if *self {
            seq!['1']
        } else {
            seq!['0']
        }
    }

    open spec fn spec_parse(s: Seq<char>) -> Option<bool> {
        if s.len() == 1 && s[0] == '1' {
            Some(true)
        } else if s.len() == 1 && s[0] == '0' {
            Some(false)
        } else {
            None
        }
    }

    fn to_text(&self) -> (r: String) {
        proof {
            reveal_strlit("1");
            reveal_strlit("0");
        }
        let r = if *self {
            "1".to_owned()
        } else {
            "0".to_owned()
        };
        proof {
            assert(r@ =~= self.text_of());
        }
        r
    }

    fn parse_text(s: &str) -> (r: Option<bool>) {
        if s.unicode_len() == 1 {
            let c = s.get_char(0);
            if c == '1' {
                Some(true)
            } else if c == '0' {
                Some(false)
            } else {
                None
            }
        } else {
            None
        }
    }

    proof fn lemma_text_round_trip(&self) {
    }
}

/// The contents of a control file with a single trailing line terminator, if
/// any, removed.
pub open spec fn trim_newline(s: Seq<char>) -> Seq<char> {
    if s.len() > 0 && s.last() == '\n' {
        s.drop_last()
    } else {
        s
    }
}

/// Removes a single trailing line terminator, if any.
pub fn trim_newline_str(s: &str) -> (r: &str)
    ensures
        r@ == trim_newline(s@),
{
    let len = s.unicode_len();
    if len > 0 && s.get_char(len - 1) == '\n' {
        let r = s.substring_char(0, len - 1);
        proof {
            assert(r@ =~= s@.drop_last());
        }
        r
    } else {
        s
    }
}

/// Reading a value back after writing it returns the value that was written:
/// parsing the canonical rendering of any scalar, with or without the line
/// terminator the kernel appends on read, yields that same scalar.
pub proof fn lemma_set_get_round_trip<T: Scalar>(v: T)
    ensures
        T::spec_parse(trim_newline(v.text_of())) == Some(v),
        T::spec_parse(trim_newline(v.text_of().push('\n'))) == Some(v),
{
    v.lemma_text_round_trip();
    let t = v.text_of();
    assert(trim_newline(t) == t);
    assert(t.push('\n').last() == '\n');
    assert(t.push('\n').drop_last() =~= t);
}

} // verus!
