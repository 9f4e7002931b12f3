//! Character-level text utilities: string equality proved against the
//! string views, and the cosmetic normalisation applied to assistant
//! replies before they are shown.

use vstd::prelude::*;
use vstd::string::StrSliceExecFns;

verus! {

/// `s` with every tab character replaced by a space.
pub open spec fn replace_tabs(s: Seq<char>) -> Seq<char> {
    s.map_values(|c: char| if c == '\t' { ' ' } else { c })
}

/// `s` with each leftmost, non-overlapping pair of consecutive newlines
/// collapsed to a single newline, scanning left to right.
pub open spec fn collapse_double_newlines(s: Seq<char>) -> Seq<char>
    decreases s.len(),
{
    if s.len() >= 2 && s[0] == '\n' && s[1] == '\n' {
        seq!['\n'] + collapse_double_newlines(s.skip(2))
    } else if s.len() >= 1 {
        seq![s[0]] + collapse_double_newlines(s.skip(1))
    } else {
        Seq::empty()
    }
}

/// The cosmetic cleanup applied to a successful reply: tabs become spaces,
/// then doubled newlines collapse to one.
pub open spec fn normalized(s: Seq<char>) -> Seq<char> {
    collapse_double_newlines(replace_tabs(s))
}

/// Relies on `String: FromIterator<&char>`: collecting characters yields
/// the string made of exactly those characters, in order.
#[verifier::external_body]
fn string_from_chars(chars: &Vec<char>) -> (r: String)
    ensures
        r@ == chars@,
{
    chars.iter().collect()
}

/// Character-wise string equality.
pub fn str_eq(a: &str, b: &str) -> (r: bool)
    ensures
        r == (a@ == b@),
{
    let a_len = a.unicode_len();
    let b_len = b.unicode_len();
    if a_len != b_len {
        return false;
    }
    let mut i: usize = 0;
    while i < a_len
        invariant
            a@.len() == a_len,
            b@.len() == a_len,
            i <= a_len,
            forall|j: int| 0 <= j < i ==> a@[j] == b@[j],
        decreases a_len - i,
    {
        if a.get_char(i) != b.get_char(i) {
            return false;
        }
        i += 1;
    }
    proof {
        assert(a@ =~= b@);
    }
    true
}

/// Cleans up a reply for display: tabs become spaces and doubled newlines
/// collapse to one, exactly as `normalized` describes.
pub fn normalize_response(text: &str) -> (r: String)
    ensures
        r@ == normalized(text@),
{
    let ghost rep = replace_tabs(text@);
    let n = text.unicode_len();
    let mut out: Vec<char> = Vec::new();
    let mut i: usize = 0;
    proof {
        assert(rep.skip(0) =~= rep);
    }
    while i < n
        invariant
            n == text@.len(),
            rep == replace_tabs(text@),
            i <= n,
            out@ + collapse_double_newlines(rep.skip(i as int)) == normalized(text@),
        decreases n - i,
    {
        let c = text.get_char(i);
        if c == '\n' && i + 1 < n && text.get_char(i + 1) == '\n' {
            out.push('\n');
            proof {
                assert(rep.skip(i as int).skip(2) =~= rep.skip(i as int + 2));
                assert(collapse_double_newlines(rep.skip(i as int)) == seq!['\n']
                    + collapse_double_newlines(rep.skip(i as int + 2)));
                assert(out@ + collapse_double_newlines(rep.skip(i as int + 2)) =~= normalized(
                    text@,
                ));
            }
            i += 2;
        } else {
            let cc = if c == '\t' {
                ' '
            } else {
                c
            };
            out.push(cc);
            proof {
                assert(cc == rep.skip(i as int)[0]);
                assert(rep.skip(i as int).skip(1) =~= rep.skip(i as int + 1));
                assert(collapse_double_newlines(rep.skip(i as int)) == seq![cc]
                    + collapse_double_newlines(rep.skip(i as int + 1)));
                assert(out@ + collapse_double_newlines(rep.skip(i as int + 1)) =~= normalized(
                    text@,
                ));
            }
            i += 1;
        }
    }
    proof {
        assert(rep.skip(n as int) =~= Seq::<char>::empty());
        assert(out@ =~= normalized(text@));
    }
    string_from_chars(&out)
}

} // verus!
