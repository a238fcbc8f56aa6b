//! Text shortening for table cells: a string over the cell width is cut
//! and ends in an ellipsis. Wrapping text onto several lines is left to the
//! view layer's wrapping collaborator.

use vstd::prelude::*;
use vstd::string::StringExecFns;

use crate::input::push_char;

verus! {

/// `s` unchanged while it fits `limit`, else its first `limit - 3` scalar
/// values followed by three dots.
pub open spec fn truncate_ellipse_spec(s: Seq<char>, limit: int) -> Seq<char> {
    if s.len() <= limit {
        s
    } else {
        s.subrange(0, limit - 3) + seq!['.', '.', '.']
    }
}

/// Shorten `string` to at most `len` scalar values, ending in an ellipsis
/// when it was cut. A width under three cannot hold an ellipsis, so such a
/// width is only allowed for strings it does not cut.
pub fn truncate_ellipse(string: &str, len: usize) -> (r: String)
    requires
        string@.len() <= len || len >= 3,
    ensures
        r@ == truncate_ellipse_spec(string@, len as int),
{
    let n = string.unicode_len();
    if n <= len {
        return String::from_str(string);
    }
    let keep = len - 3;
    let mut r = String::new();
    let mut i: usize = 0;
    while i < keep
        invariant
            i <= keep <= n == string@.len(),
            r@ == string@.subrange(0, i as int),
        decreases keep - i,
    {
        push_char(&mut r, string.get_char(i));
        proof {
            assert(r@ =~= string@.subrange(0, i + 1));
        }
        i += 1;
    }
    push_char(&mut r, '.');
    push_char(&mut r, '.');
    push_char(&mut r, '.');
    proof {
        assert(r@ =~= truncate_ellipse_spec(string@, len as int));
    }
    r
}

} // verus!
