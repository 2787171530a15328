//! Shortening of wallet addresses and identifiers for display.

use vstd::prelude::*;
use crate::text::{chars_of, push_range, string_from_chars};

verus! {

/// The ellipsis placed between the kept head and tail of a long address.
pub open spec fn ellipsis() -> char {
    '\u{2026}'
}

/// An address of at least ten characters is shown as its first six
/// characters, an ellipsis and its last four; a shorter one is shown whole.
pub open spec fn truncated(addr: Seq<char>) -> Seq<char> {
    if addr.len() >= 10 {
        addr.subrange(0, 6) + seq![ellipsis()] + addr.subrange(addr.len() - 4, addr.len() as int)
    } else {
        addr
    }
}

/// Shortens `addr` for display (see `truncated`).
pub fn truncate_address(addr: &str) -> (r: String)
    ensures
        r@ == truncated(addr@),
{
    let chars = chars_of(addr);
    let n = chars.len();
    if n >= 10 {
        let mut out: Vec<char> = Vec::new();
        push_range(&mut out, &chars, 0, 6);
        out.push('\u{2026}');
        push_range(&mut out, &chars, n - 4, n);
        string_from_chars(&out)
    } else {
        string_from_chars(&chars)
    }
}

/// A long address is shown in eleven characters that keep its first six and
/// last four; a short one is shown unchanged.
pub proof fn law_truncation_shape(addr: Seq<char>)
    ensures
        addr.len() >= 10 ==> {
            let t = truncated(addr);
            &&& t.len() == 11
            &&& t.subrange(0, 6) == addr.subrange(0, 6)
            &&& t[6] == '\u{2026}'
            &&& t.subrange(7, 11) == addr.subrange(addr.len() - 4, addr.len() as int)
        },
        addr.len() < 10 ==> truncated(addr) == addr,
{
    if addr.len() >= 10 {
        let t = truncated(addr);
        assert(t.subrange(0, 6) =~= addr.subrange(0, 6));
        assert(t.subrange(7, 11) =~= addr.subrange(addr.len() - 4, addr.len() as int));
    }
}

} // verus!
