//! The account list of a program invocation, typed one public key per line.

use vstd::prelude::*;
use crate::text::{chars_of, push_range, string_from_chars};

verus! {

/// Unicode `White_Space`, the characters std's `char::is_whitespace` accepts.
pub open spec fn is_ws(c: char) -> bool {
    let u = c as u32;
    ||| 0x9 <= u <= 0xD
    ||| u == 0x20
    ||| u == 0x85
    ||| u == 0xA0
    ||| u == 0x1680
    ||| 0x2000 <= u <= 0x200A
    ||| u == 0x2028
    ||| u == 0x2029
    ||| u == 0x202F
    ||| u == 0x205F
    ||| u == 0x3000
}

/// Whether `c` is white space (see `is_ws`).
pub fn is_whitespace(c: char) -> (b: bool)
    ensures
        b == is_ws(c),
{
    let u = c as u32;
    (0x9 <= u && u <= 0xD) || u == 0x20 || u == 0x85 || u == 0xA0 || u == 0x1680 || (0x2000 <= u
        && u <= 0x200A) || u == 0x2028 || u == 0x2029 || u == 0x202F || u == 0x205F || u == 0x3000
}

/// `s` without leading white space.
pub open spec fn trim_start(s: Seq<char>) -> Seq<char>
    decreases s.len(),
{
    if s.len() > 0 && is_ws(s[0]) {
        trim_start(s.drop_first())
    } else {
        s
    }
}

/// `s` without trailing white space.
pub open spec fn trim_end(s: Seq<char>) -> Seq<char>
    decreases s.len(),
{
    if s.len() > 0 && is_ws(s.last()) {
        trim_end(s.drop_last())
    } else {
        s
    }
}

/// `s` without white space at either end, as `str::trim` gives it.
pub open spec fn trim(s: Seq<char>) -> Seq<char> {
    trim_end(trim_start(s))
}

/// The pieces of `s` between line feeds (one more piece than line feeds).
pub open spec fn pieces(s: Seq<char>) -> Seq<Seq<char>>
    decreases s.len(),
{
    if s.len() == 0 {
        seq![Seq::empty()]
    } else {
        let prev = pieces(s.drop_last());
        if s.last() == '\n' {
            prev.push(Seq::empty())
        } else {
            prev.update(prev.len() - 1, prev.last().push(s.last()))
        }
    }
}

/// Each line trimmed, blank lines dropped.
pub open spec fn kept_lines(lines: Seq<Seq<char>>) -> Seq<Seq<char>>
    decreases lines.len(),
{
    if lines.len() == 0 {
        Seq::empty()
    } else {
        let rest = kept_lines(lines.drop_last());
        let t = trim(lines.last());
        if t.len() > 0 {
            rest.push(t)
        } else {
            rest
        }
    }
}

/// The account keys typed in `raw`: every line, trimmed, that is not blank.
pub open spec fn account_list(raw: Seq<char>) -> Seq<Seq<char>> {
    kept_lines(pieces(raw))
}

/// `v` without white space at either end.
pub fn trim_chars(v: &Vec<char>) -> (r: Vec<char>)
    ensures
        r@ == trim(v@),
{
    let n = v.len();
    let mut i: usize = 0;
    assert(v@.subrange(0, n as int) =~= v@);
    while i < n && is_whitespace(v[i as usize])
        invariant
            n == v@.len(),
            i <= n,
            trim_start(v@) == trim_start(v@.subrange(i as int, n as int)),
        decreases n - i,
    {
        assert(v@.subrange(i as int, n as int).drop_first() =~= v@.subrange(i + 1, n as int));
        i = i + 1;
    }
    assert(trim_start(v@.subrange(i as int, n as int)) == v@.subrange(i as int, n as int));
    let mut j: usize = n;
    while j > i && is_whitespace(v[j - 1])
        invariant
            n == v@.len(),
            i <= j <= n,
            trim(v@) == trim_end(v@.subrange(i as int, j as int)),
        decreases j,
    {
        assert(v@.subrange(i as int, j as int).drop_last() =~= v@.subrange(i as int, j - 1));
        j = j - 1;
    }
    assert(trim_end(v@.subrange(i as int, j as int)) == v@.subrange(i as int, j as int));
    let mut r: Vec<char> = Vec::new();
    push_range(&mut r, v, i, j);
    assert(r@ =~= v@.subrange(i as int, j as int));
    r
}

pub open spec fn string_views(v: Seq<String>) -> Seq<Seq<char>> {
    v.map_values(|s: String| s@)
}

/// Splits the account field of the invoke form into account keys (see
/// `account_list`).
pub fn parse_account_list(raw: &str) -> (r: Vec<String>)
    ensures
        string_views(r@) == account_list(raw@),
{
    let c = chars_of(raw);
    let n = c.len();
    let mut out: Vec<String> = Vec::new();
    let mut cur: Vec<char> = Vec::new();
    let mut i: usize = 0;
    assert(c@.subrange(0, 0) =~= Seq::<char>::empty());
    assert(pieces(Seq::<char>::empty()).drop_last() =~= Seq::<Seq<char>>::empty());
    while i < n
        invariant
            c@ == raw@,
            n == c@.len(),
            i <= n,
            pieces(c@.subrange(0, i as int)).len() >= 1,
            cur@ == pieces(c@.subrange(0, i as int)).last(),
            string_views(out@) == kept_lines(pieces(c@.subrange(0, i as int)).drop_last()),
        decreases n - i,
    {
        let ghost before = c@.subrange(0, i as int);
        let ghost after = c@.subrange(0, i + 1);
        assert(after.drop_last() =~= before);
        assert(after.last() == c@[i as int]);
        let ch = c[i];
        if ch == '\n' {
            let t = trim_chars(&cur);
            proof {
                let p = pieces(before);
                assert(pieces(after) == p.push(Seq::<char>::empty()));
                assert(pieces(after).drop_last() =~= p);
                assert(p.drop_last().push(p.last()) =~= p);
            }
            if t.len() > 0 {
                out.push(string_from_chars(&t));
                assert(string_views(out@) =~= string_views(out@).drop_last().push(t@));
            }
            cur = Vec::new();
        } else {
            cur.push(ch);
            proof {
                let p = pieces(before);
                assert(pieces(after) == p.update(p.len() - 1, p.last().push(ch)));
                assert(pieces(after).drop_last() =~= p.drop_last());
            }
        }
        i = i + 1;
    }
    assert(c@.subrange(0, n as int) =~= c@);
    let t = trim_chars(&cur);
    proof {
        let p = pieces(c@);
        assert(p.drop_last().push(p.last()) =~= p);
    }
    if t.len() > 0 {
        out.push(string_from_chars(&t));
        assert(string_views(out@) =~= string_views(out@).drop_last().push(t@));
    }
    out
}

proof fn lemma_trim_ends(s: Seq<char>)
    ensures
        trim(s).len() > 0 ==> !is_ws(trim(s)[0]) && !is_ws(trim(s).last()),
        forall|k: int| 0 <= k < trim(s).len() ==> exists|m: int| 0 <= m < s.len() && #[trigger] trim(s)[k] == s[m],
    decreases s.len(),
{
    lemma_trim_start(s);
    lemma_trim_end(trim_start(s));
    let a = trim_start(s);
    let b = trim_end(a);
    if b.len() > 0 {
        assert(b[0] == a[0]);
    }
    assert forall|k: int| 0 <= k < b.len() implies exists|m: int| 0 <= m < s.len() && #[trigger] b[k] == s[m] by {
        assert(b[k] == a[k]);
        let m = choose|m: int| 0 <= m < s.len() && a[k] == s[m];
    }
}

proof fn lemma_trim_start(s: Seq<char>)
    ensures
        trim_start(s).len() > 0 ==> !is_ws(trim_start(s)[0]),
        trim_start(s).len() <= s.len(),
        trim_start(s) == s.subrange(s.len() - trim_start(s).len(), s.len() as int),
        forall|k: int| 0 <= k < trim_start(s).len() ==> exists|m: int| 0 <= m < s.len() && #[trigger] trim_start(s)[k] == s[m],
    decreases s.len(),
{
    if s.len() > 0 && is_ws(s[0]) {
        lemma_trim_start(s.drop_first());
        let t = trim_start(s.drop_first());
        assert(s.drop_first().subrange(s.len() - 1 - t.len(), s.len() - 1) =~= s.subrange(s.len() - t.len(), s.len() as int));
        assert forall|k: int| 0 <= k < t.len() implies exists|m: int| 0 <= m < s.len() && #[trigger] t[k] == s[m] by {
            let m = choose|m: int| 0 <= m < s.drop_first().len() && t[k] == s.drop_first()[m];
            assert(s.drop_first()[m] == s[m + 1]);
        }
    } else {
        assert(s.subrange(0, s.len() as int) =~= s);
        assert forall|k: int| 0 <= k < s.len() implies exists|m: int| 0 <= m < s.len() && #[trigger] s[k] == s[m] by {}
    }
}

proof fn lemma_trim_end(s: Seq<char>)
    ensures
        trim_end(s).len() > 0 ==> !is_ws(trim_end(s).last()),
        trim_end(s) == s.subrange(0, trim_end(s).len() as int),
        trim_end(s).len() <= s.len(),
    decreases s.len(),
{
    if s.len() > 0 && is_ws(s.last()) {
        lemma_trim_end(s.drop_last());
        let t = trim_end(s.drop_last());
        assert(s.drop_last().subrange(0, t.len() as int) =~= s.subrange(0, t.len() as int));
    } else {
        assert(s.subrange(0, s.len() as int) =~= s);
    }
}

proof fn lemma_pieces_no_newline(s: Seq<char>)
    ensures
        pieces(s).len() >= 1,
        forall|i: int, j: int|
            0 <= i < pieces(s).len() && 0 <= j < pieces(s)[i].len() ==> #[trigger] pieces(s)[i][j]
                != '\n',
    decreases s.len(),
{
    if s.len() > 0 {
        lemma_pieces_no_newline(s.drop_last());
        let prev = pieces(s.drop_last());
        if s.last() != '\n' {
            let p = pieces(s);
            assert forall|i: int, j: int| 0 <= i < p.len() && 0 <= j < p[i].len() implies #[trigger] p[i][j] != '\n' by {
                if i == p.len() - 1 {
                    if j < prev.last().len() {
                        assert(p[i][j] == prev[i][j]);
                    }
                } else {
                    assert(p[i] == prev[i]);
                }
            }
        } else {
            let p = pieces(s);
            assert forall|i: int, j: int| 0 <= i < p.len() && 0 <= j < p[i].len() implies #[trigger] p[i][j] != '\n' by {
                assert(p[i] == prev[i]);
            }
        }
    }
}

proof fn lemma_kept_lines(lines: Seq<Seq<char>>)
    ensures
        forall|k: int|
            0 <= k < kept_lines(lines).len() ==> exists|m: int|
                0 <= m < lines.len() && #[trigger] kept_lines(lines)[k] == trim(lines[m]),
        forall|k: int| 0 <= k < kept_lines(lines).len() ==> #[trigger] kept_lines(lines)[k].len() > 0,
    decreases lines.len(),
{
    if lines.len() > 0 {
        let init = lines.drop_last();
        lemma_kept_lines(init);
        let r = kept_lines(lines);
        let rest = kept_lines(init);
        assert forall|k: int| 0 <= k < r.len() implies exists|m: int| 0 <= m < lines.len() && #[trigger] r[k] == trim(lines[m]) by {
            if k < rest.len() {
                assert(r[k] == rest[k]);
                let m = choose|m: int| 0 <= m < init.len() && rest[k] == trim(init[m]);
                assert(init[m] == lines[m]);
            } else {
                assert(r[k] == trim(lines[lines.len() - 1]));
            }
        }
        assert forall|k: int| 0 <= k < r.len() implies #[trigger] r[k].len() > 0 by {
            if k < rest.len() {
                assert(r[k] == rest[k]);
            }
        }
    }
}

/// Every account key read from the form is non-blank, starts and ends with
/// a non-space character, and lies within a single line.
pub proof fn law_accounts_are_clean(raw: Seq<char>, k: int)
    requires
        0 <= k < account_list(raw).len(),
    ensures
        account_list(raw)[k].len() > 0,
        !is_ws(account_list(raw)[k][0]),
        !is_ws(account_list(raw)[k].last()),
        !account_list(raw)[k].contains('\n'),
{
    let ls = pieces(raw);
    lemma_kept_lines(ls);
    lemma_pieces_no_newline(raw);
    let a = account_list(raw)[k];
    let m = choose|m: int| 0 <= m < ls.len() && a == trim(ls[m]);
    lemma_trim_ends(ls[m]);
    if a.contains('\n') {
        let j = choose|j: int| 0 <= j < a.len() && a[j] == '\n';
        let q = choose|q: int| 0 <= q < ls[m].len() && #[trigger] trim(ls[m])[j] == ls[m][q];
        assert(ls[m][q] != '\n');
    }
}

/// Spaces, tabs, carriage returns, line feeds and no-break spaces are white
/// space; ASCII letters, digits and the punctuation of keys are not.
pub proof fn law_white_space_classes(c: char)
    ensures
        is_ws(' ') && is_ws('\t') && is_ws('\r') && is_ws('\n') && is_ws('\u{a0}') && is_ws('\u{3000}'),
        ('0' <= c <= '9' || 'a' <= c <= 'z' || 'A' <= c <= 'Z' || c == ':' || c == '_' || c == '-')
            ==> !is_ws(c),
        c as u32 > 0x3000 ==> !is_ws(c),
{
}

} // verus!
