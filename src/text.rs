use vstd::prelude::*;

verus! {

/// `s` followed, from position `i` on, by `p`.
pub open spec fn has_at(s: Seq<char>, i: int, p: Seq<char>) -> bool {
    0 <= i && i + p.len() <= s.len() && s.subrange(i, i + p.len()) == p
}

/// `s` with every underscore turned into a hyphen.
pub open spec fn dashed(s: Seq<char>) -> Seq<char> {
    s.map_values(|c: char| if c == '_' { '-' } else { c })
}

/// The pieces of `s` between semicolons, in order; a string without a
/// semicolon is a single piece, and the empty string is one empty piece.
pub open spec fn split_semis(s: Seq<char>) -> Seq<Seq<char>>
    decreases s.len(),
{
    if s.len() == 0 {
        seq![Seq::empty()]
    } else {
        let prev = split_semis(s.drop_last());
        if s.last() == ';' {
            prev.push(Seq::empty())
        } else {
            prev.update(prev.len() - 1, prev.last().push(s.last()))
        }
    }
}

/// Views of a list of strings.
pub open spec fn views(v: Seq<String>) -> Seq<Seq<char>> {
    v.map_values(|x: String| x@)
}

/// Whether `p` occurs in `s` from position `i` on.
pub fn has_at_exec(s: &str, i: usize, p: &str) -> (r: bool)
    ensures
        r == has_at(s@, i as int, p@),
{
    let n = s.unicode_len();
    let m = p.unicode_len();
    if i > n || m > n - i {
        return false;
    }
    let mut j: usize = 0;
    while j < m
        invariant
            n == s@.len(),
            m == p@.len(),
            i + m <= n,
            0 <= j <= m,
            forall|k: int| 0 <= k < j ==> s@[i + k] == p@[k],
        decreases m - j,
    {
        if s.get_char(i + j) != p.get_char(j) {
            assert(s@.subrange(i as int, i + m)[j as int] != p@[j as int]);
            return false;
        }
        j = j + 1;
    }
    assert(s@.subrange(i as int, i + m) =~= p@);
    true
}

/// Whether two strings hold the same characters.
pub fn same_text(a: &str, b: &str) -> (r: bool)
    ensures
        r == (a@ == b@),
{
    String::from_str(a) == String::from_str(b)
}

/// Copies `s` with every underscore turned into a hyphen.
pub fn dash_underscores(s: &str) -> (r: String)
    ensures
        r@ == dashed(s@),
{
    let n = s.unicode_len();
    let mut out = String::new();
    let mut i: usize = 0;
    while i < n
        invariant
            n == s@.len(),
            0 <= i <= n,
            out@ == dashed(s@.take(i as int)),
        decreases n - i,
    {
        let c = s.get_char(i);
        if c == '_' {
            out.append("-");
            proof {
                reveal_strlit("-");
            }
        } else {
            out.append(s.substring_char(i, i + 1));
        }
        assert(dashed(s@.take(i + 1)) =~= dashed(s@.take(i as int)).push(
            if c == '_' { '-' } else { c },
        ));
        i = i + 1;
    }
    assert(s@.take(n as int) =~= s@);
    out
}

/// Splits `s` at each semicolon.
pub fn split_semicolons(s: &str) -> (r: Vec<String>)
    ensures
        views(r@) == split_semis(s@),
{
    let n = s.unicode_len();
    let mut out: Vec<String> = Vec::new();
    let mut start: usize = 0;
    let mut i: usize = 0;
    assert(s@.take(0) =~= Seq::<char>::empty());
    assert(views(out@).push(s@.subrange(0, 0)) =~= seq![Seq::<char>::empty()]);
    while i < n
        invariant
            n == s@.len(),
            0 <= start <= i <= n,
            split_semis(s@.take(i as int)) == views(out@).push(s@.subrange(start as int, i as int)),
        decreases n - i,
    {
        let c = s.get_char(i);
        assert(s@.take(i + 1).drop_last() =~= s@.take(i as int));
        if c == ';' {
            let ghost before = out@;
            out.push(String::from_str(s.substring_char(start, i)));
            assert(views(out@) =~= views(before).push(s@.subrange(start as int, i as int)));
            start = i + 1;
            assert(s@.subrange(start as int, i + 1) =~= Seq::<char>::empty());
        } else {
            assert(s@.subrange(start as int, i + 1) =~= s@.subrange(start as int, i as int).push(c));
        }
        i = i + 1;
    }
    let ghost before = out@;
    out.push(String::from_str(s.substring_char(start, n)));
    assert(views(out@) =~= views(before).push(s@.subrange(start as int, n as int)));
    assert(s@.take(n as int) =~= s@);
    assert(views(out@) =~= split_semis(s@));
    out
}

} // verus!
