use vstd::prelude::*;
use crate::config::Config;
use crate::text::{same_text, views};

verus! {

/// The outcome of looking one package up: the cargo metadata lines of the
/// package, or the text of the error.
pub type Lookup = Result<Vec<String>, String>;

/// The view of a lookup outcome.
pub open spec fn lookup_view(l: Lookup) -> Result<Seq<Seq<char>>, Seq<char>> {
    match l {
        Ok(lines) => Ok(views(lines@)),
        Err(e) => Err(e@),
    }
}

/// The views of a list of lookup outcomes.
pub open spec fn lookup_views(v: Seq<Lookup>) -> Seq<Result<Seq<Seq<char>>, Seq<char>>> {
    v.map_values(|l: Lookup| lookup_view(l))
}

/// The line that sets the vcpkg tag of the build.
pub open spec fn tag_line() -> Seq<char> {
    "cargo:rustc-env=AUTO_VCPKG_GIT_TAG=2019.10"@
}

/// The comment line for a failed lookup.
pub open spec fn failure_line(err: Seq<char>) -> Seq<char> {
    "# Failed: "@ + err
}

/// The lines for one package: none for an empty name, the metadata lines
/// when the lookup succeeded, one comment line when it failed.
pub open spec fn package_block(pkg: Seq<char>, l: Result<Seq<Seq<char>>, Seq<char>>) -> Seq<
    Seq<char>,
> {
    if pkg.len() == 0 {
        Seq::empty()
    } else {
        match l {
            Ok(lines) => lines,
            Err(e) => seq![failure_line(e)],
        }
    }
}

/// The lines for the packages, each package's block in order.
pub open spec fn package_lines(
    pkgs: Seq<Seq<char>>,
    ls: Seq<Result<Seq<Seq<char>>, Seq<char>>>,
) -> Seq<Seq<char>>
    decreases pkgs.len(),
{
    if pkgs.len() == 0 {
        Seq::empty()
    } else {
        package_lines(pkgs.drop_last(), ls.take(pkgs.len() - 1)) + package_block(
            pkgs.last(),
            ls[pkgs.len() - 1],
        )
    }
}

/// Directives that some packages need after all others, for link order:
/// `curl` needs `crypto` once more after `ssl`.
pub open spec fn trailing_lines(pkgs: Seq<Seq<char>>) -> Seq<Seq<char>> {
    if pkgs.contains("curl"@) {
        seq!["cargo:rustc-link-lib=crypto"@]
    } else {
        Seq::empty()
    }
}

/// All lines that a build script prints for `pkgs`, given the outcome of
/// each package's lookup (the outcome of an empty name is not read).
pub open spec fn finish_lines(
    pkgs: Seq<Seq<char>>,
    ls: Seq<Result<Seq<Seq<char>>, Seq<char>>>,
) -> Seq<Seq<char>> {
    seq![tag_line()] + package_lines(pkgs, ls) + trailing_lines(pkgs)
}

/// The lines of the first `m` packages start the lines of all of them.
proof fn lemma_package_lines_prefix(
    pkgs: Seq<Seq<char>>,
    ls: Seq<Result<Seq<Seq<char>>, Seq<char>>>,
    m: int,
)
    requires
        ls.len() == pkgs.len(),
        0 <= m <= pkgs.len(),
    ensures
        package_lines(pkgs.take(m), ls.take(m)).len() <= package_lines(pkgs, ls).len(),
        package_lines(pkgs, ls).subrange(0, package_lines(pkgs.take(m), ls.take(m)).len() as int)
            == package_lines(pkgs.take(m), ls.take(m)),
    decreases pkgs.len(),
{
    let whole = package_lines(pkgs, ls);
    if m == pkgs.len() {
        assert(pkgs.take(m) =~= pkgs);
        assert(ls.take(m) =~= ls);
        assert(whole.subrange(0, whole.len() as int) =~= whole);
    } else {
        let n = pkgs.len() - 1;
        let front = package_lines(pkgs.drop_last(), ls.take(n));
        lemma_package_lines_prefix(pkgs.drop_last(), ls.take(n), m);
        assert(pkgs.drop_last().take(m) =~= pkgs.take(m));
        assert(ls.take(n).take(m) =~= ls.take(m));
        let part = package_lines(pkgs.take(m), ls.take(m));
        assert(whole.subrange(0, part.len() as int) =~= front.subrange(0, part.len() as int));
    }
}

/// The lines of the first `j + 1` packages are those of the first `j`,
/// then the block of package `j`.
proof fn lemma_package_lines_step(
    pkgs: Seq<Seq<char>>,
    ls: Seq<Result<Seq<Seq<char>>, Seq<char>>>,
    j: int,
)
    requires
        ls.len() == pkgs.len(),
        0 <= j < pkgs.len(),
    ensures
        package_lines(pkgs.take(j + 1), ls.take(j + 1)) == package_lines(pkgs.take(j), ls.take(j))
            + package_block(pkgs[j], ls[j]),
{
    assert(pkgs.take(j + 1).drop_last() =~= pkgs.take(j));
    assert(ls.take(j + 1).take(j) =~= ls.take(j));
}

/// A failed lookup does not keep the lines of a later package from being
/// printed: when package `i` failed and package `j` after it was found, the
/// output holds the comment for `i` and, further on, every metadata line of
/// `j` in a row.
pub proof fn failed_lookup_keeps_later_lines(
    pkgs: Seq<Seq<char>>,
    ls: Seq<Result<Seq<Seq<char>>, Seq<char>>>,
    i: int,
    j: int,
)
    requires
        ls.len() == pkgs.len(),
        0 <= i < j < pkgs.len(),
        pkgs[i].len() > 0,
        ls[i] is Err,
        pkgs[j].len() > 0,
        ls[j] is Ok,
    ensures
        exists|a: int, b: int|
            0 <= a < b && b + ls[j]->Ok_0.len() <= finish_lines(pkgs, ls).len()
                && #[trigger] finish_lines(pkgs, ls)[a] == failure_line(ls[i]->Err_0) && #[trigger] finish_lines(
                pkgs,
                ls,
            ).subrange(b, b + ls[j]->Ok_0.len()) == ls[j]->Ok_0,
{
    let out = finish_lines(pkgs, ls);
    let whole = package_lines(pkgs, ls);
    let lines = ls[j]->Ok_0;
    lemma_package_lines_step(pkgs, ls, i);
    lemma_package_lines_step(pkgs, ls, j);
    lemma_package_lines_prefix(pkgs, ls, i + 1);
    lemma_package_lines_prefix(pkgs, ls, j + 1);
    lemma_package_lines_prefix(pkgs.take(j), ls.take(j), i + 1);
    assert(pkgs.take(j).take(i + 1) =~= pkgs.take(i + 1));
    assert(ls.take(j).take(i + 1) =~= ls.take(i + 1));
    let before_i = package_lines(pkgs.take(i), ls.take(i));
    let upto_i = package_lines(pkgs.take(i + 1), ls.take(i + 1));
    let before_j = package_lines(pkgs.take(j), ls.take(j));
    let upto_j = package_lines(pkgs.take(j + 1), ls.take(j + 1));
    let a = (before_i.len() + 1) as int;
    let b = (before_j.len() + 1) as int;
    assert(upto_i[before_i.len() as int] == failure_line(ls[i]->Err_0));
    assert(whole.subrange(0, upto_i.len() as int)[before_i.len() as int] == upto_i[before_i.len() as int]);
    assert(out[a] == whole[before_i.len() as int]);
    assert(upto_i.len() <= before_j.len()) by {
        assert(package_lines(pkgs.take(j), ls.take(j)).subrange(0, upto_i.len() as int).len()
            == upto_i.len());
    }
    assert(upto_j.subrange(before_j.len() as int, upto_j.len() as int) =~= lines);
    assert(out.subrange(b, b + lines.len() as int) =~= lines) by {
        assert forall|k: int| 0 <= k < lines.len() implies out.subrange(b, b + lines.len() as int)[k]
            == lines[k] by {
            assert(whole.subrange(0, upto_j.len() as int)[before_j.len() + k] == upto_j[before_j.len() + k]);
        }
    }
}

/// Appends every line of `lines` to `out`.
fn append_lines(out: &mut Vec<String>, lines: &Vec<String>)
    ensures
        views(final(out)@) == views(old(out)@) + views(lines@),
{
    let n = lines.len();
    let mut i: usize = 0;
    while i < n
        invariant
            n == lines@.len(),
            0 <= i <= n,
            views(out@) == views(old(out)@) + views(lines@.take(i as int)),
        decreases n - i,
    {
        let ghost before = out@;
        out.push(lines[i].clone());
        assert(views(out@) =~= views(before).push(lines@[i as int]@));
        assert(views(lines@.take(i + 1)) =~= views(lines@.take(i as int)).push(lines@[i as int]@));
        i = i + 1;
    }
    assert(lines@.take(n as int) =~= lines@);
}

/// Whether `pkgs` holds the name `name`.
fn contains_name(pkgs: &Vec<String>, name: &str) -> (r: bool)
    ensures
        r == views(pkgs@).contains(name@),
{
    let n = pkgs.len();
    let mut i: usize = 0;
    while i < n
        invariant
            n == pkgs@.len(),
            0 <= i <= n,
            forall|k: int| 0 <= k < i ==> pkgs@[k]@ != name@,
        decreases n - i,
    {
        if same_text(pkgs[i].as_str(), name) {
            assert(views(pkgs@)[i as int] == name@);
            return true;
        }
        i = i + 1;
    }
    assert(!views(pkgs@).contains(name@)) by {
        if views(pkgs@).contains(name@) {
            let k = choose|k: int| 0 <= k < n && views(pkgs@)[k] == name@;
            assert(pkgs@[k]@ == name@);
        }
    }
    false
}

/// The lines that a build script prints for the packages of `cfg`, given
/// the outcome of looking up each of them (at the same position).
pub fn render_finish(cfg: &Config, lookups: &Vec<Lookup>) -> (r: Vec<String>)
    requires
        lookups@.len() == cfg.packages@.len(),
    ensures
        views(r@) == finish_lines(views(cfg.packages@), lookup_views(lookups@)),
{
    let ghost pkgs = views(cfg.packages@);
    let ghost ls = lookup_views(lookups@);
    let mut out: Vec<String> = Vec::new();
    out.push(String::from_str("cargo:rustc-env=AUTO_VCPKG_GIT_TAG=2019.10"));
    proof {
        reveal_strlit("cargo:rustc-env=AUTO_VCPKG_GIT_TAG=2019.10");
        reveal_strlit("# Failed: ");
    }
    let n = cfg.packages.len();
    let mut i: usize = 0;
    assert(pkgs.take(0) =~= Seq::<Seq<char>>::empty());
    assert(views(out@) =~= seq![tag_line()]);
    while i < n
        invariant
            n == cfg.packages@.len(),
            n == lookups@.len(),
            pkgs == views(cfg.packages@),
            ls == lookup_views(lookups@),
            0 <= i <= n,
            views(out@) == seq![tag_line()] + package_lines(
                pkgs.take(i as int),
                ls.take(i as int),
            ),
        decreases n - i,
    {
        let ghost before = views(out@);
        let pkg = &cfg.packages[i];
        if pkg.unicode_len() > 0 {
            match &lookups[i] {
                Ok(lines) => {
                    append_lines(&mut out, lines);
                },
                Err(e) => {
                    let line = String::from_str("# Failed: ").concat(e.as_str());
                    out.push(line);
                    assert(views(out@) =~= before.push(failure_line(e@)));
                },
            }
        }
        assert(pkgs.take(i + 1).drop_last() =~= pkgs.take(i as int));
        assert(ls.take(i + 1).take(i as int) =~= ls.take(i as int));
        assert(views(out@) =~= before + package_block(pkgs[i as int], ls[i as int]));
        i = i + 1;
    }
    assert(pkgs.take(n as int) =~= pkgs);
    assert(ls.take(n as int) =~= ls);
    if contains_name(&cfg.packages, "curl") {
        proof {
            reveal_strlit("cargo:rustc-link-lib=crypto");
        }
        let ghost before = views(out@);
        out.push(String::from_str("cargo:rustc-link-lib=crypto"));
        assert(views(out@) =~= before + trailing_lines(pkgs));
    } else {
        assert(views(out@) =~= views(out@) + trailing_lines(pkgs));
    }
    out
}

} // verus!
