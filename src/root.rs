use vstd::prelude::*;
use crate::environment::Env;
use crate::text::same_text;

verus! {

/// Position of the last `/` in `s`, or -1 when there is none.
pub open spec fn last_sep(s: Seq<char>) -> int
    decreases s.len(),
{
    if s.len() == 0 {
        -1
    } else if s.last() == '/' {
        s.len() - 1
    } else {
        last_sep(s.drop_last())
    }
}

/// `part` appended to `base` as a path component, as `PathBuf::push` does on
/// Unix: an absolute `part` replaces `base`, and a separator is put between
/// the two unless `base` is empty or already ends with one.
pub open spec fn join_spec(base: Seq<char>, part: Seq<char>) -> Seq<char> {
    if part.len() > 0 && part[0] == '/' {
        part
    } else if base.len() == 0 {
        part
    } else if base.last() == '/' {
        base + part
    } else {
        base + seq!['/'] + part
    }
}

/// The directory above `s`. Where the last component can be dropped as text
/// (it is a plain name and not the root's only child), it is dropped;
/// otherwise `..` is appended.
pub open spec fn parent_spec(s: Seq<char>) -> Seq<char> {
    let i = last_sep(s);
    let tail = s.subrange(i + 1, s.len() as int);
    if i > 0 && tail.len() > 0 && tail != "."@ && tail != ".."@ {
        s.take(i)
    } else {
        join_spec(s, ".."@)
    }
}

/// The directory three levels above the build output directory `out_dir`.
pub open spec fn build_root_spec(out_dir: Seq<char>) -> Seq<char> {
    parent_spec(parent_spec(parent_spec(out_dir)))
}

/// Where the vcpkg tree lives when no variable names it.
pub open spec fn default_root_spec(out_dir: Seq<char>) -> Seq<char> {
    join_spec(build_root_spec(out_dir), "vcpkg"@)
}

proof fn lemma_last_sep_bounds(s: Seq<char>)
    ensures
        -1 <= last_sep(s) < s.len(),
        last_sep(s) >= 0 ==> s[last_sep(s)] == '/',
    decreases s.len(),
{
    if s.len() > 0 && s.last() != '/' {
        lemma_last_sep_bounds(s.drop_last());
    }
}

/// Position of the last `/` in `s`.
fn find_last_sep(s: &str) -> (r: Option<usize>)
    ensures
        r matches Some(i) ==> last_sep(s@) == i,
        r is None ==> last_sep(s@) == -1,
{
    let n = s.unicode_len();
    let mut i: usize = n;
    assert(s@.take(n as int) =~= s@);
    while i > 0
        invariant
            n == s@.len(),
            0 <= i <= n,
            last_sep(s@) == last_sep(s@.take(i as int)),
        decreases i,
    {
        assert(s@.take(i as int).drop_last() =~= s@.take(i - 1));
        if s.get_char(i - 1) == '/' {
            return Some(i - 1);
        }
        i = i - 1;
    }
    None
}

/// `part` appended to the path `base` as one more component.
pub fn join(base: &str, part: &str) -> (r: String)
    ensures
        r@ == join_spec(base@, part@),
{
    let pn = part.unicode_len();
    let bn = base.unicode_len();
    if pn > 0 && part.get_char(0) == '/' {
        String::from_str(part)
    } else if bn == 0 {
        String::from_str(part)
    } else if base.get_char(bn - 1) == '/' {
        String::from_str(base).concat(part)
    } else {
        proof {
            reveal_strlit("/");
        }
        String::from_str(base).concat("/").concat(part)
    }
}

/// The directory above the path `s`.
pub fn parent(s: &str) -> (r: String)
    ensures
        r@ == parent_spec(s@),
{
    proof {
        lemma_last_sep_bounds(s@);
        reveal_strlit("..");
    }
    let n = s.unicode_len();
    match find_last_sep(s) {
        Some(i) => {
            if i > 0 {
                let tail = s.substring_char(i + 1, n);
                if tail.unicode_len() > 0 && !same_text(tail, ".") && !same_text(tail, "..") {
                    return String::from_str(s.substring_char(0, i));
                }
            }
        },
        None => {},
    }
    join(s, "..")
}

/// The directory three levels above the build output directory `out_dir`
/// (from `<target>/<profile>/build/<crate>/out`, the profile directory).
pub fn build_root(out_dir: &str) -> (r: String)
    ensures
        r@ == build_root_spec(out_dir@),
{
    let one = parent(out_dir);
    let two = parent(one.as_str());
    parent(two.as_str())
}

/// A plain path component: not empty, without `/`, and neither `.` nor `..`.
pub open spec fn plain_name(c: Seq<char>) -> bool {
    c.len() > 0 && !c.contains('/') && c != "."@ && c != ".."@
}

/// The last `/` of `p + q` is the last character of `p` when `p` ends with
/// one and `q` holds none.
proof fn lemma_last_sep_of_name(p: Seq<char>, q: Seq<char>)
    requires
        p.len() > 0,
        p.last() == '/',
        !q.contains('/'),
    ensures
        last_sep(p + q) == p.len() - 1,
    decreases q.len(),
{
    if q.len() == 0 {
        assert(p + q =~= p);
    } else {
        assert((p + q).drop_last() =~= p + q.drop_last());
        assert((p + q).last() == q.last());
        assert(q.drop_last().len() < q.len());
        if q.drop_last().contains('/') {
            let k = choose|k: int| 0 <= k < q.drop_last().len() && q.drop_last()[k] == '/';
            assert(q[k] == '/');
        }
        assert(q[q.len() - 1] != '/');
        lemma_last_sep_of_name(p, q.drop_last());
    }
}

/// Stepping up from `s/c`, with `s` not empty and `c` a plain name, gives `s`.
proof fn lemma_parent_of_child(s: Seq<char>, c: Seq<char>)
    requires
        s.len() > 0,
        plain_name(c),
    ensures
        parent_spec(s + seq!['/'] + c) == s,
{
    let p = s + seq!['/'];
    lemma_last_sep_of_name(p, c);
    assert(s + seq!['/'] + c == p + c);
    let whole = p + c;
    assert(whole.subrange(p.len() as int, whole.len() as int) =~= c);
    assert(whole.take(s.len() as int) =~= s);
}

/// With no variable naming the root, the root is `vcpkg` three directories
/// above the build output directory: for an output directory `base/a/b/c`
/// whose last three components are plain names, it is `base` joined with
/// `vcpkg`.
pub proof fn default_root_three_levels_up(
    base: Seq<char>,
    a: Seq<char>,
    b: Seq<char>,
    c: Seq<char>,
)
    requires
        base.len() > 0,
        plain_name(a),
        plain_name(b),
        plain_name(c),
    ensures
        default_root_spec(base + seq!['/'] + a + seq!['/'] + b + seq!['/'] + c) == join_spec(
            base,
            "vcpkg"@,
        ),
{
    let one = base + seq!['/'] + a;
    let two = one + seq!['/'] + b;
    lemma_parent_of_child(two, c);
    lemma_parent_of_child(one, b);
    lemma_parent_of_child(base, a);
}

/// The resolved vcpkg root, and the variable under which the caller should
/// publish it for tools run later in the same build.
pub struct RootResolution {
    pub path: String,
    pub publish: String,
}

/// Whether the vcpkg root of `env` can be resolved: `VCPKG_ROOT` or
/// `OUT_DIR` is set. A build without either aborts.
pub open spec fn root_ok(env: Env) -> bool {
    env.get_spec("VCPKG_ROOT"@) is Some || env.get_spec("OUT_DIR"@) is Some
}

/// The vcpkg root of `env`: `VCPKG_ROOT` when set; otherwise
/// `AUTO_VCPKG_ROOT` when set, else `vcpkg` under the build root.
pub open spec fn root_path(env: Env) -> Seq<char> {
    match env.get_spec("VCPKG_ROOT"@) {
        Some(p) => p,
        None => match env.get_spec("AUTO_VCPKG_ROOT"@) {
            Some(p) => p,
            None => default_root_spec(env.get_spec("OUT_DIR"@)->0),
        },
    }
}

/// The variable under which the root is published: the one of the two names
/// that was not read from.
pub open spec fn publish_name(env: Env) -> Seq<char> {
    if env.get_spec("VCPKG_ROOT"@) is Some {
        "AUTO_VCPKG_ROOT"@
    } else {
        "VCPKG_ROOT"@
    }
}

/// The vcpkg root of the environment, and the variable to publish it under.
pub fn vcpkg_root(env: &Env) -> (r: RootResolution)
    requires
        root_ok(*env),
    ensures
        r.path@ == root_path(*env),
        r.publish@ == publish_name(*env),
{
    if let Some(path) = env.get("VCPKG_ROOT") {
        return RootResolution { path, publish: String::from_str("AUTO_VCPKG_ROOT") };
    }
    let out_dir = env.get("OUT_DIR").unwrap();
    let path = match env.get("AUTO_VCPKG_ROOT") {
        Some(p) => p,
        None => join(build_root(out_dir.as_str()).as_str(), "vcpkg"),
    };
    RootResolution { path, publish: String::from_str("VCPKG_ROOT") }
}

} // verus!
