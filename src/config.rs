use vstd::prelude::*;
use crate::environment::Env;
use crate::root::{RootResolution, vcpkg_root, join, join_spec, root_ok, root_path, publish_name};
use crate::text::{has_at, has_at_exec, dashed, dash_underscores, split_semis, split_semicolons, views};
use crate::triplet::{vcpkg_triplet, target_ok, env_triplet};

verus! {

/// What `str::to_lowercase` makes of a string.
pub uninterp spec fn lower_of(s: Seq<char>) -> Seq<char>;

/// Relies on `str::to_lowercase`: its result depends on the characters of
/// its argument alone.
#[verifier::external_body]
fn lowercase(s: &str) -> (r: String)
    ensures
        r@ == lower_of(s@),
{
    s.to_lowercase()
}

/// The prefix of the variables by which cargo announces enabled features.
pub open spec fn feature_prefix() -> Seq<char> {
    "CARGO_FEATURE_"@
}

/// The package that an environment variable name asks for, if it names an
/// enabled feature: the name without the feature prefix, lower case, with
/// hyphens for underscores.
pub open spec fn feature_package_spec(key: Seq<char>) -> Option<Seq<char>> {
    if has_at(key, 0, feature_prefix()) {
        Some(dashed(lower_of(key.skip(feature_prefix().len() as int))))
    } else {
        None
    }
}

/// The packages that the feature variables among `vars` ask for, in the
/// order of the variables.
pub open spec fn feature_list(vars: Seq<(Seq<char>, Seq<char>)>) -> Seq<Seq<char>>
    decreases vars.len(),
{
    if vars.len() == 0 {
        Seq::empty()
    } else {
        feature_list(vars.drop_last()) + match feature_package_spec(vars.last().0) {
            Some(p) => seq![p],
            None => Seq::empty(),
        }
    }
}

/// The packages of a build: the pieces of `AUTO_VCPKG_PACKAGES` (one empty
/// piece when it is unset), then those of the enabled features.
pub open spec fn package_list(env: Env) -> Seq<Seq<char>> {
    split_semis(
        match env.get_spec("AUTO_VCPKG_PACKAGES"@) {
            Some(l) => l,
            None => Seq::empty(),
        },
    ) + feature_list(env@)
}

/// The package that the environment variable `key` asks for, if it names an
/// enabled feature.
pub fn feature_package(key: &str) -> (r: Option<String>)
    ensures
        r matches Some(p) ==> feature_package_spec(key@) == Some(p@),
        r is None ==> feature_package_spec(key@) is None,
{
    let prefix = "CARGO_FEATURE_";
    proof {
        reveal_strlit("CARGO_FEATURE_");
    }
    if !has_at_exec(key, 0, prefix) {
        return None;
    }
    let n = key.unicode_len();
    let m = prefix.unicode_len();
    let rest = key.substring_char(m, n);
    let lower = lowercase(rest);
    Some(dash_underscores(lower.as_str()))
}

/// The packages that the feature variables of `env` ask for.
pub fn feature_packages(env: &Env) -> (r: Vec<String>)
    ensures
        views(r@) == feature_list(env@),
{
    let n = env.vars.len();
    let mut out: Vec<String> = Vec::new();
    let mut i: usize = 0;
    while i < n
        invariant
            n == env.vars@.len(),
            env@.len() == n,
            0 <= i <= n,
            views(out@) == feature_list(env@.take(i as int)),
        decreases n - i,
    {
        let ghost before = out@;
        assert(env@.take(i + 1).drop_last() =~= env@.take(i as int));
        match feature_package(env.vars[i].0.as_str()) {
            Some(p) => {
                out.push(p);
                assert(views(out@) =~= views(before) + seq![views(out@).last()]);
            },
            None => {
                assert(views(out@) =~= views(before) + Seq::<Seq<char>>::empty());
            },
        }
        i = i + 1;
    }
    assert(env@.take(n as int) =~= env@);
    out
}

/// The configuration of one build: the vcpkg root and the packages to look
/// up, in order; empty names may occur and are skipped by the lookup.
pub struct Config {
    pub root: String,
    pub packages: Vec<String>,
}

/// A configuration together with the variable under which the caller should
/// publish `config.root` before looking packages up.
pub struct Prepared {
    pub config: Config,
    pub publish: String,
}

/// The packages of a build, as `package_list` describes them.
pub fn aggregate_packages(env: &Env) -> (r: Vec<String>)
    ensures
        views(r@) == package_list(*env),
{
    let list = match env.get("AUTO_VCPKG_PACKAGES") {
        Some(l) => l,
        None => String::new(),
    };
    let mut packages = split_semicolons(list.as_str());
    let mut features = feature_packages(env);
    let ghost a = packages@;
    let ghost b = features@;
    packages.append(&mut features);
    assert(views(packages@) =~= views(a) + views(b));
    packages
}

/// The root resolution and the package list of a build.
pub fn prepare(env: &Env) -> (r: Prepared)
    requires
        root_ok(*env),
    ensures
        r.config.root@ == root_path(*env),
        r.publish@ == publish_name(*env),
        views(r.config.packages@) == package_list(*env),
{
    let packages = aggregate_packages(env);
    let RootResolution { path, publish } = vcpkg_root(env);
    Prepared { config: Config { root: path, packages }, publish }
}

/// The views of a list of string slices.
pub open spec fn str_views(v: Seq<&str>) -> Seq<Seq<char>> {
    v.map_values(|x: &str| x@)
}

/// `prepare`, with `packages` appended to the package list.
pub fn configure(env: &Env, packages: &[&str]) -> (r: Prepared)
    requires
        root_ok(*env),
    ensures
        r.config.root@ == root_path(*env),
        r.publish@ == publish_name(*env),
        views(r.config.packages@) == package_list(*env) + str_views(packages@),
{
    let mut prepared = prepare(env);
    let n = packages.len();
    let mut i: usize = 0;
    while i < n
        invariant
            n == packages@.len(),
            0 <= i <= n,
            prepared.config.root@ == root_path(*env) && prepared.publish@ == publish_name(*env),
            views(prepared.config.packages@) == package_list(*env) + str_views(
                packages@.take(i as int),
            ),
        decreases n - i,
    {
        let ghost before = prepared.config.packages@;
        prepared.config.packages.push(String::from_str(packages[i]));
        assert(views(prepared.config.packages@) =~= views(before).push(packages@[i as int]@));
        assert(str_views(packages@.take(i + 1)) =~= str_views(packages@.take(i as int)).push(
            packages@[i as int]@,
        ));
        i = i + 1;
    }
    assert(packages@.take(n as int) =~= packages@);
    prepared
}

/// The library directory of a triplet under a vcpkg root,
/// `<root>/installed/<triplet>/lib`.
pub open spec fn lib_dir_spec(root: Seq<char>, triplet: Seq<char>) -> Seq<char> {
    join_spec(join_spec(join_spec(root, "installed"@), triplet), "lib"@)
}

/// The library directory of a triplet under a vcpkg root.
pub fn lib_dir(root: &str, triplet: &str) -> (r: String)
    ensures
        r@ == lib_dir_spec(root@, triplet@),
{
    let installed = join(root, "installed");
    let with_triplet = join(installed.as_str(), triplet);
    join(with_triplet.as_str(), "lib")
}

/// The copies that rename libraries in place: for each (source, destination)
/// name, the two paths under the library directory of the target's triplet.
pub fn lib_fixup(env: &Env, files: &[(&str, &str)]) -> (r: Vec<(String, String)>)
    requires
        root_ok(*env),
        target_ok(*env),
    ensures
        r@.len() == files@.len(),
        forall|k: int|
            0 <= k < files@.len() ==> r@[k].0@ == join_spec(
                lib_dir_spec(root_path(*env), env_triplet(*env)),
                files@[k].0@,
            ) && r@[k].1@ == join_spec(
                lib_dir_spec(root_path(*env), env_triplet(*env)),
                files@[k].1@,
            ),
{
    let root = vcpkg_root(env).path;
    let triplet = vcpkg_triplet(env);
    let dir = lib_dir(root.as_str(), triplet.as_str());
    let n = files.len();
    let mut copies: Vec<(String, String)> = Vec::new();
    let mut i: usize = 0;
    while i < n
        invariant
            n == files@.len(),
            0 <= i <= n,
            copies@.len() == i,
            dir@ == lib_dir_spec(root_path(*env), env_triplet(*env)),
            forall|k: int|
                0 <= k < i ==> copies@[k].0@ == join_spec(dir@, files@[k].0@) && copies@[k].1@
                    == join_spec(dir@, files@[k].1@),
        decreases n - i,
    {
        let (s, d) = files[i];
        copies.push((join(dir.as_str(), s), join(dir.as_str(), d)));
        i = i + 1;
    }
    copies
}

} // verus!
