use vstd::prelude::*;
use crate::environment::Env;
use crate::text::same_text;

verus! {

/// vcpkg's architecture code for a target architecture: `x64` for
/// `x86_64`, and `x86` for every other architecture.
pub open spec fn arch_code_spec(arch: Seq<char>) -> Seq<char> {
    if arch == "x86_64"@ {
        "x64"@
    } else {
        "x86"@
    }
}

/// The vcpkg triplet `<arch-code>-<os>`.
pub open spec fn triplet_spec(arch: Seq<char>, os: Seq<char>) -> Seq<char> {
    arch_code_spec(arch) + "-"@ + os
}

/// The Rust target name for a vcpkg triplet; an unknown triplet is kept.
pub open spec fn rs_triplet_spec(triplet: Seq<char>) -> Seq<char> {
    if triplet == "x64-windows"@ {
        "x86_64-pc-windows-msvc"@
    } else if triplet == "x64-linux"@ {
        "x86_64-unknown-linux-gnu"@
    } else if triplet == "x64-osx"@ {
        "x86_64-apple-darwin"@
    } else {
        triplet
    }
}

/// vcpkg's architecture code for `arch`.
pub fn arch_code(arch: &str) -> (r: String)
    ensures
        r@ == arch_code_spec(arch@),
{
    proof {
        reveal_strlit("x86_64");
        reveal_strlit("x64");
        reveal_strlit("x86");
    }
    if same_text(arch, "x86_64") {
        String::from_str("x64")
    } else {
        String::from_str("x86")
    }
}

/// The vcpkg triplet for a target architecture and operating system.
pub fn triplet_of(arch: &str, os: &str) -> (r: String)
    ensures
        r@ == triplet_spec(arch@, os@),
{
    let code = arch_code(arch);
    let with_dash = code.concat("-");
    with_dash.concat(os)
}

/// Whether the environment describes the target: `CARGO_CFG_TARGET_ARCH`
/// and `CARGO_CFG_TARGET_OS` are both set. A build without them aborts.
pub open spec fn target_ok(env: Env) -> bool {
    env.get_spec("CARGO_CFG_TARGET_ARCH"@) is Some && env.get_spec("CARGO_CFG_TARGET_OS"@) is Some
}

/// The vcpkg triplet that the environment describes.
pub open spec fn env_triplet(env: Env) -> Seq<char> {
    triplet_spec(
        env.get_spec("CARGO_CFG_TARGET_ARCH"@)->0,
        env.get_spec("CARGO_CFG_TARGET_OS"@)->0,
    )
}

/// The vcpkg triplet of the target that the environment describes, from
/// `CARGO_CFG_TARGET_ARCH` and `CARGO_CFG_TARGET_OS`.
pub fn vcpkg_triplet(env: &Env) -> (r: String)
    requires
        target_ok(*env),
    ensures
        r@ == env_triplet(*env),
{
    let arch = env.get("CARGO_CFG_TARGET_ARCH").unwrap();
    let os = env.get("CARGO_CFG_TARGET_OS").unwrap();
    triplet_of(arch.as_str(), os.as_str())
}

/// The Rust target name for a vcpkg triplet.
pub fn rs_triplet(triplet: &str) -> (r: String)
    ensures
        r@ == rs_triplet_spec(triplet@),
{
    if same_text(triplet, "x64-windows") {
        String::from_str("x86_64-pc-windows-msvc")
    } else if same_text(triplet, "x64-linux") {
        String::from_str("x86_64-unknown-linux-gnu")
    } else if same_text(triplet, "x64-osx") {
        String::from_str("x86_64-apple-darwin")
    } else {
        String::from_str(triplet)
    }
}

/// The Rust target name of the target that the environment describes.
pub fn vcpkg_rs_triplet(env: &Env) -> (r: String)
    requires
        target_ok(*env),
    ensures
        r@ == rs_triplet_spec(env_triplet(*env)),
{
    let t = vcpkg_triplet(env);
    rs_triplet(t.as_str())
}

} // verus!
