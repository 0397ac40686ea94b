use autovcpkg_build::{
    aggregate_packages, arch_code, build_root, configure, feature_package, join, lib_dir,
    lib_fixup, parent, prepare, render_finish, rs_triplet, triplet_of, vcpkg_root,
    vcpkg_rs_triplet, vcpkg_triplet, Config, Env, Lookup,
};
use autovcpkg_build::text::split_semicolons;

fn env_of(pairs: &[(&str, &str)]) -> Env {
    let mut env = Env::new();
    for (k, v) in pairs {
        env.insert(k, v);
    }
    env
}

fn strings(v: &[&str]) -> Vec<String> {
    v.iter().map(|s| s.to_string()).collect()
}

#[test]
fn triplet_for_x86_64_linux() {
    let env = env_of(&[("CARGO_CFG_TARGET_ARCH", "x86_64"), ("CARGO_CFG_TARGET_OS", "linux")]);
    assert_eq!(vcpkg_triplet(&env), "x64-linux");
    assert_eq!(vcpkg_rs_triplet(&env), "x86_64-unknown-linux-gnu");
}

#[test]
fn triplet_for_supported_targets() {
    assert_eq!(triplet_of("x86_64", "windows"), "x64-windows");
    assert_eq!(triplet_of("x86_64", "macos"), "x64-macos");
    assert_eq!(rs_triplet("x64-windows"), "x86_64-pc-windows-msvc");
    assert_eq!(rs_triplet("x64-osx"), "x86_64-apple-darwin");
    assert_eq!(rs_triplet("x64-linux"), "x86_64-unknown-linux-gnu");
}

#[test]
fn triplet_unsupported_arch_falls_back_to_x86() {
    assert_eq!(arch_code("aarch64"), "x86");
    assert_eq!(arch_code("x86"), "x86");
    assert_eq!(arch_code("x86_64"), "x64");
    let env = env_of(&[("CARGO_CFG_TARGET_ARCH", "aarch64"), ("CARGO_CFG_TARGET_OS", "linux")]);
    assert_eq!(vcpkg_triplet(&env), "x86-linux");
    assert_eq!(vcpkg_rs_triplet(&env), "x86-linux");
}

#[test]
fn env_first_entry_wins() {
    let env = env_of(&[("A", "1"), ("B", "2"), ("A", "3")]);
    assert_eq!(env.get("A"), Some("1".to_string()));
    assert_eq!(env.get("B"), Some("2".to_string()));
    assert_eq!(env.get("C"), None);
}

#[test]
fn root_override_is_used_as_is() {
    let env = env_of(&[
        ("VCPKG_ROOT", "/opt/vcpkg"),
        ("AUTO_VCPKG_ROOT", "/elsewhere"),
        ("OUT_DIR", "/tmp/proj/target/debug/build/pkg-abc/out"),
    ]);
    let res = vcpkg_root(&env);
    assert_eq!(res.path, "/opt/vcpkg");
    assert_eq!(res.publish, "AUTO_VCPKG_ROOT");
}

#[test]
fn root_override_without_out_dir() {
    let env = env_of(&[("VCPKG_ROOT", "/opt/vcpkg")]);
    assert_eq!(vcpkg_root(&env).path, "/opt/vcpkg");
}

#[test]
fn root_computed_override_wins_over_default() {
    let env = env_of(&[
        ("AUTO_VCPKG_ROOT", "/elsewhere"),
        ("OUT_DIR", "/tmp/proj/target/debug/build/pkg-abc/out"),
    ]);
    let res = vcpkg_root(&env);
    assert_eq!(res.path, "/elsewhere");
    assert_eq!(res.publish, "VCPKG_ROOT");
}

#[test]
fn root_default_is_three_levels_up() {
    let env = env_of(&[("OUT_DIR", "/tmp/proj/target/release/build/pkg-abc/out")]);
    let res = vcpkg_root(&env);
    assert_eq!(res.path, "/tmp/proj/target/release/vcpkg");
    let env = env_of(&[("OUT_DIR", "/b/x/y/z")]);
    assert_eq!(vcpkg_root(&env).path, "/b/vcpkg");
    assert_eq!(res.publish, "VCPKG_ROOT");
}

#[test]
fn parent_and_build_root() {
    assert_eq!(parent("/a/b/c"), "/a/b");
    assert_eq!(parent("/a"), "/a/..");
    assert_eq!(parent("a"), "a/..");
    assert_eq!(parent("/a/b/"), "/a/b/..");
    assert_eq!(parent("/a/b/.."), "/a/b/../..");
    assert_eq!(build_root("/t/debug/build/p/out"), "/t/debug");
    assert_eq!(build_root("out"), "out/../../..");
}

#[test]
fn join_follows_path_push() {
    assert_eq!(join("/a", "b"), "/a/b");
    assert_eq!(join("/a/", "b"), "/a/b");
    assert_eq!(join("", "b"), "b");
    assert_eq!(join("/a", "/b"), "/b");
}

#[test]
fn split_keeps_empty_pieces() {
    assert_eq!(split_semicolons(""), strings(&[""]));
    assert_eq!(split_semicolons("a;b"), strings(&["a", "b"]));
    assert_eq!(split_semicolons(";"), strings(&["", ""]));
    assert_eq!(split_semicolons("a;;b;"), strings(&["a", "", "b", ""]));
}

#[test]
fn feature_names_become_packages() {
    assert_eq!(feature_package("CARGO_FEATURE_ZLIB"), Some("zlib".to_string()));
    assert_eq!(feature_package("CARGO_FEATURE_FOO_BAR"), Some("foo-bar".to_string()));
    assert_eq!(feature_package("CARGO_FEATURE_CARGO_FEATURE_X"), Some("cargo-feature-x".to_string()));
    assert_eq!(feature_package("CARGO_FEATURE_"), Some("".to_string()));
    assert_eq!(feature_package("CARGO_PKG_NAME"), None);
    assert_eq!(feature_package("X_CARGO_FEATURE_A"), None);
}

#[test]
fn packages_from_list_then_features() {
    let env = env_of(&[
        ("AUTO_VCPKG_PACKAGES", "a;b"),
        ("PATH", "/usr/bin"),
        ("CARGO_FEATURE_FOO_BAR", "1"),
    ]);
    assert_eq!(aggregate_packages(&env), strings(&["a", "b", "foo-bar"]));
}

#[test]
fn packages_keep_duplicates() {
    let env = env_of(&[
        ("AUTO_VCPKG_PACKAGES", "zlib"),
        ("CARGO_FEATURE_ZLIB", "1"),
    ]);
    assert_eq!(aggregate_packages(&env), strings(&["zlib", "zlib"]));
}

#[test]
fn end_to_end_without_root_override() {
    let env = env_of(&[
        ("OUT_DIR", "/tmp/proj/target/debug/build/pkg-abc/out"),
        ("CARGO_FEATURE_ZLIB", "1"),
    ]);
    let prepared = prepare(&env);
    assert_eq!(prepared.config.root, "/tmp/proj/target/debug/vcpkg");
    assert_eq!(prepared.config.packages, strings(&["", "zlib"]));
    assert_eq!(prepared.publish, "VCPKG_ROOT");
}

#[test]
fn configure_appends_packages() {
    let env = env_of(&[("VCPKG_ROOT", "/v"), ("CARGO_FEATURE_ZLIB", "1")]);
    let prepared = configure(&env, &["sdl2", "libcurl", "zlib"]);
    assert_eq!(prepared.config.root, "/v");
    assert_eq!(prepared.publish, "AUTO_VCPKG_ROOT");
    assert_eq!(prepared.config.packages, strings(&["", "zlib", "sdl2", "libcurl", "zlib"]));
}

#[test]
fn failed_lookup_does_not_stop_later_packages() {
    let cfg = Config { root: "/v".to_string(), packages: strings(&["x", "", "y"]) };
    let lookups: Vec<Lookup> = vec![
        Err("package x is not installed".to_string()),
        Ok(vec![]),
        Ok(strings(&["cargo:rustc-link-search=native=/v/lib", "cargo:rustc-link-lib=y"])),
    ];
    assert_eq!(
        render_finish(&cfg, &lookups),
        strings(&[
            "cargo:rustc-env=AUTO_VCPKG_GIT_TAG=2019.10",
            "# Failed: package x is not installed",
            "cargo:rustc-link-search=native=/v/lib",
            "cargo:rustc-link-lib=y",
        ])
    );
}

#[test]
fn curl_gets_crypto_last() {
    let cfg = Config { root: "/v".to_string(), packages: strings(&["curl", "zlib"]) };
    let lookups: Vec<Lookup> = vec![
        Ok(strings(&["cargo:rustc-link-lib=curl", "cargo:rustc-link-lib=crypto", "cargo:rustc-link-lib=ssl"])),
        Err("missing".to_string()),
    ];
    assert_eq!(
        render_finish(&cfg, &lookups),
        strings(&[
            "cargo:rustc-env=AUTO_VCPKG_GIT_TAG=2019.10",
            "cargo:rustc-link-lib=curl",
            "cargo:rustc-link-lib=crypto",
            "cargo:rustc-link-lib=ssl",
            "# Failed: missing",
            "cargo:rustc-link-lib=crypto",
        ])
    );
}

#[test]
fn lib_fixup_plans_copies_in_lib_dir() {
    let env = env_of(&[
        ("VCPKG_ROOT", "/v"),
        ("CARGO_CFG_TARGET_ARCH", "x86_64"),
        ("CARGO_CFG_TARGET_OS", "windows"),
    ]);
    assert_eq!(lib_dir("/v", "x64-windows"), "/v/installed/x64-windows/lib");
    let copies = lib_fixup(&env, &[("zlib.lib", "z.lib"), ("a.lib", "b.lib")]);
    assert_eq!(
        copies,
        vec![
            ("/v/installed/x64-windows/lib/zlib.lib".to_string(), "/v/installed/x64-windows/lib/z.lib".to_string()),
            ("/v/installed/x64-windows/lib/a.lib".to_string(), "/v/installed/x64-windows/lib/b.lib".to_string()),
        ]
    );
}
