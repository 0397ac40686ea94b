//! Build-time helpers that resolve a vcpkg installation: the target triplet,
//! the package-manager root, the list of packages to look up, and the link
//! directives that a build script prints.
//!
//! Every function here works on an explicit snapshot of the process
//! environment and returns plain values; reading and writing the real
//! environment, printing and copying files are left to the caller.

pub mod config;
mod environment;
pub mod link;
pub mod root;
pub mod text;
pub mod triplet;

pub use config::{
    Config, Prepared, aggregate_packages, configure, feature_package, feature_packages, lib_dir,
    lib_fixup, prepare,
};
pub use environment::Env;
pub use link::{Lookup, render_finish};
pub use root::{RootResolution, build_root, join, parent, vcpkg_root};
pub use triplet::{arch_code, rs_triplet, triplet_of, vcpkg_rs_triplet, vcpkg_triplet};
