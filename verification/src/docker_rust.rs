//! A Rust project that is compiled inside the container of each platform.

use crate::config::Config;
use crate::platform::Platform;
use crate::text::{joined, push_str, string_views};
use vstd::prelude::*;

verus! {

/// A project with a `Dockerfile` and a `Cargo.toml` whose binaries have been
/// built for every platform.
#[derive(Debug)]
pub struct ProjectDockerRust {}

impl ProjectDockerRust {
    /// The arguments of the docker call that compiles the project for a platform.
    pub open spec fn build_args_of(config: Config, platform: Platform) -> Seq<Seq<char>> {
        seq![
            "run"@,
            "--rm"@,
            "--entrypoint"@,
            "cargo"@,
            "--workdir"@,
            config.dir_project@,
            "--platform"@,
            platform.docker_platform@,
            "-e"@,
            "CARGO_HOME=/cargo"@,
            "--network"@,
            "host"@,
            "-v"@,
            config.dir_work@ + ":"@ + config.dir_work@,
            "-v"@,
            "/tmp/.cargo_cache:/cargo"@,
            platform.container@,
            "build"@,
            "--release"@,
            "--target"@,
            platform.rust_target@,
        ]
    }

    /// The path of the project's `Dockerfile`.
    pub fn dockerfile_path(config: &Config) -> (path: String)
        ensures
            path@ == config.dir_project@ + "/Dockerfile"@,
    {
        joined(config.dir_project.as_str(), "/Dockerfile")
    }

    /// The path of the project's `Cargo.toml`.
    pub fn cargo_manifest_path(config: &Config) -> (path: String)
        ensures
            path@ == config.dir_project@ + "/Cargo.toml"@,
    {
        joined(config.dir_project.as_str(), "/Cargo.toml")
    }

    /// The arguments with which docker is called to compile the project for
    /// a platform: cargo runs in the platform's container, in the project's
    /// directory, with the working directory mounted at its own path and a
    /// cargo cache that the builds share.
    pub fn build_args(config: &Config, platform: &Platform) -> (args: Vec<String>)
        ensures
            string_views(args@) == Self::build_args_of(*config, *platform),
    {
        let mut mount: String = joined(config.dir_work.as_str(), ":");
        mount.append(config.dir_work.as_str());
        let mut args: Vec<String> = Vec::new();
        assert(string_views(args@) =~= Seq::<Seq<char>>::empty());
        push_str(&mut args, "run");
        push_str(&mut args, "--rm");
        push_str(&mut args, "--entrypoint");
        push_str(&mut args, "cargo");
        push_str(&mut args, "--workdir");
        push_str(&mut args, config.dir_project.as_str());
        push_str(&mut args, "--platform");
        push_str(&mut args, platform.docker_platform);
        push_str(&mut args, "-e");
        push_str(&mut args, "CARGO_HOME=/cargo");
        push_str(&mut args, "--network");
        push_str(&mut args, "host");
        push_str(&mut args, "-v");
        push_str(&mut args, mount.as_str());
        push_str(&mut args, "-v");
        push_str(&mut args, "/tmp/.cargo_cache:/cargo");
        push_str(&mut args, platform.container.as_str());
        push_str(&mut args, "build");
        push_str(&mut args, "--release");
        push_str(&mut args, "--target");
        push_str(&mut args, platform.rust_target);
        assert(string_views(args@) =~= Self::build_args_of(*config, *platform));
        args
    }
}

} // verus!
