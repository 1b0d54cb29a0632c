//! The platforms for which container images are built.

use crate::text::push_str;
use crate::text::string_views;
use vstd::prelude::*;

verus! {

/// A platform that images are built for: its name for docker, its target for
/// the Rust compiler, and the container in which the project is compiled for it.
#[derive(Debug)]
pub struct Platform {
    pub docker_platform: &'static str,
    pub rust_target: &'static str,
    pub container: String,
}

impl Clone for Platform {
    fn clone(&self) -> (p: Platform)
        ensures
            p.docker_platform@ == self.docker_platform@,
            p.rust_target@ == self.rust_target@,
            p.container@ == self.container@,
    {
        Platform {
            docker_platform: self.docker_platform,
            rust_target: self.rust_target,
            container: self.container.clone(),
        }
    }
}

/// The container that platform containers are built from when none is named.
pub open spec fn default_container() -> Seq<char> {
    "easybill/easycontainer:latest"@
}

/// The file or container that the platform containers are built from: the one
/// named, or the default.
pub fn container_source(container: &Option<String>) -> (source: String)
    ensures
        source@ == match *container {
            Some(name) => name@,
            None => default_container(),
        },
{
    match container {
        Some(name) => name.clone(),
        None => String::from_str("easybill/easycontainer:latest"),
    }
}

/// The arguments of the docker call that builds a platform container.
pub open spec fn platform_container_args_of(docker_platform: Seq<char>, source: Seq<char>) -> Seq<
    Seq<char>,
> {
    seq!["buildx"@, "build"@, "--platform"@, docker_platform, source, "-q"@]
}

/// The arguments with which docker is called to build the container of a
/// platform from `source` and to print nothing but the container's id.
pub fn platform_container_args(docker_platform: &str, source: &str) -> (args: Vec<String>)
    ensures
        string_views(args@) == platform_container_args_of(docker_platform@, source@),
{
    let mut args: Vec<String> = Vec::new();
    assert(string_views(args@) =~= Seq::<Seq<char>>::empty());
    push_str(&mut args, "buildx");
    push_str(&mut args, "build");
    push_str(&mut args, "--platform");
    push_str(&mut args, docker_platform);
    push_str(&mut args, source);
    push_str(&mut args, "-q");
    assert(string_views(args@) =~= platform_container_args_of(docker_platform@, source@));
    args
}

/// The platforms that images are built for, given the container of each:
/// first `linux/amd64`, then `linux/arm64/v8`.
pub fn create_platforms(amd64_container: String, arm64_container: String) -> (platforms: Vec<
    Platform,
>)
    ensures
        platforms@.len() == 2,
        platforms@[0].docker_platform@ == "linux/amd64"@,
        platforms@[0].rust_target@ == "x86_64-unknown-linux-musl"@,
        platforms@[0].container@ == amd64_container@,
        platforms@[1].docker_platform@ == "linux/arm64/v8"@,
        platforms@[1].rust_target@ == "aarch64-unknown-linux-musl"@,
        platforms@[1].container@ == arm64_container@,
{
    let mut platforms: Vec<Platform> = Vec::new();
    platforms.push(
        Platform {
            rust_target: "x86_64-unknown-linux-musl",
            docker_platform: "linux/amd64",
            container: amd64_container,
        },
    );
    platforms.push(
        Platform {
            rust_target: "aarch64-unknown-linux-musl",
            docker_platform: "linux/arm64/v8",
            container: arm64_container,
        },
    );
    platforms
}

} // verus!
