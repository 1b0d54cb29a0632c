//! The settings of an image build and the tags derived from them.

use crate::platform::Platform;
use crate::text::{joined, replace_all, replaced, trim_matches, trimmed};
use vstd::prelude::*;

verus! {

/// The settings of an image build.
#[derive(Debug)]
pub struct Config {
    /// The directory the build was started in.
    pub dir_work: String,
    /// The directory of the project that is built.
    pub dir_project: String,
    /// The tag of the image that is built.
    pub docker_tag: String,
}

impl Clone for Config {
    fn clone(&self) -> (c: Config)
        ensures
            c.dir_work@ == self.dir_work@,
            c.dir_project@ == self.dir_project@,
            c.docker_tag@ == self.docker_tag@,
    {
        Config {
            dir_work: self.dir_work.clone(),
            dir_project: self.dir_project.clone(),
            docker_tag: self.docker_tag.clone(),
        }
    }
}

impl Config {
    /// The part of a tag that names the architecture of a docker platform:
    /// the platform's name without `linux`, with `_` for each `/`, with
    /// each `__` made one `_`, and without `_` at either end.
    pub open spec fn tag_arch(docker_platform: Seq<char>) -> Seq<char> {
        trimmed(
            replaced(replaced(replaced(docker_platform, "linux"@, ""@), "/"@, "_"@), "__"@, "_"@),
            '_',
        )
    }

    /// The tag of the image of one platform: the tag of the build, `_`, and
    /// the part that names the platform's architecture.
    pub open spec fn platform_tag(docker_tag: Seq<char>, docker_platform: Seq<char>) -> Seq<char> {
        docker_tag + "_"@ + Self::tag_arch(docker_platform)
    }

    /// The settings of the build of the project `input`, named relative to
    /// the directory `dir_work` in which the build was started.
    pub fn for_project(dir_work: String, input: &str, docker_tag: String) -> (config: Config)
        ensures
            config.dir_work@ == dir_work@,
            config.dir_project@ == dir_work@ + "/"@ + input@,
            config.docker_tag@ == docker_tag@,
    {
        let mut dir_project: String = joined(dir_work.as_str(), "/");
        dir_project.append(input);
        Config { dir_work, dir_project, docker_tag }
    }

    /// The part of a tag that names the architecture of a platform.
    pub fn build_docker_platform_tag_arch(platform: &Platform) -> (tag: String)
        ensures
            tag@ == Self::tag_arch(platform.docker_platform@),
    {
        let without_os: String = replace_all(platform.docker_platform, "linux", "");
        let flat: String = replace_all(without_os.as_str(), "/", "_");
        let tag: String = replace_all(flat.as_str(), "__", "_");
        trim_matches(tag.as_str(), '_')
    }

    /// The tag of the image of a platform.
    pub fn build_docker_platform_tag(&self, platform: &Platform) -> (tag: String)
        ensures
            tag@ == Self::platform_tag(self.docker_tag@, platform.docker_platform@),
    {
        let arch: String = Self::build_docker_platform_tag_arch(platform);
        let mut tag: String = joined(self.docker_tag.as_str(), "_");
        tag.append(arch.as_str());
        tag
    }
}

} // verus!
