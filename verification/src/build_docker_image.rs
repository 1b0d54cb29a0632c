//! The build of one container image per platform: where the binaries are
//! taken from, where they are put, and how docker is called.

use crate::config::Config;
use crate::platform::Platform;
use crate::text::{joined, push_str, string_views};
use vstd::prelude::*;

verus! {

/// The build of the images of a project for a list of platforms.
pub struct BuildDockerImage {
    config: Config,
    platforms: Vec<Platform>,
}

/// The permission bits that let someone execute a file.
pub const EXECUTE_BITS: u32 = 0o111;

impl BuildDockerImage {
    /// The settings of the build.
    pub closed spec fn config_of(&self) -> Config {
        self.config
    }

    /// The platforms of the build.
    pub closed spec fn platforms_of(&self) -> Seq<Platform> {
        self.platforms@
    }

    /// A build with the given settings for the given platforms.
    pub fn new(config: Config, platforms: Vec<Platform>) -> (build: BuildDockerImage)
        ensures
            build.config_of() == config,
            build.platforms_of() == platforms@,
    {
        Self { config, platforms: platforms }
    }

    /// The settings of the build.
    pub fn config(&self) -> (config: &Config)
        ensures
            *config == self.config_of(),
    {
        &self.config
    }

    /// The platforms of the build.
    pub fn platforms(&self) -> (platforms: &Vec<Platform>)
        ensures
            platforms@ == self.platforms_of(),
    {
        &self.platforms
    }

    /// The folder inside the project in which the binaries of a platform are
    /// collected for the image build.
    pub open spec fn tmp_binaries_folder_of(dir_project: Seq<char>, docker_platform: Seq<char>) -> Seq<
        char,
    > {
        dir_project + "/.eb_build_tmp_"@ + Config::tag_arch(docker_platform)
    }

    /// The same folder as seen from the project's directory.
    pub open spec fn relative_tmp_binaries_folder_of(docker_platform: Seq<char>) -> Seq<char> {
        "./.eb_build_tmp_"@ + Config::tag_arch(docker_platform)
    }

    /// The folder in which the compiler leaves the release binaries of a target.
    pub open spec fn release_path_of(dir_work: Seq<char>, rust_target: Seq<char>) -> Seq<char> {
        dir_work + "/target/"@ + rust_target + "/release"@
    }

    /// The arguments of the docker call that builds the image of a platform.
    pub open spec fn build_container_args_of(config: Config, platform: Platform) -> Seq<Seq<char>> {
        seq![
            "build"@,
            "-t"@,
            Config::platform_tag(config.docker_tag@, platform.docker_platform@),
            "--build-arg"@,
            "CARGO_RELEASE="@ + Self::relative_tmp_binaries_folder_of(platform.docker_platform@),
            "--platform"@,
            platform.docker_platform@,
            config.dir_project@,
        ]
    }

    /// The tags of the images of the given platforms, in order.
    pub open spec fn platform_tags_of(docker_tag: Seq<char>, platforms: Seq<Platform>) -> Seq<
        Seq<char>,
    > {
        Seq::new(
            platforms.len(),
            |i: int| Config::platform_tag(docker_tag, platforms[i].docker_platform@),
        )
    }

    /// The folder inside the project in which the binaries of a platform are
    /// collected for the image build.
    pub fn tmp_binaries_folder(config: &Config, platform: &Platform) -> (folder: String)
        ensures
            folder@ == Self::tmp_binaries_folder_of(config.dir_project@, platform.docker_platform@),
    {
        let arch: String = Config::build_docker_platform_tag_arch(platform);
        let mut folder: String = joined(config.dir_project.as_str(), "/.eb_build_tmp_");
        folder.append(arch.as_str());
        folder
    }

    /// The folder of the collected binaries as seen from the project's directory.
    pub fn relative_tmp_binaries_folder(platform: &Platform) -> (folder: String)
        ensures
            folder@ == Self::relative_tmp_binaries_folder_of(platform.docker_platform@),
    {
        let arch: String = Config::build_docker_platform_tag_arch(platform);
        joined("./.eb_build_tmp_", arch.as_str())
    }

    /// The folder in which the release binaries of a platform are looked for.
    pub fn release_path(config: &Config, platform: &Platform) -> (path: String)
        ensures
            path@ == Self::release_path_of(config.dir_work@, platform.rust_target@),
    {
        let mut path: String = joined(config.dir_work.as_str(), "/target/");
        path.append(platform.rust_target);
        path.append("/release");
        path
    }

    /// The path a binary is copied to: the folder, `/`, and the file's name.
    pub fn binary_target(folder: &str, file_name: &str) -> (path: String)
        ensures
            path@ == folder@ + "/"@ + file_name@,
    {
        let mut path: String = joined(folder, "/");
        path.append(file_name);
        path
    }

    /// Whether a directory entry counts as a binary: a regular file that
    /// someone may execute.
    pub fn is_binary(is_file: bool, mode: u32) -> (binary: bool)
        ensures
            binary == (is_file && mode & EXECUTE_BITS != 0),
    {
        is_file && mode & EXECUTE_BITS != 0
    }

    /// The arguments with which docker is called to build the image of a
    /// platform from the project's directory.
    pub fn build_container_args(config: &Config, platform: &Platform) -> (args: Vec<String>)
        ensures
            string_views(args@) == Self::build_container_args_of(*config, *platform),
    {
        let tag: String = config.build_docker_platform_tag(platform);
        let folder: String = Self::relative_tmp_binaries_folder(platform);
        let build_arg: String = joined("CARGO_RELEASE=", folder.as_str());
        let mut args: Vec<String> = Vec::new();
        assert(string_views(args@) =~= Seq::<Seq<char>>::empty());
        push_str(&mut args, "build");
        push_str(&mut args, "-t");
        push_str(&mut args, tag.as_str());
        push_str(&mut args, "--build-arg");
        push_str(&mut args, build_arg.as_str());
        push_str(&mut args, "--platform");
        push_str(&mut args, platform.docker_platform);
        push_str(&mut args, config.dir_project.as_str());
        assert(string_views(args@) =~= Self::build_container_args_of(*config, *platform));
        args
    }

    /// The arguments with which docker is called to join the images of all
    /// platforms of the build under the tag of the build.
    pub fn manifest_args(&self) -> (args: Vec<String>)
        ensures
            string_views(args@) == seq!["manifest"@, "create"@, self.config_of().docker_tag@]
                + Self::platform_tags_of(self.config_of().docker_tag@, self.platforms_of()),
    {
        let mut args: Vec<String> = Vec::new();
        assert(string_views(args@) =~= Seq::<Seq<char>>::empty());
        push_str(&mut args, "manifest");
        push_str(&mut args, "create");
        push_str(&mut args, self.config.docker_tag.as_str());
        let ghost head = string_views(args@);
        let ghost tags = Self::platform_tags_of(self.config.docker_tag@, self.platforms@);
        let mut i: usize = 0;
        while i < self.platforms.len()
            invariant
                i <= self.platforms@.len(),
                tags == Self::platform_tags_of(self.config.docker_tag@, self.platforms@),
                string_views(args@) == head + tags.take(i as int),
            decreases self.platforms.len() - i,
        {
            let tag: String = self.config.build_docker_platform_tag(&self.platforms[i]);
            push_str(&mut args, tag.as_str());
            i += 1;
            assert(string_views(args@) =~= head + tags.take(i as int));
        }
        assert(tags.take(i as int) =~= tags);
        args
    }
}

} // verus!
