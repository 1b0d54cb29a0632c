use easycontainer::build_docker_image::{BuildDockerImage, EXECUTE_BITS};
use easycontainer::config::Config;
use easycontainer::docker_rust::ProjectDockerRust;
use easycontainer::platform::{
    container_source, create_platforms, platform_container_args, Platform,
};
use easycontainer::text::{clone_strings, joined, matches_at, push_str, replace_all, trim_matches};

fn config() -> Config {
    Config {
        dir_work: "/work".to_string(),
        dir_project: "/work/app".to_string(),
        docker_tag: "registry/app:1".to_string(),
    }
}

fn amd64() -> Platform {
    Platform {
        docker_platform: "linux/amd64",
        rust_target: "x86_64-unknown-linux-musl",
        container: "sha256:aaa".to_string(),
    }
}

fn arm64() -> Platform {
    Platform {
        docker_platform: "linux/arm64/v8",
        rust_target: "aarch64-unknown-linux-musl",
        container: "sha256:bbb".to_string(),
    }
}

fn with_platform(docker_platform: &'static str) -> Platform {
    Platform { docker_platform, rust_target: "t", container: String::new() }
}

fn strings(items: &[&str]) -> Vec<String> {
    items.iter().map(|s| s.to_string()).collect()
}

#[test]
fn tag_arch_of_the_known_platforms() {
    assert_eq!(Config::build_docker_platform_tag_arch(&amd64()), "amd64");
    assert_eq!(Config::build_docker_platform_tag_arch(&arm64()), "arm64_v8");
}

#[test]
fn tag_arch_agrees_with_the_standard_library() {
    for name in [
        "linux/amd64",
        "linux/arm64/v8",
        "linux",
        "",
        "/",
        "//",
        "___",
        "linux/linux/",
        "a/linux/b",
        "a//b",
        "a___b",
        "_a_",
        "windows/amd64",
        "linlinuxux/x",
        "linux/\u{e9}/\u{4e2d}",
    ] {
        let expected = name.replace("linux", "").replace("/", "_").replace("__", "_");
        let expected = expected.trim_matches('_').to_string();
        assert_eq!(Config::build_docker_platform_tag_arch(&with_platform(name)), expected);
    }
}

#[test]
fn tag_arch_edge_cases() {
    assert_eq!(Config::build_docker_platform_tag_arch(&with_platform("linux")), "");
    assert_eq!(Config::build_docker_platform_tag_arch(&with_platform("a//b")), "a_b");
    assert_eq!(Config::build_docker_platform_tag_arch(&with_platform("a___b")), "a__b");
    assert_eq!(Config::build_docker_platform_tag_arch(&with_platform("a/linux/b")), "a_b");
}

#[test]
fn project_directory_lies_under_the_working_directory() {
    let c = Config::for_project("/work".to_string(), "app", "registry/app:1".to_string());
    assert_eq!(c.dir_work, "/work");
    assert_eq!(c.dir_project, "/work/app");
    assert_eq!(c.docker_tag, "registry/app:1");
    let nested = Config::for_project("/".to_string(), "a/b", String::new());
    assert_eq!(nested.dir_project, "//a/b");
    assert_eq!(nested.docker_tag, "");
}

#[test]
fn platform_tag_joins_tag_and_arch() {
    assert_eq!(config().build_docker_platform_tag(&amd64()), "registry/app:1_amd64");
    assert_eq!(config().build_docker_platform_tag(&arm64()), "registry/app:1_arm64_v8");
    assert_eq!(config().build_docker_platform_tag(&with_platform("linux")), "registry/app:1_");
}

#[test]
fn replace_all_goes_left_to_right_without_overlap() {
    assert_eq!(replace_all("aaa", "aa", "b"), "ba");
    assert_eq!(replace_all("aaaa", "aa", "b"), "bb");
    assert_eq!(replace_all("abab", "ab", "ba"), "baba");
    assert_eq!(replace_all("____", "__", "_"), "__");
    assert_eq!(replace_all("abc", "x", "y"), "abc");
    assert_eq!(replace_all("", "x", "y"), "");
    assert_eq!(replace_all("abc", "abc", ""), "");
    assert_eq!(replace_all("abc", "abcd", "x"), "abc");
    assert_eq!(replace_all("a\u{e9}b\u{e9}", "\u{e9}", "ee"), "aeebee");
}

#[test]
fn replace_all_leaves_text_alone_for_an_empty_pattern() {
    assert_eq!(replace_all("abc", "", "x"), "abc");
    assert_eq!(replace_all("", "", "x"), "");
}

#[test]
fn replace_all_agrees_with_the_standard_library() {
    let texts = ["", "a", "aa", "aaa", "abcabc", "xxabxxabxx", "linux/amd64", "\u{4e2d}a\u{4e2d}"];
    let patterns = ["a", "aa", "ab", "abc", "x", "xx", "/", "\u{4e2d}"];
    let fills = ["", "_", "ab", "aaa"];
    for text in texts {
        for pattern in patterns {
            for fill in fills {
                assert_eq!(replace_all(text, pattern, fill), text.replace(pattern, fill));
            }
        }
    }
}

#[test]
fn trim_matches_strips_both_ends_only() {
    assert_eq!(trim_matches("__a_b__", '_'), "a_b");
    assert_eq!(trim_matches("a", '_'), "a");
    assert_eq!(trim_matches("", '_'), "");
    assert_eq!(trim_matches("___", '_'), "");
    assert_eq!(trim_matches("_", '_'), "");
    assert_eq!(trim_matches("_a", '_'), "a");
    assert_eq!(trim_matches("a_", '_'), "a");
    for text in ["__a_b__", "", "_", "a__", "__a", "\u{e9}_", "_\u{e9}_\u{e9}"] {
        assert_eq!(trim_matches(text, '_'), text.trim_matches('_'));
    }
}

#[test]
fn matches_at_finds_the_pattern_only_where_it_stands() {
    assert!(matches_at("linux/amd64", "linux", 0));
    assert!(!matches_at("linux/amd64", "linux", 1));
    assert!(matches_at("linux/amd64", "amd64", 6));
    assert!(!matches_at("linux/amd64", "amd64", 7));
    assert!(!matches_at("ab", "abc", 0));
    assert!(!matches_at("ab", "b", 2));
    assert!(!matches_at("ab", "b", usize::MAX));
    assert!(matches_at("ab", "", 2));
    assert!(!matches_at("ab", "", 3));
}

#[test]
fn text_helpers_build_what_they_say() {
    assert_eq!(joined("a", "b"), "ab");
    assert_eq!(joined("", ""), "");
    let mut list = strings(&["x"]);
    push_str(&mut list, "y");
    assert_eq!(list, strings(&["x", "y"]));
    assert_eq!(clone_strings(&list), list);
    assert_eq!(clone_strings(&Vec::new()), Vec::<String>::new());
}

#[test]
fn platforms_are_amd64_then_arm64() {
    let platforms = create_platforms("one".to_string(), "two".to_string());
    assert_eq!(platforms.len(), 2);
    assert_eq!(platforms[0].docker_platform, "linux/amd64");
    assert_eq!(platforms[0].rust_target, "x86_64-unknown-linux-musl");
    assert_eq!(platforms[0].container, "one");
    assert_eq!(platforms[1].docker_platform, "linux/arm64/v8");
    assert_eq!(platforms[1].rust_target, "aarch64-unknown-linux-musl");
    assert_eq!(platforms[1].container, "two");
}

#[test]
fn platform_clone_keeps_every_field() {
    let p = arm64().clone();
    assert_eq!(p.docker_platform, "linux/arm64/v8");
    assert_eq!(p.rust_target, "aarch64-unknown-linux-musl");
    assert_eq!(p.container, "sha256:bbb");
    let c = config().clone();
    assert_eq!(c.dir_work, "/work");
    assert_eq!(c.dir_project, "/work/app");
    assert_eq!(c.docker_tag, "registry/app:1");
}

#[test]
fn container_source_defaults_to_the_published_container() {
    assert_eq!(container_source(&None), "easybill/easycontainer:latest");
    assert_eq!(container_source(&Some("./Dockerfile.base".to_string())), "./Dockerfile.base");
    assert_eq!(container_source(&Some(String::new())), "");
}

#[test]
fn platform_container_is_built_quietly_with_buildx() {
    assert_eq!(
        platform_container_args("linux/arm64/v8", "./base"),
        strings(&["buildx", "build", "--platform", "linux/arm64/v8", "./base", "-q"])
    );
}

#[test]
fn build_keeps_settings_and_platforms() {
    let build = BuildDockerImage::new(config(), vec![amd64(), arm64()]);
    assert_eq!(build.config().docker_tag, "registry/app:1");
    assert_eq!(build.config().dir_work, "/work");
    assert_eq!(build.platforms().len(), 2);
    assert_eq!(build.platforms()[1].docker_platform, "linux/arm64/v8");
}

#[test]
fn binaries_are_collected_in_a_folder_per_platform() {
    assert_eq!(
        BuildDockerImage::tmp_binaries_folder(&config(), &amd64()),
        "/work/app/.eb_build_tmp_amd64"
    );
    assert_eq!(
        BuildDockerImage::tmp_binaries_folder(&config(), &arm64()),
        "/work/app/.eb_build_tmp_arm64_v8"
    );
    assert_eq!(BuildDockerImage::relative_tmp_binaries_folder(&arm64()), "./.eb_build_tmp_arm64_v8");
    assert_eq!(
        BuildDockerImage::release_path(&config(), &arm64()),
        "/work/target/aarch64-unknown-linux-musl/release"
    );
    assert_eq!(
        BuildDockerImage::binary_target("/work/app/.eb_build_tmp_amd64", "server"),
        "/work/app/.eb_build_tmp_amd64/server"
    );
}

#[test]
fn binary_is_an_executable_regular_file() {
    assert_eq!(EXECUTE_BITS, 0o111);
    assert!(BuildDockerImage::is_binary(true, 0o755));
    assert!(BuildDockerImage::is_binary(true, 0o100));
    assert!(BuildDockerImage::is_binary(true, 0o010));
    assert!(BuildDockerImage::is_binary(true, 0o001));
    assert!(BuildDockerImage::is_binary(true, 0o100755));
    assert!(!BuildDockerImage::is_binary(true, 0o644));
    assert!(!BuildDockerImage::is_binary(true, 0));
    assert!(!BuildDockerImage::is_binary(false, 0o755));
    assert!(!BuildDockerImage::is_binary(false, 0o644));
}

#[test]
fn image_build_arguments() {
    assert_eq!(
        BuildDockerImage::build_container_args(&config(), &arm64()),
        strings(&[
            "build",
            "-t",
            "registry/app:1_arm64_v8",
            "--build-arg",
            "CARGO_RELEASE=./.eb_build_tmp_arm64_v8",
            "--platform",
            "linux/arm64/v8",
            "/work/app",
        ])
    );
}

#[test]
fn manifest_arguments_name_every_platform_tag() {
    let build = BuildDockerImage::new(config(), vec![amd64(), arm64()]);
    assert_eq!(
        build.manifest_args(),
        strings(&[
            "manifest",
            "create",
            "registry/app:1",
            "registry/app:1_amd64",
            "registry/app:1_arm64_v8",
        ])
    );
    let empty = BuildDockerImage::new(config(), Vec::new());
    assert_eq!(empty.manifest_args(), strings(&["manifest", "create", "registry/app:1"]));
}

#[test]
fn project_paths_and_compile_arguments() {
    assert_eq!(ProjectDockerRust::dockerfile_path(&config()), "/work/app/Dockerfile");
    assert_eq!(ProjectDockerRust::cargo_manifest_path(&config()), "/work/app/Cargo.toml");
    assert_eq!(
        ProjectDockerRust::build_args(&config(), &amd64()),
        strings(&[
            "run",
            "--rm",
            "--entrypoint",
            "cargo",
            "--workdir",
            "/work/app",
            "--platform",
            "linux/amd64",
            "-e",
            "CARGO_HOME=/cargo",
            "--network",
            "host",
            "-v",
            "/work:/work",
            "-v",
            "/tmp/.cargo_cache:/cargo",
            "sha256:aaa",
            "build",
            "--release",
            "--target",
            "x86_64-unknown-linux-musl",
        ])
    );
}
