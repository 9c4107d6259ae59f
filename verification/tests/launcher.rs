use theseus::launcher::{
    check_version_info, download_minecraft, find_version, get_asset_index_path,
    get_asset_object_path, get_asset_object_url, get_asset_prefix, get_child_path,
    get_version_info_path, join_downloads, launch_minecraft, native_artifact, LaunchOptions,
    LauncherError,
};
use theseus::meta::{
    Arch, Argument, ArgumentValue, Arguments, Artifact, Credentials, Library, NativeClassifier, Os,
    OsRule, Platform, Rule, RuleAction, VersionInfo, VersionManifest, VersionSummary,
};

fn linux() -> Platform {
    Platform { os: Os::Linux, arch: Arch::X64, release: "5.15.0".to_string() }
}

fn options() -> LaunchOptions<'static> {
    LaunchOptions {
        root_dir: "/root",
        assets_dir: "/assets",
        legacy_assets_dir: "/legacy",
        game_dir: "/game",
        natives_dir: "/natives",
        libraries_dir: "/libs",
        client_dir: "/clients",
    }
}

fn steve() -> Credentials {
    Credentials {
        username: "Steve".to_string(),
        id: "0123".to_string(),
        access_token: "tok".to_string(),
        user_type: "mojang".to_string(),
    }
}

fn summary(id: &str, url: &str) -> VersionSummary {
    VersionSummary { id: id.to_string(), url: url.to_string(), type_: "release".to_string() }
}

fn library(path: &str, only_on: Option<Os>) -> Library {
    Library {
        name: path.to_string(),
        artifact: Artifact { url: path.to_string(), path: path.to_string(), sha1: "00".to_string(), size: 1 },
        natives: Vec::new(),
        rules: only_on.map(|os| {
            vec![Rule {
                action: RuleAction::Allow,
                os: Some(OsRule { name: Some(os), version: None, arch: None }),
                features: None,
            }]
        }),
    }
}

fn version(legacy: Option<&str>, arguments: Option<Arguments>) -> VersionInfo {
    VersionInfo {
        id: "1.17".to_string(),
        main_class: "net.minecraft.client.main.Main".to_string(),
        minecraft_arguments: legacy.map(|s| s.to_string()),
        arguments,
        libraries: vec![library("l1.jar", None), library("l2.jar", Some(Os::Osx)), library("l3.jar", Some(Os::Linux))],
        client: library("client.jar", None).artifact,
        asset_index: library("1.17-idx.json", None).artifact,
        asset_index_id: "1.17-idx".to_string(),
        assets: "1.17".to_string(),
        type_: "release".to_string(),
    }
}

#[test]
fn unknown_version_is_invalid_input() {
    let manifest = VersionManifest { versions: vec![summary("1.17", "a"), summary("1.16", "b")] };
    match find_version(&manifest, "nonexistent-id") {
        Err(LauncherError::InvalidInput(message)) => {
            assert_eq!(message, "Version nonexistent-id does not exist")
        }
        other => panic!("unexpected: {:?}", other),
    }
    let empty = VersionManifest { versions: Vec::new() };
    assert!(matches!(find_version(&empty, "1.17"), Err(LauncherError::InvalidInput(_))));
}

#[test]
fn version_is_found_by_exact_id() {
    let manifest = VersionManifest {
        versions: vec![summary("1.17.1", "a"), summary("1.17", "b"), summary("1.17", "c")],
    };
    assert_eq!(find_version(&manifest, "1.17").unwrap().url, "b");
    assert_eq!(find_version(&manifest, "1.17.1").unwrap().url, "a");
    assert!(find_version(&manifest, "1.1").is_err());
}

#[test]
fn version_info_must_match_the_request() {
    assert_eq!(check_version_info("1.17", &version(Some("x"), None)), Ok(()));
    assert_eq!(
        check_version_info("1.16", &version(Some("x"), None)),
        Err(LauncherError::ParseError("Version id does not match".to_string()))
    );
    assert_eq!(
        check_version_info("1.17", &version(None, None)),
        Err(LauncherError::ParseError("Expected exactly one form of arguments".to_string()))
    );
    let both = version(Some("x"), Some(Arguments { jvm: None, game: None }));
    assert!(matches!(check_version_info("1.17", &both), Err(LauncherError::ParseError(_))));
}

#[test]
fn child_paths() {
    assert_eq!(get_child_path("/a", "b", Os::Linux), "/a/b");
    assert_eq!(get_child_path("C:\\a", "b", Os::Windows), "C:\\a\\b");
}

#[test]
fn download_plan_of_a_version() {
    let plan = download_minecraft(&options(), &version(Some("x"), None), &linux());
    assert_eq!(plan.client_jar, "/clients/1.17/1.17.jar");
    assert_eq!(plan.natives_path, "/natives/1.17");
    assert_eq!(plan.legacy_assets_dir, None);
    assert_eq!(plan.libraries, vec![0, 2]);
    assert_eq!(plan.natives, Vec::<usize>::new());
    let mut old = version(Some("x"), None);
    old.assets = "legacy".to_string();
    old.libraries = Vec::new();
    let plan = download_minecraft(&options(), &old, &linux());
    assert_eq!(plan.legacy_assets_dir, Some("/legacy".to_string()));
    assert_eq!(plan.libraries, Vec::<usize>::new());
}

#[test]
fn first_failed_download_is_reported() {
    let a = || Err(LauncherError::IoError("a".to_string()));
    let b = || Err(LauncherError::IoError("b".to_string()));
    let c = || Err(LauncherError::IoError("c".to_string()));
    assert_eq!(join_downloads(Ok(()), Ok(()), Ok(())), Ok(()));
    assert_eq!(join_downloads(a(), b(), c()), a());
    assert_eq!(join_downloads(Ok(()), b(), c()), b());
    assert_eq!(join_downloads(Ok(()), Ok(()), c()), c());
    assert_eq!(join_downloads(a(), Ok(()), Ok(())), a());
}

#[test]
fn command_of_a_legacy_version() {
    let command = launch_minecraft(
        &options(),
        &version(Some("--username ${auth_player_name} --version ${version_name}"), None),
        &steve(),
        &linux(),
    )
    .unwrap();
    assert_eq!(command.program, "java");
    assert_eq!(command.working_dir, "/root");
    assert_eq!(
        command.arguments,
        vec![
            "-Djava.library.path=/natives/1.17",
            "-cp",
            "/libs/l1.jar:/libs/l3.jar:/clients/1.17/1.17.jar",
            "net.minecraft.client.main.Main",
            "--username",
            "Steve",
            "--version",
            "1.17",
        ]
    );
}

#[test]
fn command_of_a_modern_version() {
    let arguments = Arguments {
        jvm: Some(vec![
            Argument::Normal("-Djava.library.path=${natives_directory}".to_string()),
            Argument::Normal("-cp".to_string()),
            Argument::Normal("${classpath}".to_string()),
        ]),
        game: Some(vec![
            Argument::Normal("--accessToken".to_string()),
            Argument::Normal("${auth_access_token}".to_string()),
            Argument::Ruled {
                rules: vec![Rule {
                    action: RuleAction::Allow,
                    os: Some(OsRule { name: Some(Os::Osx), version: None, arch: None }),
                    features: None,
                }],
                value: ArgumentValue::Single("--demo".to_string()),
            },
        ]),
    };
    let command = launch_minecraft(&options(), &version(None, Some(arguments)), &steve(), &linux()).unwrap();
    assert_eq!(
        command.arguments,
        vec![
            "-Djava.library.path=/natives/1.17",
            "-cp",
            "/libs/l1.jar:/libs/l3.jar:/clients/1.17/1.17.jar",
            "net.minecraft.client.main.Main",
            "--accessToken",
            "tok",
        ]
    );
}

#[test]
fn version_with_no_or_both_forms_is_refused() {
    assert!(matches!(
        launch_minecraft(&options(), &version(None, None), &steve(), &linux()),
        Err(LauncherError::ParseError(_))
    ));
    let both = version(Some("x"), Some(Arguments { jvm: None, game: None }));
    assert!(matches!(
        launch_minecraft(&options(), &both, &steve(), &linux()),
        Err(LauncherError::ParseError(_))
    ));
}

fn native(os: Os, path: &str) -> NativeClassifier {
    NativeClassifier { os, artifact: library(path, None).artifact }
}

#[test]
fn native_binaries_by_os() {
    let mut lwjgl = library("lwjgl.jar", None);
    lwjgl.natives = vec![native(Os::Windows, "w.jar"), native(Os::Linux, "l.jar"), native(Os::Linux, "l2.jar")];
    assert_eq!(native_artifact(&lwjgl, Os::Linux).unwrap().path, "l.jar");
    assert_eq!(native_artifact(&lwjgl, Os::Windows).unwrap().path, "w.jar");
    assert!(native_artifact(&lwjgl, Os::Osx).is_none());
    assert!(native_artifact(&library("x.jar", None), Os::Linux).is_none());
}

#[test]
fn natives_of_libraries_that_apply() {
    let mut with = library("a.jar", None);
    with.natives = vec![native(Os::Linux, "a-natives.jar")];
    let mut elsewhere = library("b.jar", Some(Os::Osx));
    elsewhere.natives = vec![native(Os::Linux, "b-natives.jar")];
    let mut other_os = library("c.jar", None);
    other_os.natives = vec![native(Os::Windows, "c-natives.jar")];
    let mut info = version(Some("x"), None);
    info.libraries = vec![library("p.jar", None), with, elsewhere, other_os];
    let plan = download_minecraft(&options(), &info, &linux());
    assert_eq!(plan.libraries, vec![0, 1, 3]);
    assert_eq!(plan.natives, vec![1]);
}

#[test]
fn errors_in_words() {
    let failure = LauncherError::ChecksumFailure { hash: "abc".to_string(), url: "u".to_string(), tries: 3 };
    assert_eq!(failure.message(), "Failed to violate file checksum at url u with hash abc after 3 tries");
    assert_eq!(LauncherError::InvalidInput("x".to_string()).message(), "Invalid input: x");
    assert_eq!(LauncherError::TaskError("x".to_string()).message(), "Error while managing asynchronous tasks");
    assert_eq!(LauncherError::IoError("x".to_string()).message(), "Error while reading/writing to the disk");
    let process = LauncherError::ProcessError { inner: "x".to_string(), process: "minecraft".to_string() };
    assert_eq!(process.message(), "Error while spawning child process minecraft");
    assert_eq!(LauncherError::SerdeError("x".to_string()).message(), "Error while deserializing JSON");
    let fetch = LauncherError::FetchError { inner: "x".to_string(), item: "manifest".to_string() };
    assert_eq!(fetch.message(), "Unable to fetch manifest");
    assert_eq!(LauncherError::ParseError("bad".to_string()).message(), "bad");
}

#[test]
fn where_files_are_kept() {
    assert_eq!(get_version_info_path("/clients", "1.17", Os::Linux), "/clients/1.17/1.17.json");
    assert_eq!(get_asset_index_path("/assets", "1.17", Os::Linux), "/assets/indexes/1.17.json");
    assert_eq!(get_asset_prefix("abcdef"), "ab");
    assert_eq!(get_asset_prefix("a"), "a");
    assert_eq!(get_asset_prefix(""), "");
    assert_eq!(get_asset_object_path("/assets", "abcdef", Os::Linux), "/assets/objects/ab/abcdef");
    assert_eq!(get_asset_object_path("A", "abcdef", Os::Windows), "A\\objects\\ab\\abcdef");
    assert_eq!(get_asset_object_url("abcdef"), "https://resources.download.minecraft.net/ab/abcdef");
}
