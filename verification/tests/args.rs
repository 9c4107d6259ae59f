use theseus::args::{
    get_class_paths, get_dir_separator, get_jvm_arguments, get_list_separator,
    get_minecraft_arguments, parse_arguments, parse_jvm_argument, parse_minecraft_argument,
};
use theseus::meta::{
    Arch, Argument, ArgumentValue, Artifact, Credentials, Library, Os, OsRule, Platform, Rule,
    RuleAction,
};

fn linux() -> Platform {
    Platform { os: Os::Linux, arch: Arch::X64, release: "5.15.0".to_string() }
}

fn windows() -> Platform {
    Platform { os: Os::Windows, arch: Arch::X64, release: "10.0".to_string() }
}

fn steve() -> Credentials {
    Credentials {
        username: "Steve".to_string(),
        id: "0123".to_string(),
        access_token: "tok".to_string(),
        user_type: "mojang".to_string(),
    }
}

fn only_on(os: Os) -> Vec<Rule> {
    vec![Rule {
        action: RuleAction::Allow,
        os: Some(OsRule { name: Some(os), version: None, arch: None }),
        features: None,
    }]
}

fn library(name: &str, path: &str, rules: Option<Vec<Rule>>) -> Library {
    Library {
        name: name.to_string(),
        artifact: Artifact {
            url: format!("https://example.invalid/{}", path),
            path: path.to_string(),
            sha1: "00".to_string(),
            size: 1,
        },
        natives: Vec::new(),
        rules,
    }
}

fn game(arguments: Option<&[Argument]>, legacy: Option<&str>, platform: &Platform) -> Vec<String> {
    get_minecraft_arguments(arguments, legacy, &steve(), "1.17", "1.17-idx", "/game", "/assets", "release", platform)
}

#[test]
fn legacy_arguments_are_split_and_filled() {
    assert_eq!(game(None, Some("--username ${auth_player_name}"), &linux()), vec!["--username", "Steve"]);
}

#[test]
fn gated_fragment_on_another_os_gives_nothing() {
    let arguments = vec![Argument::Ruled {
        rules: only_on(Os::Osx),
        value: ArgumentValue::Single("--demo".to_string()),
    }];
    assert_eq!(game(Some(&arguments), None, &linux()), Vec::<String>::new());
    let mac = Platform { os: Os::Osx, arch: Arch::X64, release: "21".to_string() };
    assert_eq!(game(Some(&arguments), None, &mac), vec!["--demo"]);
}

#[test]
fn modern_form_wins_over_legacy_string() {
    let arguments = vec![Argument::Normal("--modern".to_string())];
    assert_eq!(game(Some(&arguments), Some("--legacy"), &linux()), vec!["--modern"]);
    assert_eq!(game(None, None, &linux()), Vec::<String>::new());
}

#[test]
fn fragments_keep_their_order() {
    let arguments = vec![
        Argument::Normal("a".to_string()),
        Argument::Ruled {
            rules: only_on(Os::Linux),
            value: ArgumentValue::Many(vec!["b".to_string(), "c".to_string()]),
        },
        Argument::Ruled { rules: only_on(Os::Windows), value: ArgumentValue::Single("w".to_string()) },
        Argument::Ruled { rules: Vec::new(), value: ArgumentValue::Single("d".to_string()) },
        Argument::Normal("e".to_string()),
    ];
    assert_eq!(parse_arguments(&arguments, &linux()), vec!["a", "b", "c", "d", "e"]);
    assert_eq!(parse_arguments(&arguments, &windows()), vec!["a", "w", "d", "e"]);
    assert_eq!(parse_arguments(&[], &linux()), Vec::<String>::new());
}

#[test]
fn game_placeholders() {
    let fill = |s: &str| parse_minecraft_argument(s, &steve(), "1.17", "1.17-idx", "/game", "/assets", "release");
    assert_eq!(fill("${auth_access_token}"), "tok");
    assert_eq!(fill("${auth_session}"), "tok");
    assert_eq!(fill("${auth_player_name}"), "Steve");
    assert_eq!(fill("${auth_uuid}"), "0123");
    assert_eq!(fill("${user_properties}"), "{}");
    assert_eq!(fill("${user_type}"), "mojang");
    assert_eq!(fill("${version_name}"), "1.17");
    assert_eq!(fill("${assets_index_name}"), "1.17-idx");
    assert_eq!(fill("${game_directory}"), "/game");
    assert_eq!(fill("${assets_root}"), "/assets");
    assert_eq!(fill("${game_assets}"), "/assets");
    assert_eq!(fill("${version_type}"), "release");
    assert_eq!(fill("--x=${version_name}/${version_name}"), "--x=1.17/1.17");
    assert_eq!(fill("plain"), "plain");
}

#[test]
fn unknown_placeholder_stays() {
    assert_eq!(
        parse_minecraft_argument("${quickPlayPath}", &steve(), "v", "i", "g", "a", "t"),
        "${quickPlayPath}"
    );
    assert_eq!(parse_jvm_argument("-Dx=${unknown}", "/n", "cp"), "-Dx=${unknown}");
}

#[test]
fn jvm_placeholders() {
    assert_eq!(parse_jvm_argument("-Djava.library.path=${natives_directory}", "/n/1.17", "a:b"), "-Djava.library.path=/n/1.17");
    assert_eq!(parse_jvm_argument("${classpath}", "/n", "a:b"), "a:b");
    assert_eq!(parse_jvm_argument("-Dname=${launcher_name}", "/n", "a:b"), "-Dname=theseus");
    assert_eq!(parse_jvm_argument("-Dv=${launcher_version}", "/n", "a:b"), "-Dv=0.1.0");
}

#[test]
fn jvm_arguments_of_both_kinds() {
    let arguments = vec![
        Argument::Ruled { rules: only_on(Os::Osx), value: ArgumentValue::Single("-XstartOnFirstThread".to_string()) },
        Argument::Normal("-cp".to_string()),
        Argument::Normal("${classpath}".to_string()),
    ];
    assert_eq!(get_jvm_arguments(Some(&arguments), "/n", "a:b", &linux()), vec!["-cp", "a:b"]);
    assert_eq!(
        get_jvm_arguments(None, "/n", "a:b", &linux()),
        vec!["-Djava.library.path=/n", "-cp", "a:b"]
    );
}

#[test]
fn class_path_keeps_order_and_leaves_out() {
    let libraries = vec![
        library("g:l1:1", "g/l1/1/l1-1.jar", None),
        library("g:l2:1", "g/l2/1/l2-1.jar", Some(only_on(Os::Osx))),
    ];
    assert_eq!(
        get_class_paths("/libs", &libraries, "/client/c.jar", &linux()),
        "/libs/g/l1/1/l1-1.jar:/client/c.jar"
    );
}

#[test]
fn class_path_with_all_libraries() {
    let libraries = vec![
        library("g:l1:1", "l1.jar", Some(only_on(Os::Linux))),
        library("g:l2:1", "l2.jar", Some(Vec::new())),
        library("g:l3:1", "l3.jar", None),
    ];
    assert_eq!(get_class_paths("/libs", &libraries, "c.jar", &linux()), "/libs/l1.jar:/libs/l2.jar:/libs/l3.jar:c.jar");
    assert_eq!(get_class_paths("C:\\libs", &libraries, "c.jar", &windows()), "C:\\libs\\l2.jar;C:\\libs\\l3.jar;c.jar");
    assert_eq!(get_class_paths("/libs", &[], "c.jar", &linux()), "c.jar");
}

#[test]
fn separators_by_platform() {
    assert_eq!(get_dir_separator(Os::Windows), "\\");
    assert_eq!(get_dir_separator(Os::Linux), "/");
    assert_eq!(get_dir_separator(Os::Osx), "/");
    assert_eq!(get_list_separator(Os::Windows), ";");
    assert_eq!(get_list_separator(Os::Unknown), ":");
}
