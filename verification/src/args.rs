//! Building the command line: which argument fragments apply, what their
//! placeholders stand for, and the class path.

use crate::meta::{Argument, ArgumentValue, Credentials, Library, Os, Platform};
use crate::rules::{parse_rules, rules_hold};
use crate::text::{
    join_texts, joined, lemma_replaced_without_token, occurs, replace_text, replaced, split_words,
    texts, words,
};
use vstd::prelude::*;

verus! {

/// The strings that a value holds, in order.
pub open spec fn argument_values(value: ArgumentValue) -> Seq<Seq<char>> {
    match value {
        ArgumentValue::Single(s) => seq![s@],
        ArgumentValue::Many(v) => texts(v@),
    }
}

/// What one fragment contributes on a platform: a plain string always, a
/// gated value only where its rules hold.
pub open spec fn fragment_values(argument: Argument, platform: Platform) -> Seq<Seq<char>> {
    match argument {
        Argument::Normal(s) => seq![s@],
        Argument::Ruled { rules, value } => if rules_hold(rules@, platform) {
            argument_values(value)
        } else {
            Seq::empty()
        },
    }
}

/// The contributions of all fragments, in the fragments' order.
pub open spec fn selected(arguments: Seq<Argument>, platform: Platform) -> Seq<Seq<char>>
    decreases arguments.len(),
{
    if arguments.len() == 0 {
        Seq::empty()
    } else {
        selected(arguments.drop_last(), platform) + fragment_values(arguments.last(), platform)
    }
}

/// A JVM argument with its placeholders filled in. Text in `${..}` that is
/// none of these placeholders stays as it is.
pub open spec fn jvm_argument(
    argument: Seq<char>,
    natives_path: Seq<char>,
    class_paths: Seq<char>,
) -> Seq<char> {
    let a = replaced(argument, "${natives_directory}"@, natives_path);
    let b = replaced(a, "${launcher_name}"@, "theseus"@);
    let c = replaced(b, "${launcher_version}"@, "0.1.0"@);
    replaced(c, "${classpath}"@, class_paths)
}

/// A game argument with its placeholders filled in. Text in `${..}` that is
/// none of these placeholders stays as it is.
pub open spec fn game_argument(
    argument: Seq<char>,
    credentials: Credentials,
    version: Seq<char>,
    asset_index_name: Seq<char>,
    game_directory: Seq<char>,
    assets_directory: Seq<char>,
    version_type: Seq<char>,
) -> Seq<char> {
    let a = replaced(argument, "${auth_access_token}"@, credentials.access_token@);
    let b = replaced(a, "${auth_session}"@, credentials.access_token@);
    let c = replaced(b, "${auth_player_name}"@, credentials.username@);
    let d = replaced(c, "${auth_uuid}"@, credentials.id@);
    let e = replaced(d, "${user_properties}"@, "{}"@);
    let f = replaced(e, "${user_type}"@, credentials.user_type@);
    let g = replaced(f, "${version_name}"@, version);
    let h = replaced(g, "${assets_index_name}"@, asset_index_name);
    let i = replaced(h, "${game_directory}"@, game_directory);
    let j = replaced(i, "${assets_root}"@, assets_directory);
    let k = replaced(j, "${game_assets}"@, assets_directory);
    replaced(k, "${version_type}"@, version_type)
}

/// The JVM arguments: the selected fragments with their placeholders filled
/// in or, where the version gives none, the library path and the class path.
pub open spec fn jvm_arguments(
    arguments: Option<Seq<Argument>>,
    natives_path: Seq<char>,
    class_paths: Seq<char>,
    platform: Platform,
) -> Seq<Seq<char>> {
    match arguments {
        Some(list) => Seq::new(
            selected(list, platform).len(),
            |i: int| jvm_argument(selected(list, platform)[i], natives_path, class_paths),
        ),
        None => seq!["-Djava.library.path="@ + natives_path, "-cp"@, class_paths],
    }
}

/// The templates of the game arguments before substitution: the selected
/// fragments of the modern form where it is present, else the words of the
/// legacy string, else nothing.
pub open spec fn game_templates(
    arguments: Option<Seq<Argument>>,
    legacy_arguments: Option<Seq<char>>,
    platform: Platform,
) -> Seq<Seq<char>> {
    match arguments {
        Some(list) => selected(list, platform),
        None => match legacy_arguments {
            Some(legacy) => words(legacy),
            None => Seq::empty(),
        },
    }
}

/// The game arguments: each template with its placeholders filled in.
pub open spec fn minecraft_arguments(
    arguments: Option<Seq<Argument>>,
    legacy_arguments: Option<Seq<char>>,
    credentials: Credentials,
    version: Seq<char>,
    asset_index_name: Seq<char>,
    game_directory: Seq<char>,
    assets_directory: Seq<char>,
    version_type: Seq<char>,
    platform: Platform,
) -> Seq<Seq<char>> {
    let templates = game_templates(arguments, legacy_arguments, platform);
    Seq::new(
        templates.len(),
        |i: int|
            game_argument(
                templates[i],
                credentials,
                version,
                asset_index_name,
                game_directory,
                assets_directory,
                version_type,
            ),
    )
}

/// What stands between a directory and a name below it.
pub open spec fn dir_separator(os: Os) -> Seq<char> {
    if os == Os::Windows {
        "\\"@
    } else {
        "/"@
    }
}

/// What stands between two entries of a class path.
pub open spec fn list_separator(os: Os) -> Seq<char> {
    if os == Os::Windows {
        ";"@
    } else {
        ":"@
    }
}

/// Whether a library applies on a platform: it has no rules, or they hold.
pub open spec fn library_applies(library: Library, platform: Platform) -> bool {
    library.rules matches Some(rules) ==> rules_hold(rules@, platform)
}

/// Where a library's jar lies below the libraries directory.
pub open spec fn library_path(libraries_path: Seq<char>, library: Library, os: Os) -> Seq<char> {
    libraries_path + dir_separator(os) + library.artifact.path@
}

/// The jars of the libraries that apply, in the libraries' order.
pub open spec fn library_paths(
    libraries_path: Seq<char>,
    libraries: Seq<Library>,
    platform: Platform,
) -> Seq<Seq<char>>
    decreases libraries.len(),
{
    if libraries.len() == 0 {
        Seq::empty()
    } else {
        let before = library_paths(libraries_path, libraries.drop_last(), platform);
        if library_applies(libraries.last(), platform) {
            before.push(library_path(libraries_path, libraries.last(), platform.os))
        } else {
            before
        }
    }
}

/// The class path: the jars of the libraries that apply, in order, then the
/// client's jar, joined by the platform's separator.
pub open spec fn class_paths(
    libraries_path: Seq<char>,
    libraries: Seq<Library>,
    client_path: Seq<char>,
    platform: Platform,
) -> Seq<char> {
    joined(
        library_paths(libraries_path, libraries, platform).push(client_path),
        list_separator(platform.os),
    )
}

/// Collects what the fragments contribute on a platform, in order and
/// before any placeholder is filled in.
pub fn parse_arguments(arguments: &[Argument], platform: &Platform) -> (r: Vec<String>)
    ensures
        texts(r@) == selected(arguments@, *platform),
{
    let mut out: Vec<String> = Vec::new();
    let mut i: usize = 0;
    assert(arguments@.take(0) =~= Seq::<Argument>::empty());
    assert(texts(out@) =~= Seq::<Seq<char>>::empty());
    while i < arguments.len()
        invariant
            i <= arguments.len(),
            texts(out@) == selected(arguments@.take(i as int), *platform),
        decreases arguments.len() - i,
    {
        let ghost before = texts(out@);
        let ghost next = arguments@.take(i + 1);
        assert(next.drop_last() =~= arguments@.take(i as int));
        assert(next.last() == arguments@[i as int]);
        match &arguments[i] {
            Argument::Normal(s) => {
                out.push(s.clone());
                assert(texts(out@) =~= before + seq![s@]);
            },
            Argument::Ruled { rules, value } => {
                if parse_rules(rules.as_slice(), platform) {
                    match value {
                        ArgumentValue::Single(s) => {
                            out.push(s.clone());
                            assert(texts(out@) =~= before + seq![s@]);
                        },
                        ArgumentValue::Many(v) => {
                            let mut k: usize = 0;
                            assert(texts(out@) =~= before + texts(v@).take(0));
                            while k < v.len()
                                invariant
                                    k <= v.len(),
                                    texts(out@) == before + texts(v@).take(k as int),
                                decreases v.len() - k,
                            {
                                let ghost so_far = texts(out@);
                                let item = v[k].clone();
                                out.push(item);
                                k += 1;
                                assert(texts(out@) =~= so_far.push(item@));
                                assert(texts(v@).take(k as int) =~= texts(v@).take(k - 1).push(
                                    item@,
                                ));
                                assert(texts(out@) =~= before + texts(v@).take(k as int));
                            }
                            assert(texts(v@).take(k as int) =~= texts(v@));
                        },
                    }
                } else {
                    assert(texts(out@) =~= before + Seq::<Seq<char>>::empty());
                }
            },
        }
        i += 1;
    }
    assert(arguments@.take(i as int) =~= arguments@);
    out
}

/// Fills in the placeholders of one JVM argument.
pub fn parse_jvm_argument(argument: &str, natives_path: &str, class_paths: &str) -> (r: String)
    ensures
        r@ == jvm_argument(argument@, natives_path@, class_paths@),
{
    let a = replace_text(argument, "${natives_directory}", natives_path);
    let b = replace_text(a.as_str(), "${launcher_name}", "theseus");
    let c = replace_text(b.as_str(), "${launcher_version}", "0.1.0");
    replace_text(c.as_str(), "${classpath}", class_paths)
}

/// Fills in the placeholders of one game argument.
pub fn parse_minecraft_argument(
    argument: &str,
    credentials: &Credentials,
    version: &str,
    asset_index_name: &str,
    game_directory: &str,
    assets_directory: &str,
    version_type: &str,
) -> (r: String)
    ensures
        r@ == game_argument(
            argument@,
            *credentials,
            version@,
            asset_index_name@,
            game_directory@,
            assets_directory@,
            version_type@,
        ),
{
    let a = replace_text(argument, "${auth_access_token}", credentials.access_token.as_str());
    let b = replace_text(a.as_str(), "${auth_session}", credentials.access_token.as_str());
    let c = replace_text(b.as_str(), "${auth_player_name}", credentials.username.as_str());
    let d = replace_text(c.as_str(), "${auth_uuid}", credentials.id.as_str());
    let e = replace_text(d.as_str(), "${user_properties}", "{}");
    let f = replace_text(e.as_str(), "${user_type}", credentials.user_type.as_str());
    let g = replace_text(f.as_str(), "${version_name}", version);
    let h = replace_text(g.as_str(), "${assets_index_name}", asset_index_name);
    let i = replace_text(h.as_str(), "${game_directory}", game_directory);
    let j = replace_text(i.as_str(), "${assets_root}", assets_directory);
    let k = replace_text(j.as_str(), "${game_assets}", assets_directory);
    replace_text(k.as_str(), "${version_type}", version_type)
}

/// Builds the JVM arguments of a launch.
pub fn get_jvm_arguments(
    arguments: Option<&[Argument]>,
    natives_path: &str,
    class_paths: &str,
    platform: &Platform,
) -> (r: Vec<String>)
    ensures
        texts(r@) == jvm_arguments(
            match arguments {
                Some(list) => Some(list@),
                None => None,
            },
            natives_path@,
            class_paths@,
            *platform,
        ),
{
    let mut out: Vec<String> = Vec::new();
    match arguments {
        Some(list) => {
            let templates = parse_arguments(list, platform);
            let mut i: usize = 0;
            while i < templates.len()
                invariant
                    i <= templates.len(),
                    out@.len() == i,
                    forall|j: int|
                        0 <= j < i ==> (#[trigger] out@[j])@ == jvm_argument(
                            templates@[j]@,
                            natives_path@,
                            class_paths@,
                        ),
                decreases templates.len() - i,
            {
                out.push(parse_jvm_argument(templates[i].as_str(), natives_path, class_paths));
                i += 1;
            }
            assert(texts(out@) =~= jvm_arguments(
                Some(list@),
                natives_path@,
                class_paths@,
                *platform,
            )) by {
                assert forall|j: int| 0 <= j < templates@.len() implies templates@[j]@ == selected(
                    list@,
                    *platform,
                )[j] by {
                    assert(texts(templates@)[j] == templates@[j]@);
                }
            }
        },
        None => {
            out.push(String::from_str("-Djava.library.path=").concat(natives_path));
            out.push(String::from_str("-cp"));
            out.push(String::from_str(class_paths));
            assert(texts(out@) =~= seq![
                "-Djava.library.path="@ + natives_path@,
                "-cp"@,
                class_paths@,
            ]);
        },
    }
    out
}

/// Builds the game arguments of a launch, from the modern form where the
/// version has it and else from the legacy string.
pub fn get_minecraft_arguments(
    arguments: Option<&[Argument]>,
    legacy_arguments: Option<&str>,
    credentials: &Credentials,
    version: &str,
    asset_index_name: &str,
    game_directory: &str,
    assets_directory: &str,
    version_type: &str,
    platform: &Platform,
) -> (r: Vec<String>)
    ensures
        texts(r@) == minecraft_arguments(
            match arguments {
                Some(list) => Some(list@),
                None => None,
            },
            match legacy_arguments {
                Some(legacy) => Some(legacy@),
                None => None,
            },
            *credentials,
            version@,
            asset_index_name@,
            game_directory@,
            assets_directory@,
            version_type@,
            *platform,
        ),
{
    let templates: Vec<String> = match arguments {
        Some(list) => parse_arguments(list, platform),
        None => match legacy_arguments {
            Some(legacy) => split_words(legacy),
            None => Vec::new(),
        },
    };
    let ghost wanted = game_templates(
        match arguments {
            Some(list) => Some(list@),
            None => None,
        },
        match legacy_arguments {
            Some(legacy) => Some(legacy@),
            None => None,
        },
        *platform,
    );
    assert(texts(templates@) =~= wanted);
    let mut out: Vec<String> = Vec::new();
    let mut i: usize = 0;
    while i < templates.len()
        invariant
            i <= templates.len(),
            out@.len() == i,
            forall|j: int|
                0 <= j < i ==> (#[trigger] out@[j])@ == game_argument(
                    templates@[j]@,
                    *credentials,
                    version@,
                    asset_index_name@,
                    game_directory@,
                    assets_directory@,
                    version_type@,
                ),
        decreases templates.len() - i,
    {
        out.push(
            parse_minecraft_argument(
                templates[i].as_str(),
                credentials,
                version,
                asset_index_name,
                game_directory,
                assets_directory,
                version_type,
            ),
        );
        i += 1;
    }
    assert forall|j: int| 0 <= j < templates@.len() implies templates@[j]@ == wanted[j] by {
        assert(texts(templates@)[j] == templates@[j]@);
    }
    assert(texts(out@) =~= minecraft_arguments(
        match arguments {
            Some(list) => Some(list@),
            None => None,
        },
        match legacy_arguments {
            Some(legacy) => Some(legacy@),
            None => None,
        },
        *credentials,
        version@,
        asset_index_name@,
        game_directory@,
        assets_directory@,
        version_type@,
        *platform,
    ));
    out
}

/// What stands between a directory and a name below it.
pub fn get_dir_separator(os: Os) -> (r: &'static str)
    ensures
        r@ == dir_separator(os),
{
    if os == Os::Windows {
        "\\"
    } else {
        "/"
    }
}

/// What stands between two entries of a class path.
pub fn get_list_separator(os: Os) -> (r: &'static str)
    ensures
        r@ == list_separator(os),
{
    if os == Os::Windows {
        ";"
    } else {
        ":"
    }
}

/// Builds the class path of a launch: the jars of the libraries whose rules
/// hold, in the order in which the version lists them, and last the
/// client's jar.
pub fn get_class_paths(
    libraries_path: &str,
    libraries: &[Library],
    client_path: &str,
    platform: &Platform,
) -> (r: String)
    ensures
        r@ == class_paths(libraries_path@, libraries@, client_path@, *platform),
{
    let mut paths: Vec<String> = Vec::new();
    let mut i: usize = 0;
    assert(libraries@.take(0) =~= Seq::<Library>::empty());
    assert(texts(paths@) =~= Seq::<Seq<char>>::empty());
    while i < libraries.len()
        invariant
            i <= libraries.len(),
            texts(paths@) == library_paths(libraries_path@, libraries@.take(i as int), *platform),
        decreases libraries.len() - i,
    {
        let ghost before = texts(paths@);
        let ghost next = libraries@.take(i + 1);
        assert(next.drop_last() =~= libraries@.take(i as int));
        assert(next.last() == libraries@[i as int]);
        let library = &libraries[i];
        let applies = match &library.rules {
            Some(rules) => parse_rules(rules.as_slice(), platform),
            None => true,
        };
        if applies {
            let path = String::from_str(libraries_path).concat(
                get_dir_separator(platform.os),
            ).concat(library.artifact.path.as_str());
            paths.push(path);
            assert(texts(paths@) =~= before.push(
                library_path(libraries_path@, *library, platform.os),
            ));
        }
        i += 1;
    }
    assert(libraries@.take(i as int) =~= libraries@);
    let ghost before = texts(paths@);
    paths.push(String::from_str(client_path));
    assert(texts(paths@) =~= before.push(client_path@));
    join_texts(&paths, get_list_separator(platform.os))
}

/// A JVM argument that holds none of the JVM placeholders is passed on as
/// it is, whatever else it holds in `${..}`.
pub proof fn lemma_jvm_argument_without_placeholders(
    argument: Seq<char>,
    natives_path: Seq<char>,
    class_paths: Seq<char>,
)
    requires
        !occurs(argument, "${natives_directory}"@),
        !occurs(argument, "${launcher_name}"@),
        !occurs(argument, "${launcher_version}"@),
        !occurs(argument, "${classpath}"@),
    ensures
        jvm_argument(argument, natives_path, class_paths) == argument,
{
    lemma_replaced_without_token(argument, "${natives_directory}"@, natives_path);
    lemma_replaced_without_token(argument, "${launcher_name}"@, "theseus"@);
    lemma_replaced_without_token(argument, "${launcher_version}"@, "0.1.0"@);
    lemma_replaced_without_token(argument, "${classpath}"@, class_paths);
}

/// A game argument that holds none of the game placeholders is passed on as
/// it is, whatever else it holds in `${..}`.
pub proof fn lemma_game_argument_without_placeholders(
    argument: Seq<char>,
    credentials: Credentials,
    version: Seq<char>,
    asset_index_name: Seq<char>,
    game_directory: Seq<char>,
    assets_directory: Seq<char>,
    version_type: Seq<char>,
)
    requires
        !occurs(argument, "${auth_access_token}"@),
        !occurs(argument, "${auth_session}"@),
        !occurs(argument, "${auth_player_name}"@),
        !occurs(argument, "${auth_uuid}"@),
        !occurs(argument, "${user_properties}"@),
        !occurs(argument, "${user_type}"@),
        !occurs(argument, "${version_name}"@),
        !occurs(argument, "${assets_index_name}"@),
        !occurs(argument, "${game_directory}"@),
        !occurs(argument, "${assets_root}"@),
        !occurs(argument, "${game_assets}"@),
        !occurs(argument, "${version_type}"@),
    ensures
        game_argument(
            argument,
            credentials,
            version,
            asset_index_name,
            game_directory,
            assets_directory,
            version_type,
        ) == argument,
{
    lemma_replaced_without_token(argument, "${auth_access_token}"@, credentials.access_token@);
    lemma_replaced_without_token(argument, "${auth_session}"@, credentials.access_token@);
    lemma_replaced_without_token(argument, "${auth_player_name}"@, credentials.username@);
    lemma_replaced_without_token(argument, "${auth_uuid}"@, credentials.id@);
    lemma_replaced_without_token(argument, "${user_properties}"@, "{}"@);
    lemma_replaced_without_token(argument, "${user_type}"@, credentials.user_type@);
    lemma_replaced_without_token(argument, "${version_name}"@, version);
    lemma_replaced_without_token(argument, "${assets_index_name}"@, asset_index_name);
    lemma_replaced_without_token(argument, "${game_directory}"@, game_directory);
    lemma_replaced_without_token(argument, "${assets_root}"@, assets_directory);
    lemma_replaced_without_token(argument, "${game_assets}"@, assets_directory);
    lemma_replaced_without_token(argument, "${version_type}"@, version_type);
}

/// Fragments contribute in their order: what a list of fragments put
/// behind another contributes is what the first contributes, followed by
/// what the second does.
pub proof fn lemma_selected_concat(
    first: Seq<Argument>,
    second: Seq<Argument>,
    platform: Platform,
)
    ensures
        selected(first + second, platform) == selected(first, platform) + selected(
            second,
            platform,
        ),
    decreases second.len(),
{
    if second.len() == 0 {
        assert(first + second =~= first);
        assert(selected(first, platform) + selected(second, platform) =~= selected(
            first,
            platform,
        ));
    } else {
        lemma_selected_concat(first, second.drop_last(), platform);
        assert((first + second).drop_last() =~= first + second.drop_last());
        assert((first + second).last() == second.last());
        assert(selected(first + second, platform) =~= selected(first, platform) + selected(
            second,
            platform,
        ));
    }
}

/// The class path keeps the libraries' order: the jars of a list of
/// libraries put behind another are those of the first, followed by those
/// of the second.
pub proof fn lemma_library_paths_concat(
    libraries_path: Seq<char>,
    first: Seq<Library>,
    second: Seq<Library>,
    platform: Platform,
)
    ensures
        library_paths(libraries_path, first + second, platform) == library_paths(
            libraries_path,
            first,
            platform,
        ) + library_paths(libraries_path, second, platform),
    decreases second.len(),
{
    if second.len() == 0 {
        assert(first + second =~= first);
        assert(library_paths(libraries_path, first, platform) + library_paths(
            libraries_path,
            second,
            platform,
        ) =~= library_paths(libraries_path, first, platform));
    } else {
        lemma_library_paths_concat(libraries_path, first, second.drop_last(), platform);
        assert((first + second).drop_last() =~= first + second.drop_last());
        assert((first + second).last() == second.last());
        assert(library_paths(libraries_path, first + second, platform) =~= library_paths(
            libraries_path,
            first,
            platform,
        ) + library_paths(libraries_path, second, platform));
    }
}

/// A library whose rules do not hold leaves no trace in the class path.
pub proof fn lemma_library_left_out(
    libraries_path: Seq<char>,
    before: Seq<Library>,
    library: Library,
    after: Seq<Library>,
    platform: Platform,
)
    requires
        !library_applies(library, platform),
    ensures
        library_paths(libraries_path, before.push(library) + after, platform) == library_paths(
            libraries_path,
            before + after,
            platform,
        ),
{
    lemma_library_paths_concat(libraries_path, before.push(library), after, platform);
    lemma_library_paths_concat(libraries_path, before, after, platform);
    assert(before.push(library).drop_last() =~= before);
}

} // verus!
