//! Planning a launch: finding the version, what has to be downloaded, and
//! the command that starts the game.

use crate::args::{
    class_paths, dir_separator, get_class_paths, get_dir_separator, get_jvm_arguments,
    get_minecraft_arguments, jvm_arguments, library_applies, minecraft_arguments,
};
use crate::meta::{
    Argument, Artifact, Credentials, Library, Os, Platform, VersionInfo, VersionManifest,
    VersionSummary,
};
use crate::rules::parse_rules;
use crate::text::{decimal, decimal_text, same_text, texts};
use vstd::prelude::*;

verus! {

/// What can go wrong between asking for a launch and the game's exit.
#[derive(Clone, Debug, PartialEq, Eq)]
pub enum LauncherError {
    /// The bytes behind `url` did not hash to `hash` in any of `tries` attempts.
    ChecksumFailure { hash: String, url: String, tries: u32 },
    /// The caller asked for something that does not exist.
    InvalidInput(String),
    /// A task that ran beside the others failed; the text is its report.
    TaskError(String),
    /// The disk could not be read or written; the text is the system's report.
    IoError(String),
    /// The process could not be started or awaited.
    ProcessError { inner: String, process: String },
    /// A document could not be read as JSON.
    SerdeError(String),
    /// The transport failed to fetch `item`.
    FetchError { inner: String, item: String },
    /// A document or template is not of the expected structure.
    ParseError(String),
}

impl LauncherError {
    /// The report of an error in words.
    pub open spec fn message_text(self) -> Seq<char> {
        match self {
            LauncherError::ChecksumFailure { hash, url, tries } =>
                "Failed to violate file checksum at url "@ + url@ + " with hash "@ + hash@
                    + " after "@ + decimal(tries as nat) + " tries"@,
            LauncherError::InvalidInput(what) => "Invalid input: "@ + what@,
            LauncherError::TaskError(_) => "Error while managing asynchronous tasks"@,
            LauncherError::IoError(_) => "Error while reading/writing to the disk"@,
            LauncherError::ProcessError { inner, process } =>
                "Error while spawning child process "@ + process@,
            LauncherError::SerdeError(_) => "Error while deserializing JSON"@,
            LauncherError::FetchError { inner, item } => "Unable to fetch "@ + item@,
            LauncherError::ParseError(what) => what@,
        }
    }

    /// Reports the error in words.
    pub fn message(&self) -> (r: String)
        ensures
            r@ == self.message_text(),
    {
        match self {
            LauncherError::ChecksumFailure { hash, url, tries } => {
                let count = decimal_text(*tries);
                String::from_str("Failed to violate file checksum at url ").concat(
                    url.as_str(),
                ).concat(" with hash ").concat(hash.as_str()).concat(" after ").concat(
                    count.as_str(),
                ).concat(" tries")
            },
            LauncherError::InvalidInput(what) => String::from_str("Invalid input: ").concat(
                what.as_str(),
            ),
            LauncherError::TaskError(_) => String::from_str(
                "Error while managing asynchronous tasks",
            ),
            LauncherError::IoError(_) => String::from_str(
                "Error while reading/writing to the disk",
            ),
            LauncherError::ProcessError { inner: _, process } => String::from_str(
                "Error while spawning child process ",
            ).concat(process.as_str()),
            LauncherError::SerdeError(_) => String::from_str("Error while deserializing JSON"),
            LauncherError::FetchError { inner: _, item } => String::from_str(
                "Unable to fetch ",
            ).concat(item.as_str()),
            LauncherError::ParseError(what) => what.clone(),
        }
    }
}

/// The directories that a launch works in.
#[derive(Clone, Copy, Debug)]
pub struct LaunchOptions<'a> {
    pub root_dir: &'a str,
    pub assets_dir: &'a str,
    pub legacy_assets_dir: &'a str,
    pub game_dir: &'a str,
    pub natives_dir: &'a str,
    pub libraries_dir: &'a str,
    pub client_dir: &'a str,
}

/// The process to start.
#[derive(Clone, Debug, PartialEq, Eq)]
pub struct LaunchCommand {
    pub program: String,
    pub arguments: Vec<String>,
    pub working_dir: String,
}

/// What a version needs on disk, and where.
#[derive(Clone, Debug, PartialEq, Eq)]
pub struct DownloadPlan {
    /// Where the client's jar goes.
    pub client_jar: String,
    /// Where the mirrored asset tree goes, for versions that need one.
    pub legacy_assets_dir: Option<String>,
    /// Where the version's native libraries are unpacked.
    pub natives_path: String,
    /// The positions, in the version's list, of the libraries that apply.
    pub libraries: Vec<usize>,
    /// The positions of the libraries that apply and bring native binaries
    /// for the platform.
    pub natives: Vec<usize>,
}

/// The path of `name` below `dir`.
pub open spec fn child_path(dir: Seq<char>, name: Seq<char>, os: Os) -> Seq<char> {
    dir + dir_separator(os) + name
}

/// Where a version's native libraries are unpacked.
pub open spec fn natives_path(options: LaunchOptions, version: VersionInfo, os: Os) -> Seq<char> {
    child_path(options.natives_dir@, version.id@, os)
}

/// Where a version's client jar lies.
pub open spec fn client_jar_path(options: LaunchOptions, version: VersionInfo, os: Os) -> Seq<
    char,
> {
    child_path(child_path(options.client_dir@, version.id@, os), version.id@ + ".jar"@, os)
}

/// Where a version's metadata is kept between launches.
pub open spec fn version_info_path(client_dir: Seq<char>, version_name: Seq<char>, os: Os) -> Seq<
    char,
> {
    child_path(child_path(client_dir, version_name, os), version_name + ".json"@, os)
}

/// Where the index of a version's assets is kept.
pub open spec fn asset_index_path(assets_dir: Seq<char>, index_name: Seq<char>, os: Os) -> Seq<
    char,
> {
    child_path(child_path(assets_dir, "indexes"@, os), index_name + ".json"@, os)
}

/// The directory of an asset object below the object store: the first two
/// characters of its hash, or all of a shorter one.
pub open spec fn asset_prefix(hash: Seq<char>) -> Seq<char> {
    if hash.len() >= 2 {
        hash.subrange(0, 2)
    } else {
        hash
    }
}

/// Where an asset object is stored: under its hash, below the object store.
pub open spec fn asset_object_path(assets_dir: Seq<char>, hash: Seq<char>, os: Os) -> Seq<char> {
    child_path(child_path(child_path(assets_dir, "objects"@, os), asset_prefix(hash), os), hash, os)
}

/// Where an asset object is fetched from.
pub open spec fn asset_object_url(hash: Seq<char>) -> Seq<char> {
    "https://resources.download.minecraft.net/"@ + asset_prefix(hash) + "/"@ + hash
}

/// The JVM argument fragments of a version, where it has any.
pub open spec fn jvm_fragments(version: VersionInfo) -> Option<Seq<Argument>> {
    match version.arguments {
        Some(arguments) => match arguments.jvm {
            Some(list) => Some(list@),
            None => None,
        },
        None => None,
    }
}

/// The game argument fragments of a version, where it has any.
pub open spec fn game_fragments(version: VersionInfo) -> Option<Seq<Argument>> {
    match version.arguments {
        Some(arguments) => match arguments.game {
            Some(list) => Some(list@),
            None => None,
        },
        None => None,
    }
}

/// The legacy argument string of a version, where it has one.
pub open spec fn legacy_template(version: VersionInfo) -> Option<Seq<char>> {
    match version.minecraft_arguments {
        Some(legacy) => Some(legacy@),
        None => None,
    }
}

/// The arguments of the process: the JVM's, the main class, the game's.
pub open spec fn launch_arguments(
    options: LaunchOptions,
    version: VersionInfo,
    credentials: Credentials,
    platform: Platform,
) -> Seq<Seq<char>> {
    jvm_arguments(
        jvm_fragments(version),
        natives_path(options, version, platform.os),
        class_paths(
            options.libraries_dir@,
            version.libraries@,
            client_jar_path(options, version, platform.os),
            platform,
        ),
        platform,
    ).push(version.main_class@) + minecraft_arguments(
        game_fragments(version),
        legacy_template(version),
        credentials,
        version.id@,
        version.asset_index_id@,
        options.game_dir@,
        options.assets_dir@,
        version.type_@,
        platform,
    )
}

/// The first position at which the manifest lists the version, if any.
pub open spec fn version_position(manifest: VersionManifest, version_name: Seq<char>, i: int) -> bool {
    &&& 0 <= i < manifest.versions@.len()
    &&& manifest.versions@[i].id@ == version_name
    &&& forall|j: int| 0 <= j < i ==> (#[trigger] manifest.versions@[j]).id@ != version_name
}

/// Whether the manifest lists the version.
pub open spec fn has_version(manifest: VersionManifest, version_name: Seq<char>) -> bool {
    exists|i: int|
        0 <= i < manifest.versions@.len() && (#[trigger] manifest.versions@[i]).id@
            == version_name
}

/// The positions of the libraries that apply on the platform, ascending.
pub open spec fn applying_libraries(libraries: Seq<Library>, platform: Platform) -> Seq<usize>
    decreases libraries.len(),
{
    if libraries.len() == 0 {
        Seq::empty()
    } else {
        let before = applying_libraries(libraries.drop_last(), platform);
        if library_applies(libraries.last(), platform) {
            before.push((libraries.len() - 1) as usize)
        } else {
            before
        }
    }
}

/// Whether position `i` is the first at which a library lists native
/// binaries for an operating system.
pub open spec fn native_position(library: Library, os: Os, i: int) -> bool {
    &&& 0 <= i < library.natives@.len()
    &&& library.natives@[i].os == os
    &&& forall|j: int| 0 <= j < i ==> (#[trigger] library.natives@[j]).os != os
}

/// Whether a library lists native binaries for an operating system.
pub open spec fn has_native(library: Library, os: Os) -> bool {
    exists|i: int| 0 <= i < library.natives@.len() && (#[trigger] library.natives@[i]).os == os
}

/// The positions of the libraries that apply on the platform and bring
/// native binaries for it, ascending.
pub open spec fn native_libraries(libraries: Seq<Library>, platform: Platform) -> Seq<usize>
    decreases libraries.len(),
{
    if libraries.len() == 0 {
        Seq::empty()
    } else {
        let before = native_libraries(libraries.drop_last(), platform);
        if library_applies(libraries.last(), platform) && has_native(
            libraries.last(),
            platform.os,
        ) {
            before.push((libraries.len() - 1) as usize)
        } else {
            before
        }
    }
}

/// The native binaries that a library brings for an operating system: the
/// first that it lists for it, if any.
pub fn native_artifact(library: &Library, os: Os) -> (r: Option<&Artifact>)
    ensures
        r is Some == has_native(*library, os),
        r matches Some(artifact) ==> exists|i: int|
            native_position(*library, os, i) && *artifact == library.natives@[i].artifact,
{
    let mut i: usize = 0;
    while i < library.natives.len()
        invariant
            i <= library.natives.len(),
            forall|j: int| 0 <= j < i ==> (#[trigger] library.natives@[j]).os != os,
        decreases library.natives.len() - i,
    {
        if library.natives[i].os == os {
            assert(native_position(*library, os, i as int));
            return Some(&library.natives[i].artifact);
        }
        i += 1;
    }
    None
}

/// Builds the path of `name` below `dir`.
pub fn get_child_path(dir: &str, name: &str, os: Os) -> (r: String)
    ensures
        r@ == child_path(dir@, name@, os),
{
    String::from_str(dir).concat(get_dir_separator(os)).concat(name)
}

/// Builds the path at which a version's metadata is kept between launches.
pub fn get_version_info_path(client_dir: &str, version_name: &str, os: Os) -> (r: String)
    ensures
        r@ == version_info_path(client_dir@, version_name@, os),
{
    let directory = get_child_path(client_dir, version_name, os);
    let name = String::from_str(version_name).concat(".json");
    get_child_path(directory.as_str(), name.as_str(), os)
}

/// Builds the path at which the index of a version's assets is kept.
pub fn get_asset_index_path(assets_dir: &str, index_name: &str, os: Os) -> (r: String)
    ensures
        r@ == asset_index_path(assets_dir@, index_name@, os),
{
    let directory = get_child_path(assets_dir, "indexes", os);
    let name = String::from_str(index_name).concat(".json");
    get_child_path(directory.as_str(), name.as_str(), os)
}

/// The directory of an asset object below the object store.
pub fn get_asset_prefix(hash: &str) -> (r: String)
    ensures
        r@ == asset_prefix(hash@),
{
    if hash.unicode_len() >= 2 {
        String::from_str(hash.substring_char(0, 2))
    } else {
        String::from_str(hash)
    }
}

/// Builds the path at which an asset object is stored.
pub fn get_asset_object_path(assets_dir: &str, hash: &str, os: Os) -> (r: String)
    ensures
        r@ == asset_object_path(assets_dir@, hash@, os),
{
    let store = get_child_path(assets_dir, "objects", os);
    let prefix = get_asset_prefix(hash);
    let directory = get_child_path(store.as_str(), prefix.as_str(), os);
    get_child_path(directory.as_str(), hash, os)
}

/// Builds the address from which an asset object is fetched.
pub fn get_asset_object_url(hash: &str) -> (r: String)
    ensures
        r@ == asset_object_url(hash@),
{
    let prefix = get_asset_prefix(hash);
    String::from_str("https://resources.download.minecraft.net/").concat(prefix.as_str()).concat(
        "/",
    ).concat(hash)
}

/// Looks a version up in the manifest by its exact id. The first entry with
/// that id is returned; a version that the manifest does not list is the
/// caller's error.
pub fn find_version<'a>(manifest: &'a VersionManifest, version_name: &str) -> (r: Result<
    &'a VersionSummary,
    LauncherError,
>)
    ensures
        r is Ok == has_version(*manifest, version_name@),
        r matches Ok(summary) ==> exists|i: int|
            version_position(*manifest, version_name@, i) && *summary == manifest.versions@[i],
        r matches Err(error) ==> error matches LauncherError::InvalidInput(message) && message@
            == "Version "@ + version_name@ + " does not exist"@,
{
    let mut i: usize = 0;
    while i < manifest.versions.len()
        invariant
            i <= manifest.versions.len(),
            forall|j: int| 0 <= j < i ==> (#[trigger] manifest.versions@[j]).id@ != version_name@,
        decreases manifest.versions.len() - i,
    {
        if same_text(manifest.versions[i].id.as_str(), version_name) {
            assert(version_position(*manifest, version_name@, i as int));
            return Ok(&manifest.versions[i]);
        }
        i += 1;
    }
    let message = String::from_str("Version ").concat(version_name).concat(" does not exist");
    Err(LauncherError::InvalidInput(message))
}

/// Accepts the metadata that was read for a requested version: it must
/// carry the requested id and exactly one form of arguments.
pub fn check_version_info(version_name: &str, version: &VersionInfo) -> (r: Result<
    (),
    LauncherError,
>)
    ensures
        r is Ok == (version.id@ == version_name@ && version.well_formed()),
        r matches Err(error) ==> error matches LauncherError::ParseError(message) && message@
            == (if version.id@ != version_name@ {
            "Version id does not match"@
        } else {
            "Expected exactly one form of arguments"@
        }),
{
    if !same_text(version.id.as_str(), version_name) {
        return Err(LauncherError::ParseError(String::from_str("Version id does not match")));
    }
    if version.minecraft_arguments.is_some() == version.arguments.is_some() {
        return Err(
            LauncherError::ParseError(
                String::from_str("Expected exactly one form of arguments"),
            ),
        );
    }
    Ok(())
}

/// Plans the downloads of a version: where the client's jar and the native
/// libraries go, whether the mirrored asset tree is wanted, and which
/// libraries apply on the platform.
pub fn download_minecraft(options: &LaunchOptions, version: &VersionInfo, platform: &Platform) -> (r:
    DownloadPlan)
    ensures
        r.client_jar@ == client_jar_path(*options, *version, platform.os),
        r.natives_path@ == natives_path(*options, *version, platform.os),
        r.legacy_assets_dir is Some == (version.assets@ == "legacy"@),
        r.legacy_assets_dir matches Some(dir) ==> dir@ == options.legacy_assets_dir@,
        r.libraries@ == applying_libraries(version.libraries@, *platform),
        r.natives@ == native_libraries(version.libraries@, *platform),
{
    let os = platform.os;
    let mut libraries: Vec<usize> = Vec::new();
    let mut natives: Vec<usize> = Vec::new();
    let mut i: usize = 0;
    assert(version.libraries@.take(0) =~= Seq::<Library>::empty());
    while i < version.libraries.len()
        invariant
            i <= version.libraries.len(),
            libraries@ == applying_libraries(version.libraries@.take(i as int), *platform),
            natives@ == native_libraries(version.libraries@.take(i as int), *platform),
            os == platform.os,
        decreases version.libraries.len() - i,
    {
        let ghost next = version.libraries@.take(i + 1);
        assert(next.drop_last() =~= version.libraries@.take(i as int));
        assert(next.last() == version.libraries@[i as int]);
        let applies = match &version.libraries[i].rules {
            Some(rules) => parse_rules(rules.as_slice(), platform),
            None => true,
        };
        let library = &version.libraries[i];
        let brings = native_artifact(library, os).is_some();
        if applies {
            libraries.push(i);
            if brings {
                natives.push(i);
            }
        }
        i += 1;
    }
    assert(version.libraries@.take(i as int) =~= version.libraries@);
    let client_dir = get_child_path(options.client_dir, version.id.as_str(), os);
    let jar_name = version.id.clone().concat(".jar");
    DownloadPlan {
        client_jar: get_child_path(client_dir.as_str(), jar_name.as_str(), os),
        legacy_assets_dir: if same_text(version.assets.as_str(), "legacy") {
            Some(String::from_str(options.legacy_assets_dir))
        } else {
            None
        },
        natives_path: get_child_path(options.natives_dir, version.id.as_str(), os),
        libraries,
        natives,
    }
}

/// The outcome of the whole download, once the client, the assets and the
/// libraries have each come to an end: success where all three succeeded,
/// else the error of the first of them, in that order, that failed.
pub fn join_downloads(
    client: Result<(), LauncherError>,
    assets: Result<(), LauncherError>,
    libraries: Result<(), LauncherError>,
) -> (r: Result<(), LauncherError>)
    ensures
        r == (if client is Err {
            client
        } else if assets is Err {
            assets
        } else {
            libraries
        }),
{
    match client {
        Err(error) => Err(error),
        Ok(_) => match assets {
            Err(error) => Err(error),
            Ok(_) => libraries,
        },
    }
}

/// Builds the command that starts the game: `java` in the root directory,
/// with the JVM arguments, the main class and the game arguments, in that
/// order. The game arguments come from whichever form the version has; a
/// version with both forms or with none is refused.
pub fn launch_minecraft(
    options: &LaunchOptions,
    version: &VersionInfo,
    credentials: &Credentials,
    platform: &Platform,
) -> (r: Result<LaunchCommand, LauncherError>)
    ensures
        r is Ok == version.well_formed(),
        r matches Ok(command) ==> {
            &&& command.program@ == "java"@
            &&& command.working_dir@ == options.root_dir@
            &&& texts(command.arguments@) == launch_arguments(
                *options,
                *version,
                *credentials,
                *platform,
            )
        },
        r matches Err(error) ==> error matches LauncherError::ParseError(message) && message@
            == "Expected exactly one form of arguments"@,
{
    if version.minecraft_arguments.is_some() == version.arguments.is_some() {
        return Err(
            LauncherError::ParseError(
                String::from_str("Expected exactly one form of arguments"),
            ),
        );
    }
    let os = platform.os;
    let natives = get_child_path(options.natives_dir, version.id.as_str(), os);
    let client_dir = get_child_path(options.client_dir, version.id.as_str(), os);
    let jar_name = version.id.clone().concat(".jar");
    let client_jar = get_child_path(client_dir.as_str(), jar_name.as_str(), os);
    let class_path = get_class_paths(
        options.libraries_dir,
        version.libraries.as_slice(),
        client_jar.as_str(),
        platform,
    );
    let jvm: Option<&[Argument]> = match &version.arguments {
        Some(arguments) => match &arguments.jvm {
            Some(list) => Some(list.as_slice()),
            None => None,
        },
        None => None,
    };
    let game: Option<&[Argument]> = match &version.arguments {
        Some(arguments) => match &arguments.game {
            Some(list) => Some(list.as_slice()),
            None => None,
        },
        None => None,
    };
    let legacy: Option<&str> = match &version.minecraft_arguments {
        Some(text) => Some(text.as_str()),
        None => None,
    };
    let mut arguments = get_jvm_arguments(jvm, natives.as_str(), class_path.as_str(), platform);
    let ghost jvm_part = texts(arguments@);
    arguments.push(version.main_class.clone());
    let ghost with_main = texts(arguments@);
    assert(with_main =~= jvm_part.push(version.main_class@));
    let mut game_arguments = get_minecraft_arguments(
        game,
        legacy,
        credentials,
        version.id.as_str(),
        version.asset_index_id.as_str(),
        options.game_dir,
        options.assets_dir,
        version.type_.as_str(),
        platform,
    );
    let ghost game_part = texts(game_arguments@);
    arguments.append(&mut game_arguments);
    assert(texts(arguments@) =~= with_main + game_part);
    Ok(
        LaunchCommand {
            program: String::from_str("java"),
            arguments,
            working_dir: String::from_str(options.root_dir),
        },
    )
}

} // verus!
