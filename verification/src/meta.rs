//! The data that a version's metadata is made of.

use crate::text::same_text;
use vstd::prelude::*;

verus! {

/// Whether a rule lets its subject in or keeps it out when its predicate holds.
#[derive(Clone, Copy, Debug, PartialEq, Eq, Structural)]
pub enum RuleAction {
    Allow,
    Disallow,
}

/// The operating systems that metadata can name.
#[derive(Clone, Copy, Debug, PartialEq, Eq, Structural)]
pub enum Os {
    Osx,
    Windows,
    Linux,
    Unknown,
}

/// The operating system that a name in metadata stands for; a name that
/// is none of `osx`, `windows` and `linux` stands for an unknown one.
pub open spec fn os_named(name: Seq<char>) -> Os {
    if name == "osx"@ {
        Os::Osx
    } else if name == "windows"@ {
        Os::Windows
    } else if name == "linux"@ {
        Os::Linux
    } else {
        Os::Unknown
    }
}

/// The action that a name in metadata stands for, if any.
pub open spec fn action_named(name: Seq<char>) -> Option<RuleAction> {
    if name == "allow"@ {
        Some(RuleAction::Allow)
    } else if name == "disallow"@ {
        Some(RuleAction::Disallow)
    } else {
        None
    }
}

/// Reads the name of an operating system.
pub fn os_from_name(name: &str) -> (r: Os)
    ensures
        r == os_named(name@),
{
    if same_text(name, "osx") {
        Os::Osx
    } else if same_text(name, "windows") {
        Os::Windows
    } else if same_text(name, "linux") {
        Os::Linux
    } else {
        Os::Unknown
    }
}

/// Reads the name of a rule's action.
pub fn action_from_name(name: &str) -> (r: Option<RuleAction>)
    ensures
        r == action_named(name@),
{
    if same_text(name, "allow") {
        Some(RuleAction::Allow)
    } else if same_text(name, "disallow") {
        Some(RuleAction::Disallow)
    } else {
        None
    }
}

/// The processor architectures that a rule can tell apart.
#[derive(Clone, Copy, Debug, PartialEq, Eq, Structural)]
pub enum Arch {
    X86,
    X64,
    Arm,
    Other,
}

/// The machine that rules are evaluated for.
#[derive(Clone, Debug)]
pub struct Platform {
    pub os: Os,
    pub arch: Arch,
    /// The release string of the running operating system.
    pub release: String,
}

/// A predicate on the operating system; a field that is not set holds of
/// every platform.
#[derive(Clone, Debug)]
pub struct OsRule {
    pub name: Option<Os>,
    /// A regular expression for the release string.
    pub version: Option<String>,
    pub arch: Option<String>,
}

/// A predicate on launcher features. Its presence alone decides: no feature
/// is ever taken to be switched on.
#[derive(Clone, Copy, Debug)]
pub struct FeatureRule {
    pub is_demo_user: Option<bool>,
    pub has_custom_resolution: Option<bool>,
}

/// One rule that gates a library or an argument.
#[derive(Clone, Debug)]
pub struct Rule {
    pub action: RuleAction,
    pub os: Option<OsRule>,
    pub features: Option<FeatureRule>,
}

/// A file to download, with the hash that its bytes must have.
#[derive(Clone, Debug)]
pub struct Artifact {
    pub url: String,
    /// Where the file lies, relative to the directory of its kind.
    pub path: String,
    /// The expected hash of the file's bytes, in hexadecimal.
    pub sha1: String,
    pub size: u64,
}

/// The native binaries that a library brings for one operating system.
#[derive(Clone, Debug)]
pub struct NativeClassifier {
    pub os: Os,
    pub artifact: Artifact,
}

/// A library of a version, with the rules that decide where it applies.
#[derive(Clone, Debug)]
pub struct Library {
    pub name: String,
    pub artifact: Artifact,
    /// The native binaries of the library, by operating system.
    pub natives: Vec<NativeClassifier>,
    pub rules: Option<Vec<Rule>>,
}

/// What a rule-gated argument contributes: one string or several.
#[derive(Clone, Debug)]
pub enum ArgumentValue {
    Single(String),
    Many(Vec<String>),
}

/// One fragment of an argument list: a plain string, or strings that apply
/// only where the rules hold.
#[derive(Clone, Debug)]
pub enum Argument {
    Normal(String),
    Ruled { rules: Vec<Rule>, value: ArgumentValue },
}

/// The argument lists of the modern form, by the part of the command line
/// that they belong to.
#[derive(Clone, Debug)]
pub struct Arguments {
    pub jvm: Option<Vec<Argument>>,
    pub game: Option<Vec<Argument>>,
}

/// The identity that the game is started with.
#[derive(Clone, Debug)]
pub struct Credentials {
    pub username: String,
    pub id: String,
    pub access_token: String,
    pub user_type: String,
}

/// One entry of the index of all releases.
#[derive(Clone, Debug)]
pub struct VersionSummary {
    pub id: String,
    pub url: String,
    pub type_: String,
}

/// The index of all releases, in the order in which it lists them.
#[derive(Clone, Debug)]
pub struct VersionManifest {
    pub versions: Vec<VersionSummary>,
}

/// The metadata of one release.
#[derive(Clone, Debug)]
pub struct VersionInfo {
    pub id: String,
    pub main_class: String,
    /// The legacy form of the game arguments: one template string.
    pub minecraft_arguments: Option<String>,
    /// The modern form of the arguments.
    pub arguments: Option<Arguments>,
    pub libraries: Vec<Library>,
    /// The client's jar; its path is not read.
    pub client: Artifact,
    /// The index of the version's assets; its path is not read.
    pub asset_index: Artifact,
    pub asset_index_id: String,
    /// The tag of the asset layout; `legacy` asks for the mirrored tree.
    pub assets: String,
    pub type_: String,
}

impl VersionInfo {
    /// Exactly one of the two forms of arguments is present.
    pub open spec fn well_formed(&self) -> bool {
        self.minecraft_arguments is Some != self.arguments is Some
    }
}

} // verus!
