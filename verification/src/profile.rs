//! Launcher profiles.

use vstd::prelude::*;
use vstd::string::*;

use crate::text;
use crate::text::{parse_number, trim_text};

verus! {

/// The mod loader of a profile.
#[derive(Debug, Clone, Copy, PartialEq, Eq, Structural)]
pub enum ProfileLoader {
    /// No loader.
    Vanilla,
    /// Fabric.
    Fabric,
    /// Quilt.
    Quilt,
    /// Forge.
    Forge,
    /// NeoForge.
    NeoForge,
}

/// Which version of the loader a profile uses.
#[derive(Debug, Clone, PartialEq, Eq)]
pub enum ProfileLoaderVersion {
    /// The latest stable version.
    LatestStable,
    /// The latest version.
    Latest,
    /// The version with this name.
    Exact(String),
}

/// Where the color of a profile's card comes from.
#[derive(Debug, Clone, Copy, PartialEq, Eq, Structural)]
pub enum ProfileColorMode {
    /// From the profile's name.
    Auto,
    /// From the profile's color.
    Custom,
}

impl Default for ProfileColorMode {
    fn default() -> (r: Self)
        ensures
            r == ProfileColorMode::Auto,
    {
        ProfileColorMode::Auto
    }
}

/// A launcher profile.
///
/// The identifier is the profile's identity in storage: the name can change
/// without moving the profile's game data.
#[derive(Debug, Clone, PartialEq, Eq)]
pub struct LauncherProfile {
    /// Identity in storage.
    pub id: String,
    /// Name that is shown.
    pub name: String,
    /// Game version.
    pub version_id: String,
    /// Mod loader.
    pub loader: ProfileLoader,
    /// Loader version.
    pub loader_version: ProfileLoaderVersion,
    /// Where the card's color comes from.
    pub color_mode: ProfileColorMode,
    /// The card's color, as `#RRGGBB`.
    pub color_hex: Option<String>,
    /// Java executable.
    pub java_binary: Option<String>,
    /// Whether a Java runtime may be downloaded.
    pub java_auto_download: bool,
    /// Memory limit in megabytes.
    pub java_memory_mb: Option<u32>,
    /// Extra JVM arguments.
    pub java_args: Option<String>,
}

/// A loader version as plain values.
pub enum LoaderVersionView {
    LatestStable,
    Latest,
    Exact(Seq<char>),
}

impl View for ProfileLoaderVersion {
    type V = LoaderVersionView;

    open spec fn view(&self) -> LoaderVersionView {
        match *self {
            ProfileLoaderVersion::LatestStable => LoaderVersionView::LatestStable,
            ProfileLoaderVersion::Latest => LoaderVersionView::Latest,
            ProfileLoaderVersion::Exact(version) => LoaderVersionView::Exact(version@),
        }
    }
}

/// A profile as plain values.
pub struct ProfileView {
    pub id: Seq<char>,
    pub name: Seq<char>,
    pub version_id: Seq<char>,
    pub loader: ProfileLoader,
    pub loader_version: LoaderVersionView,
    pub color_mode: ProfileColorMode,
    pub color_hex: Option<Seq<char>>,
    pub java_binary: Option<Seq<char>>,
    pub java_auto_download: bool,
    pub java_memory_mb: Option<u32>,
    pub java_args: Option<Seq<char>>,
}

impl View for LauncherProfile {
    type V = ProfileView;

    open spec fn view(&self) -> ProfileView {
        ProfileView {
            id: self.id@,
            name: self.name@,
            version_id: self.version_id@,
            loader: self.loader,
            loader_version: self.loader_version@,
            color_mode: self.color_mode,
            color_hex: text::opt_text(self.color_hex),
            java_binary: text::opt_text(self.java_binary),
            java_auto_download: self.java_auto_download,
            java_memory_mb: self.java_memory_mb,
            java_args: text::opt_text(self.java_args),
        }
    }
}

/// The profiles of a list as plain values.
pub open spec fn profile_views(profiles: Seq<LauncherProfile>) -> Seq<ProfileView> {
    profiles.map_values(|p: LauncherProfile| p@)
}

/// Whether a profile may download a Java runtime if nothing else is said.
pub fn default_java_auto_download() -> (r: bool)
    ensures
        r,
{
    true
}

/// The name of a loader.
pub open spec fn loader_name(loader: ProfileLoader) -> Seq<char> {
    match loader {
        ProfileLoader::Vanilla => "Vanilla"@,
        ProfileLoader::Fabric => "Fabric"@,
        ProfileLoader::Quilt => "Quilt"@,
        ProfileLoader::Forge => "Forge"@,
        ProfileLoader::NeoForge => "NeoForge"@,
    }
}

/// The name of a loader version.
pub open spec fn loader_version_name(version: LoaderVersionView) -> Seq<char> {
    match version {
        LoaderVersionView::LatestStable => "LatestStable"@,
        LoaderVersionView::Latest => "Latest"@,
        LoaderVersionView::Exact(version) => "Exact("@ + version + ")"@,
    }
}

impl LauncherProfile {
    /// The profile that exists where no other does.
    pub fn default_with_version(id: String, version_id: String) -> (r: Self)
        ensures
            r@ == (ProfileView {
                id: id@,
                name: "Default"@,
                version_id: version_id@,
                loader: ProfileLoader::Vanilla,
                loader_version: LoaderVersionView::LatestStable,
                color_mode: ProfileColorMode::Auto,
                color_hex: None,
                java_binary: None,
                java_auto_download: true,
                java_memory_mb: None,
                java_args: None,
            }),
    {
        LauncherProfile {
            id,
            name: "Default".to_owned(),
            version_id,
            loader: ProfileLoader::Vanilla,
            loader_version: ProfileLoaderVersion::LatestStable,
            color_mode: ProfileColorMode::Auto,
            color_hex: None,
            java_binary: None,
            java_auto_download: true,
            java_memory_mb: None,
            java_args: None,
        }
    }

    /// The name of the profile's loader.
    pub fn loader_label(&self) -> (r: &'static str)
        ensures
            r@ == loader_name(self.loader),
    {
        match self.loader {
            ProfileLoader::Vanilla => "Vanilla",
            ProfileLoader::Fabric => "Fabric",
            ProfileLoader::Quilt => "Quilt",
            ProfileLoader::Forge => "Forge",
            ProfileLoader::NeoForge => "NeoForge",
        }
    }

    /// The name of the profile's loader version.
    pub fn loader_version_label(&self) -> (r: String)
        ensures
            r@ == loader_version_name(self.loader_version@),
    {
        match &self.loader_version {
            ProfileLoaderVersion::LatestStable => "LatestStable".to_owned(),
            ProfileLoaderVersion::Latest => "Latest".to_owned(),
            ProfileLoaderVersion::Exact(version) => {
                let mut label = "Exact(".to_owned();
                label.append(version.as_str());
                label.append(")");
                label
            },
        }
    }
}

/// The number that a text spells once outer white space is gone.
pub open spec fn optional_u32(value: Seq<char>) -> Option<u32> {
    match text::parse_unsigned(text::trim(value), u32::MAX as nat) {
        Some(n) => Some(n as u32),
        None => None,
    }
}

/// The number that the text spells, if it spells one.
pub fn parse_optional_u32(value: &str) -> (r: Option<u32>)
    ensures
        r == optional_u32(value@),
{
    let trimmed = trim_text(value);
    parse_number(trimmed.as_str(), u32::MAX)
}

/// The text without outer white space, if anything is left of it.
pub fn normalize_optional_text(value: &str) -> (r: Option<String>)
    ensures
        text::opt_text(r) == text::trimmed(value@),
{
    let trimmed = trim_text(value);
    if trimmed.as_str().is_empty() {
        None
    } else {
        Some(trimmed)
    }
}

/// The loader at a position of the loader list; no loader at any other.
pub open spec fn loader_at(index: u32) -> ProfileLoader {
    if index == 1 {
        ProfileLoader::Fabric
    } else if index == 2 {
        ProfileLoader::Quilt
    } else if index == 3 {
        ProfileLoader::Forge
    } else if index == 4 {
        ProfileLoader::NeoForge
    } else {
        ProfileLoader::Vanilla
    }
}

/// The position of a loader in the loader list.
pub open spec fn loader_position(loader: ProfileLoader) -> u32 {
    match loader {
        ProfileLoader::Vanilla => 0,
        ProfileLoader::Fabric => 1,
        ProfileLoader::Quilt => 2,
        ProfileLoader::Forge => 3,
        ProfileLoader::NeoForge => 4,
    }
}

/// The loader at a position of the loader list.
pub fn loader_from_index(index: u32) -> (r: ProfileLoader)
    ensures
        r == loader_at(index),
{
    match index {
        1 => ProfileLoader::Fabric,
        2 => ProfileLoader::Quilt,
        3 => ProfileLoader::Forge,
        4 => ProfileLoader::NeoForge,
        _ => ProfileLoader::Vanilla,
    }
}

/// The position of a loader in the loader list.
pub fn index_from_loader(loader: &ProfileLoader) -> (r: u32)
    ensures
        r == loader_position(*loader),
{
    match loader {
        ProfileLoader::Vanilla => 0,
        ProfileLoader::Fabric => 1,
        ProfileLoader::Quilt => 2,
        ProfileLoader::Forge => 3,
        ProfileLoader::NeoForge => 4,
    }
}

/// The position of a loader version in the list of modes.
pub open spec fn mode_position(version: LoaderVersionView) -> u32 {
    match version {
        LoaderVersionView::LatestStable => 0,
        LoaderVersionView::Latest => 1,
        LoaderVersionView::Exact(_) => 2,
    }
}

/// The position of a loader version in the list of modes.
pub fn loader_version_mode_index(mode: &ProfileLoaderVersion) -> (r: u32)
    ensures
        r == mode_position(mode@),
{
    match mode {
        ProfileLoaderVersion::LatestStable => 0,
        ProfileLoaderVersion::Latest => 1,
        ProfileLoaderVersion::Exact(_) => 2,
    }
}

/// The loader version of a mode; an exact one needs a text.
pub open spec fn loader_version_of(mode: u32, value: Seq<char>) -> Option<LoaderVersionView> {
    if mode == 1 {
        Some(LoaderVersionView::Latest)
    } else if mode == 2 {
        match text::trimmed(value) {
            Some(version) => Some(LoaderVersionView::Exact(version)),
            None => None,
        }
    } else {
        Some(LoaderVersionView::LatestStable)
    }
}

/// The loader version of a mode; none for an exact one without a text.
pub fn loader_version_from_mode_and_text(mode_idx: u32, value: &str) -> (r: Option<
    ProfileLoaderVersion,
>)
    ensures
        match loader_version_of(mode_idx, value@) {
            Some(version) => r matches Some(v) && v@ == version,
            None => r is None,
        },
{
    match mode_idx {
        0 => Some(ProfileLoaderVersion::LatestStable),
        1 => Some(ProfileLoaderVersion::Latest),
        2 => match normalize_optional_text(value) {
            Some(version) => Some(ProfileLoaderVersion::Exact(version)),
            None => None,
        },
        _ => Some(ProfileLoaderVersion::LatestStable),
    }
}

/// A loader keeps its place in the loader list.
pub proof fn law_loader_index_round_trip(loader: ProfileLoader)
    ensures
        loader_at(loader_position(loader)) == loader,
{
}

/// A loader version is read back from the mode and the text that show it, if an
/// exact version is not blank and has no outer white space.
pub proof fn law_loader_version_round_trip(version: LoaderVersionView, shown: Seq<char>)
    requires
        version matches LoaderVersionView::Exact(exact) ==> shown == exact && exact.len() > 0
            && text::trim(exact) == exact,
    ensures
        loader_version_of(mode_position(version), shown) == Some(version),
{
}

/// The loaders stand in the list in the order in which they are declared, each in one
/// place; outside the list there is no loader.
pub proof fn law_loader_list(index: u32, loader: ProfileLoader)
    ensures
        loader_at(index) == loader && index <= 4 <==> loader_position(loader) == index,
        index > 4 ==> loader_at(index) == ProfileLoader::Vanilla,
        loader_position(ProfileLoader::Vanilla) < loader_position(ProfileLoader::Fabric)
            < loader_position(ProfileLoader::Quilt) < loader_position(ProfileLoader::Forge)
            < loader_position(ProfileLoader::NeoForge),
        loader_position(loader) <= 4,
{
}

/// The modes of a loader version stand in the list as the latest stable version, the
/// latest version and an exact one. Only the exact one needs the text, and it is the
/// text without outer white space.
pub proof fn law_modes_of_a_loader_version(mode: u32, value: Seq<char>)
    ensures
        loader_version_of(mode, value) is None <==> mode == 2 && text::trim(value).len() == 0,
        loader_version_of(mode, value) matches Some(LoaderVersionView::Exact(version)) ==> mode == 2
            && version == text::trim(value),
        loader_version_of(mode, value) == Some(LoaderVersionView::Latest) <==> mode == 1,
        loader_version_of(mode, value) == Some(LoaderVersionView::LatestStable) <==> mode != 1
            && mode != 2,
{
}

/// Which texts spell a number: those that spell one without their outer white space;
/// the number is the one that is written there.
pub proof fn law_written_number_is_read(front: Seq<char>, n: u32, back: Seq<char>)
    requires
        text::all_space(front),
        text::all_space(back),
    ensures
        optional_u32(front + text::decimal(n as nat) + back) == Some(n),
        optional_u32(front + back) is None,
        optional_u32(front + seq!['-'] + text::decimal(n as nat) + back) is None,
{
    let digits = text::decimal(n as nat);
    text::law_parse_undoes_decimal(n as nat, u32::MAX as nat);
    text::law_number_is_spelled_by_digits(digits, u32::MAX as nat);
    text::law_ascii_white_space(digits[0]);
    text::law_ascii_white_space(digits.last());
    text::law_ascii_white_space('-');
    assert(digits.last() == digits[digits.len() - 1]);
    text::law_trim_takes_only_outer_space(front, digits, back);
    text::law_trim_takes_only_outer_space(front, Seq::empty(), back);
    assert(front + Seq::<char>::empty() + back =~= front + back);
    let negative = seq!['-'] + digits;
    assert(negative.last() == digits.last());
    text::law_trim_takes_only_outer_space(front, negative, back);
    assert(front + negative + back =~= front + seq!['-'] + digits + back);
    text::law_number_is_spelled_by_digits(negative, u32::MAX as nat);
}

/// What is shown for a loader and for its version: their names, an exact version
/// within `Exact(…)`.
pub proof fn law_names_of_loaders(loader: ProfileLoader, version: LoaderVersionView)
    ensures
        loader == ProfileLoader::Vanilla ==> loader_name(loader) == "Vanilla"@,
        loader == ProfileLoader::Fabric ==> loader_name(loader) == "Fabric"@,
        loader == ProfileLoader::Quilt ==> loader_name(loader) == "Quilt"@,
        loader == ProfileLoader::Forge ==> loader_name(loader) == "Forge"@,
        loader == ProfileLoader::NeoForge ==> loader_name(loader) == "NeoForge"@,
        version matches LoaderVersionView::Exact(exact) ==> loader_version_name(version) == "Exact("@
            + exact + ")"@,
        version is Latest ==> loader_version_name(version) == "Latest"@,
        version is LatestStable ==> loader_version_name(version) == "LatestStable"@,
{
}

} // verus!
