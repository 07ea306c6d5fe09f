//! Launch command construction.
//!
//! Version metadata becomes a Java executable, an argument list and a working
//! directory. Nothing is spawned: the command is a description that callers can
//! inspect and adjust first.
//!
//! Rules and placeholders in argument templates are expanded by the caller:
//! [`launch_context`] says with which directories and values, and
//! [`build_launch_command_for_platform`] takes the expanded arguments.

use vstd::prelude::*;
use vstd::string::*;

use crate::classpath;
use crate::classpath::deduplicate_classpath_string;
use crate::error::ErrorView;
use crate::error::LauncherError;
use crate::path;
use crate::path::join_path;
use crate::text;
use crate::text::{decimal_text, same_text, split_text};

verus! {

/// Who plays.
#[derive(Debug, Clone, PartialEq, Eq)]
pub enum Account {
    /// A local account without a session.
    Offline {
        /// The player's name.
        username: String,
    },
    /// A signed-in Microsoft account.
    Microsoft {
        /// The player's name.
        username: String,
        /// The player's identifier.
        uuid: String,
        /// The game session's access token.
        access_token: String,
    },
}

impl Account {
    /// A local account with the given name.
    pub fn offline(username: String) -> (r: Account)
        ensures
            r == (Account::Offline { username }),
    {
        Account::Offline { username }
    }
}

/// Whether known compatibility patches are applied to version metadata.
#[derive(Debug, Clone, Copy, PartialEq, Eq, Structural)]
pub enum CompatibilityPolicy {
    /// Known patches are applied.
    Auto,
    /// Metadata is used as it is.
    Disabled,
}

/// An operating system that the game runs on.
#[derive(Debug, Clone, Copy, PartialEq, Eq, Structural)]
pub enum Os {
    /// Windows.
    Windows,
    /// macOS.
    MacOs,
    /// Linux.
    Linux,
}

/// The platform that a command is built for.
#[derive(Debug, Clone, Copy, PartialEq, Eq, Structural)]
pub struct Platform {
    /// The operating system.
    pub os: Os,
}

/// User and process settings used while building a launch command.
///
/// By default the game directory is `<minecraft_dir>/versions/<version_id>`,
/// which keeps saves, options, logs and mods separate per installed version.
#[derive(Debug, Clone, PartialEq, Eq)]
pub struct LaunchOptions {
    /// Who plays.
    pub account: Account,
    /// Java executable to run; `java` if omitted.
    pub java_executable: Option<String>,
    /// Game directory, used as working directory of the process.
    pub game_directory: Option<String>,
    /// Directory of extracted native libraries.
    pub natives_directory: Option<String>,
    /// Launcher name for argument templates.
    pub launcher_name: String,
    /// Launcher version for argument templates.
    pub launcher_version: String,
    /// Window size, appended as `--width` and `--height`.
    pub custom_resolution: Option<(u32, u32)>,
    /// Enables demo mode.
    pub demo: bool,
    /// Multiplayer server and port to join after launch.
    pub server: Option<(String, Option<u16>)>,
    /// Appends `--disableMultiplayer`.
    pub disable_multiplayer: bool,
    /// Appends `--disableChat`.
    pub disable_chat: bool,
    /// Whether known compatibility patches are applied before building.
    pub compatibility: CompatibilityPolicy,
}

impl Default for LaunchOptions {
    fn default() -> (r: Self)
        ensures
            r.account matches Account::Offline { username } && username@ == "Steve"@,
            r.java_executable is None,
            r.game_directory is None,
            r.natives_directory is None,
            r.launcher_name@ == "mc-launcher-core"@,
            r.launcher_version@ == "0.1.1"@,
            r.custom_resolution is None,
            !r.demo,
            r.server is None,
            !r.disable_multiplayer,
            !r.disable_chat,
            r.compatibility == CompatibilityPolicy::Auto,
    {
        LaunchOptions {
            account: Account::offline("Steve".to_owned()),
            java_executable: None,
            game_directory: None,
            natives_directory: None,
            launcher_name: "mc-launcher-core".to_owned(),
            launcher_version: "0.1.1".to_owned(),
            custom_resolution: None,
            demo: false,
            server: None,
            disable_multiplayer: false,
            disable_chat: false,
            compatibility: CompatibilityPolicy::Auto,
        }
    }
}

/// A Java process description ready to spawn.
///
/// The command is structured instead of a shell string, so that no part of it
/// needs quoting.
#[derive(Debug, Clone, PartialEq, Eq)]
pub struct LaunchCommand {
    /// Java executable path or command name.
    pub executable: String,
    /// JVM arguments, main class and game arguments, in process order.
    pub args: Vec<String>,
    /// Working directory of the process.
    pub working_dir: String,
    /// Environment variables to set on the process.
    pub env: Vec<(String, String)>,
}

/// The position of the first argument equal to `wanted`, at or after `from`.
pub open spec fn position_from(args: Seq<Seq<char>>, wanted: Seq<char>, from: int) -> Option<int>
    decreases args.len() - from,
{
    if from >= args.len() {
        None
    } else if args[from] == wanted {
        Some(from)
    } else {
        position_from(args, wanted, from + 1)
    }
}

/// Where JVM arguments end: at the main class, or at the end of the arguments
/// if the main class is not among them.
pub open spec fn jvm_boundary(args: Seq<Seq<char>>, main_class: Option<Seq<char>>) -> int {
    match main_class {
        Some(main) => match position_from(args, main, 0) {
            Some(at) => at,
            None => args.len() as int,
        },
        None => args.len() as int,
    }
}

/// The boundary lies within the arguments, at the main class where that is
/// found, and the main class does not stand before it.
pub proof fn law_boundary_is_first_main_class(
    args: Seq<Seq<char>>,
    main_class: Option<Seq<char>>,
)
    ensures
        0 <= jvm_boundary(args, main_class) <= args.len(),
        main_class matches Some(main) ==> {
            &&& forall|i: int| 0 <= i < jvm_boundary(args, main_class) ==> args[i] != main
            &&& args.contains(main) ==> jvm_boundary(args, main_class) < args.len()
                && args[jvm_boundary(args, main_class)] == main
        },
{
    if let Some(main) = main_class {
        lemma_position_from(args, main, 0);
    }
}

/// The position that is found is the first.
pub proof fn lemma_position_from(args: Seq<Seq<char>>, wanted: Seq<char>, from: int)
    requires
        0 <= from,
    ensures
        match position_from(args, wanted, from) {
            Some(at) => from <= at < args.len() && args[at] == wanted && forall|i: int|
                from <= i < at ==> args[i] != wanted,
            None => forall|i: int| from <= i < args.len() ==> args[i] != wanted,
        },
    decreases args.len() - from,
{
    if from < args.len() && args[from] != wanted {
        lemma_position_from(args, wanted, from + 1);
    }
}

/// Inserted JVM arguments stand in front of the main class: after an insertion
/// at the boundary the main class is found behind what was inserted, unless it is
/// among the inserted arguments.
pub proof fn law_insertion_precedes_main_class(
    args: Seq<Seq<char>>,
    main: Seq<char>,
    inserted: Seq<Seq<char>>,
)
    requires
        !inserted.contains(main),
    ensures
        ({
            let at = jvm_boundary(args, Some(main));
            jvm_boundary(args.take(at) + inserted + args.skip(at), Some(main)) == at
                + inserted.len()
        }),
{
    let at = jvm_boundary(args, Some(main));
    law_boundary_is_first_main_class(args, Some(main));
    let result = args.take(at) + inserted + args.skip(at);
    law_boundary_is_first_main_class(result, Some(main));
    let found = jvm_boundary(result, Some(main));
    let behind = at + inserted.len();
    assert forall|i: int| 0 <= i < behind implies result[i] != main by {
        if i >= at {
            assert(result[i] == inserted[i - at]);
        }
    }
    if args.contains(main) {
        assert(result[behind] == main);
        if found > behind {
            assert(false);
        }
    } else {
        lemma_position_from(args, main, 0);
        assert forall|i: int| 0 <= i < result.len() implies result[i] != main by {
            if i >= behind {
                assert(result[i] == args[i - inserted.len()]);
            }
        }
    }
    lemma_position_from(result, main, 0);
}

/// Where JVM arguments end.
pub fn find_jvm_boundary(args: &Vec<String>, main_class: Option<&str>) -> (r: usize)
    ensures
        r == jvm_boundary(text::texts(args@), text::opt_str(main_class)),
        r <= args@.len(),
{
    let ghost all = text::texts(args@);
    if let Some(main) = main_class {
        let mut i: usize = 0;
        while i < args.len()
            invariant
                i <= args@.len(),
                main_class == Some(main),
                all == text::texts(args@),
                position_from(all, main@, 0) == position_from(all, main@, i as int),
            decreases args@.len() - i,
        {
            assert(all[i as int] == args@[i as int]@);
            if same_text(args[i].as_str(), main) {
                return i;
            }
            i = i + 1;
        }
    }
    args.len()
}

/// Whether an argument announces the classpath.
pub open spec fn is_classpath_flag(arg: Seq<char>) -> bool {
    arg == "-cp"@ || arg == "-classpath"@
}

/// The position of the first classpath flag at or after `from` that an argument
/// follows.
pub open spec fn classpath_flag_from(args: Seq<Seq<char>>, from: int) -> Option<int>
    decreases args.len() - from,
{
    if from + 1 >= args.len() {
        None
    } else if is_classpath_flag(args[from]) {
        Some(from)
    } else {
        classpath_flag_from(args, from + 1)
    }
}

impl LaunchCommand {
    /// The executable and the arguments.
    pub fn to_process_parts(&self) -> (r: (String, Vec<String>))
        ensures
            r.0 == self.executable,
            r.1@ == self.args@,
    {
        let args = self.args.clone();
        assert(args@ =~= self.args@);
        (self.executable.clone(), args)
    }

    /// Inserts JVM arguments immediately before the main class, or at the end of
    /// the arguments if the main class is not among them. Gives back how many
    /// were inserted.
    pub fn insert_jvm_arguments(
        &mut self,
        main_class: Option<&str>,
        arguments: Vec<String>,
    ) -> (r: usize)
        ensures
            r == arguments@.len(),
            ({
                let at = jvm_boundary(text::texts(old(self).args@), text::opt_str(main_class));
                final(self).args@ == old(self).args@.take(at) + arguments@ + old(
                    self,
                ).args@.skip(at)
            }),
            final(self).executable == old(self).executable,
            final(self).working_dir == old(self).working_dir,
            final(self).env == old(self).env,
    {
        let at = find_jvm_boundary(&self.args, main_class);
        let ghost before = self.args@;
        let count = arguments.len();
        insert_at(&mut self.args, at, arguments);
        count
    }

    /// Removes duplicate Maven artifacts from the Java classpath: of the entries
    /// of one artifact the last is kept. Gives back how many were removed.
    pub fn deduplicate_classpath(&mut self) -> (r: usize)
        ensures
            match classpath_flag_from(text::texts(old(self).args@), 0) {
                Some(flag) => {
                    let classpath = old(self).args@[flag + 1]@;
                    &&& 0 <= flag && flag + 1 < old(self).args@.len()
                    &&& r == classpath::replaced_count(classpath)
                    &&& text::texts(final(self).args@) == text::texts(old(self).args@).update(
                        flag + 1,
                        classpath::deduplicated(classpath),
                    )
                },
                None => r == 0 && final(self).args == old(self).args,
            },
            final(self).executable == old(self).executable,
            final(self).working_dir == old(self).working_dir,
            final(self).env == old(self).env,
    {
        let ghost all = text::texts(self.args@);
        let mut i: usize = 0;
        let total = self.args.len();
        while i < total && i + 1 < total
            invariant
                *self == *old(self),
                total == self.args@.len(),
                i <= total,
                all == text::texts(self.args@),
                classpath_flag_from(all, 0) == classpath_flag_from(all, i as int),
            decreases total - i,
        {
            assert(all[i as int] == self.args@[i as int]@);
            if same_text(self.args[i].as_str(), "-cp") || same_text(
                self.args[i].as_str(),
                "-classpath",
            ) {
                let (kept, removed) = deduplicate_classpath_string(self.args[i + 1].as_str());
                self.args.set(i + 1, kept);
                assert(text::texts(self.args@) =~= all.update(i + 1, kept@));
                return removed;
            }
            i = i + 1;
        }
        0
    }
}

/// Inserts a list into another one at the given position.
pub fn insert_at(list: &mut Vec<String>, at: usize, items: Vec<String>)
    requires
        at <= old(list)@.len(),
    ensures
        final(list)@ == old(list)@.take(at as int) + items@ + old(list)@.skip(at as int),
{
    let ghost before = list@;
    let mut items = items;
    let ghost inserted = items@;
    let mut tail = list.split_off(at);
    list.append(&mut items);
    list.append(&mut tail);
    assert(list@ =~= before.take(at as int) + inserted + before.skip(at as int));
}

/// A library that a version needs.
#[derive(Debug, Clone, PartialEq, Eq)]
pub struct LibraryEntry {
    /// Maven coordinates: `group:artifact:version`, with an optional classifier.
    pub name: String,
    /// Whether the metadata says where the archive is downloaded from.
    pub has_artifact: bool,
    /// Whether the library stands for native libraries.
    pub has_natives: bool,
    /// The repository that the archive is taken from.
    pub url: Option<String>,
}

/// What version metadata says about a launch, inheritance and compatibility
/// patches applied.
#[derive(Debug, Clone, PartialEq, Eq)]
pub struct VersionJson {
    /// The version's identifier.
    pub id: Option<String>,
    /// The Java class that starts the game.
    pub main_class: Option<String>,
    /// The asset index; the version's identifier if omitted.
    pub assets: Option<String>,
    /// The release channel; `release` if omitted.
    pub version_type: Option<String>,
    /// Game arguments in the older form: one text, separated by spaces.
    pub minecraft_arguments: Option<String>,
    /// The libraries that the version needs.
    pub libraries: Vec<LibraryEntry>,
}

/// The features that argument rules may ask for.
#[derive(Debug, Clone, Copy, PartialEq, Eq, Structural)]
pub struct FeatureSet {
    /// Demo mode.
    pub demo_user: bool,
    /// A window size is given.
    pub custom_resolution: bool,
}

/// With what argument templates are to be expanded.
#[derive(Debug, Clone, PartialEq, Eq)]
pub struct LaunchContext {
    /// The version's identifier.
    pub version_id: String,
    /// The Java class that starts the game.
    pub main_class: String,
    /// The game directory.
    pub game_dir: String,
    /// The directory of extracted native libraries.
    pub natives_dir: String,
    /// The asset index.
    pub assets_index: String,
    /// The release channel.
    pub version_type: String,
    /// The features that rules may ask for.
    pub features: FeatureSet,
    /// The parts of game arguments in the older form. Where they are there, they
    /// are expanded in place of the game argument templates.
    pub legacy_arguments: Option<Vec<String>>,
}

/// What the expansion of argument templates gave.
#[derive(Debug, PartialEq, Eq)]
pub struct ArgumentExpansion {
    /// The classpath, or why it cannot be made.
    pub classpath: Result<String, LauncherError>,
    /// The expanded JVM arguments.
    pub jvm: Vec<String>,
    /// The parts of game arguments in the older form, each expanded.
    pub legacy: Vec<String>,
    /// The expanded game argument templates.
    pub game: Vec<String>,
}

/// The game directory of a launch.
pub open spec fn game_directory(
    version_id: Seq<char>,
    minecraft_dir: Seq<char>,
    options: LaunchOptions,
) -> Seq<char> {
    match options.game_directory {
        Some(dir) => dir@,
        None => path::joined(path::joined(minecraft_dir, "versions"@), version_id),
    }
}

/// The directory of native libraries of a launch.
pub open spec fn natives_directory(
    version_id: Seq<char>,
    minecraft_dir: Seq<char>,
    options: LaunchOptions,
) -> Seq<char> {
    match options.natives_directory {
        Some(dir) => dir@,
        None => path::joined(
            path::joined(path::joined(minecraft_dir, "versions"@), version_id),
            "natives"@,
        ),
    }
}

/// The text, or `other` if there is none.
pub open spec fn text_or(value: Option<String>, other: Seq<char>) -> Seq<char> {
    match value {
        Some(s) => s@,
        None => other,
    }
}

/// The failure that metadata without the fields of a launch leads to.
pub open spec fn missing_field(version: VersionJson) -> Option<ErrorView> {
    match version.id {
        None => Some(ErrorView::MissingField { context: "version json"@, field: "id"@ }),
        Some(id) => match version.main_class {
            None => Some(ErrorView::MissingField { context: id@, field: "mainClass"@ }),
            Some(_) => None,
        },
    }
}

/// What [`launch_context`] gives for metadata that has the fields of a launch.
pub open spec fn is_launch_context(
    context: LaunchContext,
    version: VersionJson,
    minecraft_dir: Seq<char>,
    options: LaunchOptions,
) -> bool {
    let id = version.id->0@;
    &&& context.version_id@ == id
    &&& context.main_class@ == version.main_class->0@
    &&& context.game_dir@ == game_directory(id, minecraft_dir, options)
    &&& context.natives_dir@ == natives_directory(id, minecraft_dir, options)
    &&& context.assets_index@ == text_or(version.assets, id)
    &&& context.version_type@ == text_or(version.version_type, "release"@)
    &&& context.features == (FeatureSet {
        demo_user: options.demo,
        custom_resolution: options.custom_resolution is Some,
    })
    &&& match version.minecraft_arguments {
        Some(raw) => context.legacy_arguments matches Some(parts) && text::texts(parts@)
            == text::split(raw@, ' '),
        None => context.legacy_arguments is None,
    }
}

/// A copy of the text, or of `other` if there is none.
pub fn clone_or(value: &Option<String>, other: &str) -> (r: String)
    ensures
        r@ == text_or(*value, other@),
{
    match value {
        Some(s) => s.clone(),
        None => other.to_owned(),
    }
}

/// The values with which the argument templates of a version are to be
/// expanded. Metadata without an identifier or a main class is refused.
pub fn launch_context(
    version: &VersionJson,
    minecraft_dir: &str,
    options: &LaunchOptions,
) -> (r: Result<LaunchContext, LauncherError>)
    ensures
        match missing_field(*version) {
            Some(error) => r matches Err(e) && e@ == error,
            None => r matches Ok(context) && is_launch_context(
                context,
                *version,
                minecraft_dir@,
                *options,
            ),
        },
{
    let version_id = match &version.id {
        Some(id) => id.clone(),
        None => {
            return Err(
                LauncherError::MissingField {
                    context: "version json".to_owned(),
                    field: "id".to_owned(),
                },
            );
        },
    };
    let main_class = match &version.main_class {
        Some(main) => main.clone(),
        None => {
            return Err(
                LauncherError::MissingField {
                    context: version_id,
                    field: "mainClass".to_owned(),
                },
            );
        },
    };
    let versions = join_path(minecraft_dir, "versions");
    let home = join_path(versions.as_str(), version_id.as_str());
    let game_dir = clone_or(&options.game_directory, home.as_str());
    let natives = join_path(home.as_str(), "natives");
    let natives_dir = clone_or(&options.natives_directory, natives.as_str());
    let assets_index = clone_or(&version.assets, version_id.as_str());
    let version_type = clone_or(&version.version_type, "release");
    let legacy_arguments = match &version.minecraft_arguments {
        Some(raw) => Some(split_text(raw.as_str(), ' ')),
        None => None,
    };
    Ok(
        LaunchContext {
            version_id,
            main_class,
            game_dir,
            natives_dir,
            assets_index,
            version_type,
            features: FeatureSet {
                demo_user: options.demo,
                custom_resolution: options.custom_resolution.is_some(),
            },
            legacy_arguments,
        },
    )
}

/// The JVM arguments of versions whose metadata gives none.
pub open spec fn legacy_jvm_arguments(
    natives_dir: Seq<char>,
    classpath: Seq<char>,
    platform: Platform,
) -> Seq<Seq<char>> {
    let first = if platform.os == Os::MacOs {
        seq!["-XstartOnFirstThread"@]
    } else {
        Seq::empty()
    };
    first + seq!["-Djava.library.path="@ + natives_dir, "-cp"@, classpath]
}

/// The game arguments that the options add, in order.
pub open spec fn option_arguments(options: LaunchOptions) -> Seq<Seq<char>> {
    let size = match options.custom_resolution {
        Some((width, height)) => seq![
            "--width"@,
            text::decimal(width as nat),
            "--height"@,
            text::decimal(height as nat),
        ],
        None => Seq::empty(),
    };
    let demo = if options.demo {
        seq!["--demo"@]
    } else {
        Seq::empty()
    };
    let server = match options.server {
        Some((address, Some(port))) => seq![
            "--server"@,
            address@,
            "--port"@,
            text::decimal(port as nat),
        ],
        Some((address, None)) => seq!["--server"@, address@],
        None => Seq::empty(),
    };
    let multiplayer = if options.disable_multiplayer {
        seq!["--disableMultiplayer"@]
    } else {
        Seq::empty()
    };
    let chat = if options.disable_chat {
        seq!["--disableChat"@]
    } else {
        Seq::empty()
    };
    size + demo + server + multiplayer + chat
}

/// Whether the game arguments in the older form, if a version that can be launched
/// has them, are expanded part by part.
pub open spec fn is_expanded(version: VersionJson, expansion: ArgumentExpansion) -> bool {
    missing_field(version) is None && expansion.classpath is Ok ==> (
    version.minecraft_arguments matches Some(raw) ==> expansion.legacy@.len() == text::split(
        raw@,
        ' ',
    ).len())
}

/// The game arguments of a version: those in the older form, part by part, take the
/// place of the templates.
pub open spec fn game_arguments(
    version: VersionJson,
    expansion: ArgumentExpansion,
) -> Seq<Seq<char>> {
    match version.minecraft_arguments {
        Some(_) => text::texts(expansion.legacy@),
        None => text::texts(expansion.game@),
    }
}

/// All arguments of a launch, in process order.
pub open spec fn launch_arguments(
    version: VersionJson,
    minecraft_dir: Seq<char>,
    options: LaunchOptions,
    platform: Platform,
    classpath: Seq<char>,
    jvm: Seq<Seq<char>>,
    game: Seq<Seq<char>>,
) -> Seq<Seq<char>> {
    let natives = natives_directory(version.id->0@, minecraft_dir, options);
    let jvm_part = if jvm.len() == 0 {
        legacy_jvm_arguments(natives, classpath, platform)
    } else {
        jvm
    };
    jvm_part + seq![version.main_class->0@] + game + option_arguments(options)
}

/// What building a launch command gives.
pub open spec fn is_built_command(
    r: Result<LaunchCommand, LauncherError>,
    version: VersionJson,
    minecraft_dir: Seq<char>,
    options: LaunchOptions,
    platform: Platform,
    expansion: ArgumentExpansion,
) -> bool {
    match missing_field(version) {
        Some(error) => r matches Err(e) && e@ == error,
        None => match expansion.classpath {
            Err(error) => r == Err::<LaunchCommand, LauncherError>(error),
            Ok(classpath) => {
                &&& r matches Ok(command)
                &&& command.executable@ == text_or(options.java_executable, "java"@)
                &&& text::texts(command.args@) == launch_arguments(
                    version,
                    minecraft_dir,
                    options,
                    platform,
                    classpath@,
                    text::texts(expansion.jvm@),
                    game_arguments(version, expansion),
                )
                &&& version.minecraft_arguments matches Some(raw) ==> game_arguments(
                    version,
                    expansion,
                ).len() == text::split(raw@, ' ').len()
                &&& command.working_dir@ == game_directory(version.id->0@, minecraft_dir, options)
                &&& command.env@.len() == 0
            },
        },
    }
}

/// Appends a copy of the text.
pub fn push_text(list: &mut Vec<String>, s: &str)
    ensures
        text::texts(final(list)@) == text::texts(old(list)@).push(s@),
{
    list.push(s.to_owned());
    assert(text::texts(list@) =~= text::texts(old(list)@).push(s@));
}

/// The JVM arguments of versions whose metadata gives none.
fn default_legacy_jvm_arguments(
    natives_dir: &str,
    classpath: &str,
    platform: Platform,
) -> (r: Vec<String>)
    ensures
        text::texts(r@) == legacy_jvm_arguments(natives_dir@, classpath@, platform),
{
    let mut args: Vec<String> = Vec::new();
    assert(text::texts(args@) =~= Seq::<Seq<char>>::empty());
    if platform.os == Os::MacOs {
        push_text(&mut args, "-XstartOnFirstThread");
    }
    let mut library_path = "-Djava.library.path=".to_owned();
    library_path.append(natives_dir);
    push_text(&mut args, library_path.as_str());
    push_text(&mut args, "-cp");
    push_text(&mut args, classpath);
    assert(text::texts(args@) =~= legacy_jvm_arguments(natives_dir@, classpath@, platform));
    args
}

/// Appends the game arguments that the options add.
fn push_option_arguments(args: &mut Vec<String>, options: &LaunchOptions)
    ensures
        text::texts(final(args)@) == text::texts(old(args)@) + option_arguments(*options),
{
    let ghost start = text::texts(args@);
    if let Some((width, height)) = options.custom_resolution {
        push_text(args, "--width");
        let width_text = decimal_text(width as u128);
        push_text(args, width_text.as_str());
        push_text(args, "--height");
        let height_text = decimal_text(height as u128);
        push_text(args, height_text.as_str());
    }
    if options.demo {
        push_text(args, "--demo");
    }
    if let Some((server, port)) = &options.server {
        push_text(args, "--server");
        push_text(args, server.as_str());
        if let Some(port) = port {
            push_text(args, "--port");
            let port_text = decimal_text(*port as u128);
            push_text(args, port_text.as_str());
        }
    }
    if options.disable_multiplayer {
        push_text(args, "--disableMultiplayer");
    }
    if options.disable_chat {
        push_text(args, "--disableChat");
    }
    assert(text::texts(args@) =~= start + option_arguments(*options));
}

/// Builds a launch command for the platform that the launcher runs on.
///
/// Metadata without an identifier or a main class is refused, and so is a
/// version whose classpath cannot be made. Game arguments in the older form take
/// the place of the templates.
pub fn build_launch_command(
    version: &VersionJson,
    minecraft_dir: &str,
    options: LaunchOptions,
    current: Platform,
    expansion: ArgumentExpansion,
) -> (r: Result<LaunchCommand, LauncherError>)
    requires
        is_expanded(*version, expansion),
    ensures
        is_built_command(r, *version, minecraft_dir@, options, current, expansion),
{
    build_launch_command_for_platform(version, minecraft_dir, options, current, expansion)
}

/// Builds a launch command for an explicit platform.
///
/// Metadata without an identifier or a main class is refused, and so is a
/// version whose classpath cannot be made. Game arguments in the older form take
/// the place of the templates.
pub fn build_launch_command_for_platform(
    version: &VersionJson,
    minecraft_dir: &str,
    options: LaunchOptions,
    platform: Platform,
    expansion: ArgumentExpansion,
) -> (r: Result<LaunchCommand, LauncherError>)
    requires
        is_expanded(*version, expansion),
    ensures
        is_built_command(r, *version, minecraft_dir@, options, platform, expansion),
{
    let context = match launch_context(version, minecraft_dir, &options) {
        Ok(context) => context,
        Err(error) => {
            return Err(error);
        },
    };
    let ghost chosen = game_arguments(*version, expansion);
    let ArgumentExpansion { classpath, jvm, legacy, game } = expansion;
    let classpath = match classpath {
        Ok(classpath) => classpath,
        Err(error) => {
            return Err(error);
        },
    };
    let executable = clone_or(&options.java_executable, "java");
    let mut args = jvm;
    if args.len() == 0 {
        args = default_legacy_jvm_arguments(
            context.natives_dir.as_str(),
            classpath.as_str(),
            platform,
        );
    }
    let ghost jvm_part = text::texts(args@);
    push_text(&mut args, context.main_class.as_str());
    let mut game = if version.minecraft_arguments.is_some() {
        legacy
    } else {
        game
    };
    let ghost game_part = text::texts(game@);
    assert(game_part == chosen);
    assert(text::texts(legacy@).len() == legacy@.len());
    let ghost so_far = args@;
    let ghost tail = game@;
    args.append(&mut game);
    assert(args@ =~= so_far + tail);
    proof {
        text::lemma_texts_add(so_far, tail);
    }
    assert(text::texts(args@) =~= jvm_part + seq![context.main_class@] + game_part);
    push_option_arguments(&mut args, &options);
    Ok(LaunchCommand { executable, args, working_dir: context.game_dir, env: Vec::new() })
}

/// What a built command runs: the given Java, or `java`, in the game directory, with
/// an unchanged environment. Metadata without an identifier or without a main class
/// is refused, and so is a version without a classpath; anything else is built.
pub proof fn law_command_runs_in_the_game_directory(
    r: Result<LaunchCommand, LauncherError>,
    version: VersionJson,
    minecraft_dir: Seq<char>,
    options: LaunchOptions,
    platform: Platform,
    expansion: ArgumentExpansion,
)
    requires
        is_built_command(r, version, minecraft_dir, options, platform, expansion),
    ensures
        r is Ok <==> version.id is Some && version.main_class is Some && expansion.classpath is Ok,
        version.id is None ==> (r matches Err(e) && e@ == (ErrorView::MissingField {
            context: "version json"@,
            field: "id"@,
        })),
        version.id is Some && version.main_class is None ==> (r matches Err(e) && e@ == (
        ErrorView::MissingField { context: version.id->0@, field: "mainClass"@ })),
        version.id is Some && version.main_class is Some ==> (expansion.classpath matches Err(e)
            ==> r == Err::<LaunchCommand, LauncherError>(e)),
        r matches Ok(built) ==> {
            &&& options.java_executable matches Some(java) ==> built.executable@ == java@
            &&& options.java_executable is None ==> built.executable@ == "java"@
            &&& options.game_directory matches Some(dir) ==> built.working_dir@ == dir@
            &&& options.game_directory is None && minecraft_dir.len() > 0 && minecraft_dir.last()
                != '/' && version.id->0@.len() > 0 && version.id->0@[0] != '/'
                ==> built.working_dir@ == minecraft_dir + "/versions/"@ + version.id->0@
            &&& built.env@.len() == 0
        },
{
    reveal_strlit("versions");
    reveal_strlit("/versions/");
    if r is Ok && options.game_directory is None && minecraft_dir.len() > 0 && minecraft_dir.last()
        != '/' && version.id->0@.len() > 0 && version.id->0@[0] != '/' {
        let id = version.id->0@;
        assert(path::joined(path::joined(minecraft_dir, "versions"@), id) =~= minecraft_dir
            + "/versions/"@ + id);
    }
}

/// What stands in front of the main class where the metadata gives no JVM arguments:
/// on every platform the directory of native libraries, and `-cp` with the classpath
/// right behind it; on macOS, and only there, the first thread is asked for.
pub proof fn law_classpath_precedes_the_main_class(
    r: Result<LaunchCommand, LauncherError>,
    version: VersionJson,
    minecraft_dir: Seq<char>,
    options: LaunchOptions,
    platform: Platform,
    expansion: ArgumentExpansion,
)
    requires
        is_built_command(r, version, minecraft_dir, options, platform, expansion),
        r is Ok,
        expansion.jvm@.len() == 0,
    ensures
        ({
            let args = r->Ok_0.args@;
            let k = if platform.os == Os::MacOs {
                1int
            } else {
                0int
            };
            &&& args.len() >= k + 4
            &&& platform.os == Os::MacOs ==> args[0]@ == "-XstartOnFirstThread"@
            &&& options.natives_directory matches Some(dir) ==> args[k]@ == "-Djava.library.path="@
                + dir@
            &&& options.natives_directory is None && minecraft_dir.len() > 0
                && minecraft_dir.last() != '/' && version.id->0@.len() > 0 && version.id->0@[0]
                != '/' && version.id->0@.last() != '/' ==> args[k]@ == "-Djava.library.path="@
                + minecraft_dir + "/versions/"@ + version.id->0@ + "/natives"@
            &&& args[k + 1]@ == "-cp"@
            &&& args[k + 2]@ == expansion.classpath->Ok_0@
            &&& args[k + 3]@ == version.main_class->0@
            &&& forall|i: int|
                0 <= i < k + 2 && (#[trigger] args[i])@ == "-XstartOnFirstThread"@ ==> platform.os
                    == Os::MacOs && i == 0
        }),
{
    let built = r->Ok_0;
    let args = text::texts(built.args@);
    let id = version.id->0@;
    let natives = natives_directory(id, minecraft_dir, options);
    let classpath = expansion.classpath->Ok_0@;
    assert(text::texts(expansion.jvm@).len() == 0);
    assert(args.len() == built.args@.len());
    assert forall|i: int| 0 <= i < args.len() implies built.args@[i]@ == args[i] by {}
    reveal_strlit("versions");
    reveal_strlit("natives");
    reveal_strlit("/versions/");
    reveal_strlit("/natives");
    if options.natives_directory is None && minecraft_dir.len() > 0 && minecraft_dir.last() != '/'
        && id.len() > 0 && id[0] != '/' && id.last() != '/' {
        let home = path::joined(path::joined(minecraft_dir, "versions"@), id);
        assert(home =~= minecraft_dir + "/versions/"@ + id);
        assert(home.last() == id.last());
        assert(natives =~= home + "/natives"@);
        assert("-Djava.library.path="@ + natives =~= "-Djava.library.path="@ + minecraft_dir
            + "/versions/"@ + id + "/natives"@);
    }
    reveal_strlit("-XstartOnFirstThread");
    reveal_strlit("-Djava.library.path=");
    reveal_strlit("-cp");
    let k = if platform.os == Os::MacOs {
        1int
    } else {
        0int
    };
    let jvm_part = legacy_jvm_arguments(natives, classpath, platform);
    assert(jvm_part.len() == k + 3);
    assert(jvm_part[k] == "-Djava.library.path="@ + natives);
    assert(jvm_part[k + 1] == "-cp"@);
    assert(jvm_part[k + 2] == classpath);
    assert(args[k] == jvm_part[k] && args[k + 1] == jvm_part[k + 1]);
    assert(args[k + 2] == jvm_part[k + 2]);
    assert(args[k + 3] == version.main_class->0@);
    if platform.os == Os::MacOs {
        assert(jvm_part[0] == "-XstartOnFirstThread"@);
        assert(args[0] == jvm_part[0]);
    }
    assert(args[k][1] == 'D');
    assert("-XstartOnFirstThread"@[1] == 'X');
    assert(args[k + 1].len() == 3);
}

/// The order of a command: the JVM arguments of the metadata, the main class, the
/// game arguments and then what the options add. Older game arguments, part by part,
/// stand in place of the templates.
pub proof fn law_main_class_follows_the_jvm_arguments(
    r: Result<LaunchCommand, LauncherError>,
    version: VersionJson,
    minecraft_dir: Seq<char>,
    options: LaunchOptions,
    platform: Platform,
    expansion: ArgumentExpansion,
)
    requires
        is_built_command(r, version, minecraft_dir, options, platform, expansion),
        r is Ok,
    ensures
        ({
            let args = r->Ok_0.args@;
            let main = if expansion.jvm@.len() > 0 {
                expansion.jvm@.len() as int
            } else if platform.os == Os::MacOs {
                4int
            } else {
                3int
            };
            let game = if version.minecraft_arguments is Some {
                expansion.legacy@
            } else {
                expansion.game@
            };
            &&& args.len() == main + 1 + game.len() + option_arguments(options).len()
            &&& forall|i: int|
                0 <= i < expansion.jvm@.len() ==> (#[trigger] args[i])@ == expansion.jvm@[i]@
            &&& args[main]@ == version.main_class->0@
            &&& forall|i: int|
                0 <= i < game.len() ==> (#[trigger] args[main + 1 + i])@ == game[i]@
            &&& forall|i: int|
                0 <= i < option_arguments(options).len() ==> (#[trigger] args[main + 1 + game.len()
                    + i])@ == option_arguments(options)[i]
        }),
{
    let built = r->Ok_0;
    let args = text::texts(built.args@);
    assert(args.len() == built.args@.len());
    assert(text::texts(expansion.jvm@).len() == expansion.jvm@.len());
    assert(text::texts(expansion.legacy@).len() == expansion.legacy@.len());
    assert(text::texts(expansion.game@).len() == expansion.game@.len());
    assert forall|i: int| 0 <= i < args.len() implies (#[trigger] built.args@[i])@ == args[i] by {}
    let natives = natives_directory(version.id->0@, minecraft_dir, options);
    let classpath = expansion.classpath->Ok_0@;
    let jvm = text::texts(expansion.jvm@);
    let jvm_part = if jvm.len() == 0 {
        legacy_jvm_arguments(natives, classpath, platform)
    } else {
        jvm
    };
    let game = game_arguments(version, expansion);
    let added = option_arguments(options);
    let main = jvm_part.len() as int;
    assert(args == jvm_part + seq![version.main_class->0@] + game + added);
    assert forall|i: int| 0 <= i < expansion.jvm@.len() implies (#[trigger] built.args@[i])@
        == expansion.jvm@[i]@ by {
        assert(args[i] == jvm[i]);
    }
    assert(args[main] == version.main_class->0@);
    assert forall|i: int| 0 <= i < game.len() implies args[main + 1 + i] == #[trigger] game[i] by {}
    assert forall|i: int| 0 <= i < added.len() implies args[main + 1 + game.len() + i]
        == #[trigger] added[i] by {}
}

/// What the options add to the game arguments: exactly what is asked for, each flag
/// with its values right behind it.
pub proof fn law_options_become_flags(options: LaunchOptions)
    ensures
        ({
            let args = option_arguments(options);
            let size = if options.custom_resolution is Some {
                4int
            } else {
                0int
            };
            let demo = size + if options.demo {
                1int
            } else {
                0int
            };
            let server = demo + match options.server {
                Some((_, Some(_))) => 4int,
                Some((_, None)) => 2int,
                None => 0int,
            };
            let multiplayer = server + if options.disable_multiplayer {
                1int
            } else {
                0int
            };
            &&& args.len() == multiplayer + if options.disable_chat {
                1int
            } else {
                0int
            }
            &&& options.custom_resolution matches Some((width, height)) ==> args[0] == "--width"@
                && args[1] == text::decimal(width as nat) && args[2] == "--height"@ && args[3]
                == text::decimal(height as nat)
            &&& options.demo ==> args[size] == "--demo"@
            &&& options.server matches Some((address, port)) ==> args[demo] == "--server"@
                && args[demo + 1] == address@ && (port matches Some(port) ==> args[demo + 2]
                == "--port"@ && args[demo + 3] == text::decimal(port as nat))
            &&& options.disable_multiplayer ==> args[server] == "--disableMultiplayer"@
            &&& options.disable_chat ==> args[multiplayer] == "--disableChat"@
        }),
{
}

/// With what templates are expanded: the version, its main class, its assets (or the
/// version itself), its channel (or `release`), the features that the options ask
/// for, and older game arguments cut at every space.
pub proof fn law_context_describes_the_launch(
    context: LaunchContext,
    version: VersionJson,
    minecraft_dir: Seq<char>,
    options: LaunchOptions,
)
    requires
        is_launch_context(context, version, minecraft_dir, options),
        missing_field(version) is None,
    ensures
        version.id matches Some(id) && context.version_id@ == id@,
        version.main_class matches Some(main) && context.main_class@ == main@,
        version.assets matches Some(assets) ==> context.assets_index@ == assets@,
        version.assets is None ==> context.assets_index@ == context.version_id@,
        version.version_type matches Some(channel) ==> context.version_type@ == channel@,
        version.version_type is None ==> context.version_type@ == "release"@,
        options.game_directory matches Some(dir) ==> context.game_dir@ == dir@,
        options.natives_directory matches Some(dir) ==> context.natives_dir@ == dir@,
        options.game_directory is None && options.natives_directory is None
            && context.game_dir@.len() > 0 && context.game_dir@.last() != '/'
            ==> context.natives_dir@ == context.game_dir@ + "/natives"@,
        options.game_directory is None && minecraft_dir.len() > 0 && minecraft_dir.last() != '/'
            && context.version_id@.len() > 0 && context.version_id@[0] != '/'
            ==> context.game_dir@ == minecraft_dir + "/versions/"@ + context.version_id@,
        context.features.demo_user == options.demo,
        context.features.custom_resolution == (options.custom_resolution is Some),
        (context.legacy_arguments is Some) == (version.minecraft_arguments is Some),
        version.minecraft_arguments matches Some(raw) ==> {
            let parts = text::texts(context.legacy_arguments->0@);
            &&& text::join(parts, seq![' ']) == raw@
            &&& forall|i: int| 0 <= i < parts.len() ==> !(#[trigger] parts[i]).contains(' ')
        },
{
    reveal_strlit("versions");
    reveal_strlit("natives");
    reveal_strlit("/versions/");
    reveal_strlit("/natives");
    if options.game_directory is None && minecraft_dir.len() > 0 && minecraft_dir.last() != '/'
        && context.version_id@.len() > 0 && context.version_id@[0] != '/' {
        assert(context.game_dir@ =~= minecraft_dir + "/versions/"@ + context.version_id@);
    }
    if options.game_directory is None && options.natives_directory is None
        && context.game_dir@.len() > 0 && context.game_dir@.last() != '/' {
        assert(context.natives_dir@ =~= context.game_dir@ + "/natives"@);
    }
    if let Some(raw) = version.minecraft_arguments {
        text::law_join_undoes_split(raw@, ' ');
        text::law_split_is_free_of_separator(raw@, ' ');
    }
}

proof fn lemma_classpath_flag(args: Seq<Seq<char>>, from: int)
    requires
        0 <= from,
    ensures
        match classpath_flag_from(args, from) {
            Some(at) => from <= at && at + 1 < args.len() && is_classpath_flag(args[at])
                && forall|i: int| from <= i < at ==> !is_classpath_flag(#[trigger] args[i]),
            None => forall|i: int|
                from <= i && i + 1 < args.len() ==> !is_classpath_flag(#[trigger] args[i]),
        },
    decreases args.len() - from,
{
    if from + 1 < args.len() && !is_classpath_flag(args[from]) {
        lemma_classpath_flag(args, from + 1);
    }
}

/// Where the classpath of a command is: right behind the first `-cp` or `-classpath`
/// that anything follows.
pub proof fn law_classpath_follows_its_flag(args: Seq<Seq<char>>)
    ensures
        match classpath_flag_from(args, 0) {
            Some(at) => 0 <= at && at + 1 < args.len() && (args[at] == "-cp"@ || args[at]
                == "-classpath"@) && forall|i: int|
                0 <= i < at ==> #[trigger] args[i] != "-cp"@ && args[i] != "-classpath"@,
            None => forall|i: int|
                0 <= i && i + 1 < args.len() ==> #[trigger] args[i] != "-cp"@ && args[i]
                    != "-classpath"@,
        },
{
    lemma_classpath_flag(args, 0);
    if let Some(at) = classpath_flag_from(args, 0) {
        assert forall|i: int| 0 <= i < at implies #[trigger] args[i] != "-cp"@ && args[i]
            != "-classpath"@ by {
            assert(!is_classpath_flag(args[i]));
        }
    } else {
        assert forall|i: int| 0 <= i && i + 1 < args.len() implies #[trigger] args[i] != "-cp"@
            && args[i] != "-classpath"@ by {
            assert(!is_classpath_flag(args[i]));
        }
    }
}

/// Where JVM arguments end if no main class is known or it is not among the
/// arguments: behind all of them.
pub proof fn law_boundary_without_a_main_class(args: Seq<Seq<char>>, main: Seq<char>)
    ensures
        jvm_boundary(args, None) == args.len(),
        !args.contains(main) ==> jvm_boundary(args, Some(main)) == args.len(),
        jvm_boundary(seq![main] + args, Some(main)) == 0,
        args.len() > 0 && args[0] != main && args.contains(main) ==> jvm_boundary(args, Some(main))
            > 0,
{
    lemma_position_from(args, main, 0);
    lemma_position_from(seq![main] + args, main, 0);
    assert((seq![main] + args)[0] == main);
}

} // verus!
