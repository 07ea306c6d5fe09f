//! The launch of a profile: what is prepared in which order, and what is told to
//! the player.

use vstd::prelude::*;
use vstd::string::*;

use crate::classpath;
use crate::command;
use crate::command::{LaunchCommand, LaunchOptions};
use crate::messages;
use crate::messages::{AppEvent, EventView, LaunchEvent};
use crate::path;
use crate::path::{is_same_path, join_path};
use crate::profile;
use crate::profile::{LauncherProfile, LoaderVersionView, ProfileLoader, ProfileLoaderVersion};
use crate::progress::{indeterminate_progress, ProgressView};
use crate::repair::ModRepairSummary;
use crate::runtime;
use crate::runtime::apply_profile_runtime_jvm_overrides;
use crate::session;
use crate::session::{Session, SessionView};
use crate::signin::SignedIn;
use crate::text;
use crate::text::{
    clone_optional, concat2, concat3, concat4, concat5, decimal_text, has_text, join_texts,
    to_ascii_lower,
};

verus! {

/// Whether a line of the game's output tells that the game has started up.
pub open spec fn is_ready_line(line: Seq<char>) -> bool {
    let lower = text::ascii_lower(line);
    text::contains_text(lower, "backend library:"@) || text::contains_text(
        lower,
        "opengl version"@,
    ) || text::contains_text(lower, "sound engine started"@)
}

/// Whether the line tells that the game has started up.
pub fn is_game_ready_line(line: &str) -> (r: bool)
    ensures
        r == is_ready_line(line@),
{
    let lower = to_ascii_lower(line);
    has_text(lower.as_str(), "backend library:") || has_text(lower.as_str(), "opengl version")
        || has_text(lower.as_str(), "sound engine started")
}

/// The output of a game that runs.
#[derive(Debug)]
pub struct GameOutput {
    ready: bool,
}

/// What a line of output leads to: the first line that tells of the start is
/// reported, and every line is logged.
pub open spec fn line_events(
    ready: bool,
    line: Seq<char>,
    prefix: Option<Seq<char>>,
    profile_id: Seq<char>,
) -> Seq<EventView> {
    let logged = EventView::Log(
        match prefix {
            Some(prefix) => prefix + line,
            None => line,
        },
    );
    if is_ready_line(line) && !ready {
        seq![EventView::Ready { profile_id }, logged]
    } else {
        seq![logged]
    }
}

impl GameOutput {
    /// Whether the game is known to have started up.
    pub closed spec fn is_ready(&self) -> bool {
        self.ready
    }

    /// The output of a game that was just started.
    pub fn new() -> (r: Self)
        ensures
            !r.is_ready(),
    {
        GameOutput { ready: false }
    }

    /// Takes in a line of output.
    pub fn forward_process_line(
        &mut self,
        line: String,
        prefix: Option<&str>,
        profile_id: &str,
    ) -> (r: Vec<AppEvent>)
        ensures
            messages::event_views(r@) == line_events(
                old(self).is_ready(),
                line@,
                text::opt_str(prefix),
                profile_id@,
            ),
            final(self).is_ready() == (old(self).is_ready() || is_ready_line(line@)),
    {
        let ghost whole = line@;
        let ghost ready = self.ready;
        let mut events: Vec<AppEvent> = Vec::new();
        if is_game_ready_line(line.as_str()) && !self.ready {
            self.ready = true;
            events.push(AppEvent::launch_ready(profile_id.to_owned()));
        }
        let output = match prefix {
            Some(prefix) => concat2(prefix, line.as_str()),
            None => line,
        };
        events.push(AppEvent::Log(output));
        assert(messages::event_views(events@) =~= line_events(
            ready,
            whole,
            text::opt_str(prefix),
            profile_id@,
        ));
        events
    }
}

/// A game is reported as started up once at most: after a report no line leads to
/// another one.
pub proof fn law_game_is_ready_once(
    line: Seq<char>,
    prefix: Option<Seq<char>>,
    profile_id: Seq<char>,
)
    ensures
        line_events(true, line, prefix, profile_id).len() == 1,
        line_events(true, line, prefix, profile_id)[0] is Log,
        !is_ready_line(line) ==> line_events(false, line, prefix, profile_id) == line_events(
            true,
            line,
            prefix,
            profile_id,
        ),
{
}

/// The file whose lock keeps a profile from being launched twice.
pub fn profile_lock_path(game_directory: &str) -> (r: String)
    ensures
        r@ == path::joined(game_directory@, ".lucent-launch.lock"@),
{
    join_path(game_directory, ".lucent-launch.lock")
}

/// The file whose lock protects what all profiles share.
pub fn install_lock_path(minecraft_dir: &str) -> (r: String)
    ensures
        r@ == path::joined(minecraft_dir@, ".lucent-install.lock"@),
{
    join_path(minecraft_dir, ".lucent-install.lock")
}

/// What is said about a profile that runs already.
pub open spec fn busy_text(name: Seq<char>) -> Seq<char> {
    "Profile '"@ + name + "' is already running in another launcher instance."@
}

/// A loader to install.
#[derive(Debug, PartialEq, Eq)]
pub struct LoaderSpec {
    /// The loader.
    pub loader: ProfileLoader,
    /// Its version.
    pub version: ProfileLoaderVersion,
}

/// A loader to install as plain values.
pub struct LoaderSpecView {
    pub loader: ProfileLoader,
    pub version: LoaderVersionView,
}

impl View for LoaderSpec {
    type V = LoaderSpecView;

    open spec fn view(&self) -> LoaderSpecView {
        LoaderSpecView { loader: self.loader, version: self.version@ }
    }
}

/// The loader that the game's own installer installs for a profile.
pub open spec fn loader_to_install(profile: LauncherProfile) -> Option<LoaderSpecView> {
    if profile.loader == ProfileLoader::Vanilla {
        None
    } else {
        Some(LoaderSpecView { loader: profile.loader, version: profile.loader_version@ })
    }
}

fn copy_loader_version(version: &ProfileLoaderVersion) -> (r: ProfileLoaderVersion)
    ensures
        r@ == version@,
{
    match version {
        ProfileLoaderVersion::LatestStable => ProfileLoaderVersion::LatestStable,
        ProfileLoaderVersion::Latest => ProfileLoaderVersion::Latest,
        ProfileLoaderVersion::Exact(v) => ProfileLoaderVersion::Exact(v.clone()),
    }
}

/// The settings of a profile's launch command.
pub fn profile_launch_options(
    session: Session,
    game_directory: String,
    java: Option<String>,
) -> (r: LaunchOptions)
    ensures
        match session {
            Session::Offline { username } => r.account == (command::Account::Offline { username }),
            Session::Microsoft { username, uuid, access_token, .. } => r.account == (
            command::Account::Microsoft { username, uuid, access_token }),
        },
        r.java_executable == java,
        r.game_directory == Some(game_directory),
        r.natives_directory is None,
        r.launcher_name@ == "mc-launcher-core"@,
        r.launcher_version@ == "0.1.1"@,
        r.custom_resolution is None,
        !r.demo,
        r.server is None,
        !r.disable_multiplayer,
        !r.disable_chat,
        r.compatibility == command::CompatibilityPolicy::Auto,
{
    let mut options = LaunchOptions::default();
    options.account = session.launch_account();
    options.game_directory = Some(game_directory);
    options.java_executable = java;
    options
}

/// Whether a Java runtime is installed with the game.
#[derive(Clone, Copy, Debug, PartialEq, Eq, Structural)]
pub enum JavaInstallPolicy {
    /// The runtime that the version asks for is installed.
    Auto,
    /// No runtime is installed.
    Never,
}

/// The policy where a Java runtime may be downloaded, or may not.
pub open spec fn java_policy(auto_download: bool) -> JavaInstallPolicy {
    if auto_download {
        JavaInstallPolicy::Auto
    } else {
        JavaInstallPolicy::Never
    }
}

/// The policy where a Java runtime may be downloaded, or may not.
pub fn java_install_policy(auto_download: bool) -> (r: JavaInstallPolicy)
    ensures
        r == java_policy(auto_download),
{
    if auto_download {
        JavaInstallPolicy::Auto
    } else {
        JavaInstallPolicy::Never
    }
}

/// What a launch asks for.
#[derive(Debug)]
pub enum LaunchAction {
    /// Hand the event to the user interface.
    Send(AppEvent),
    /// Lock the profile until the launch is over; a lock that is taken fails with
    /// this text.
    LockProfile(String),
    /// Read the identifier under which the launcher is registered.
    ReadClientId,
    /// Renew the session of the player.
    RefreshSession {
        /// The identifier of the launcher.
        client_id: String,
        /// The token that renews the session.
        refresh_token: String,
    },
    /// Store the refresh token.
    SaveToken(String),
    /// Resolve the configured Java executable.
    ResolveJava,
    /// Resolve the directory of the game.
    ResolveGameRoot,
    /// Lock what all profiles share.
    LockInstallation,
    /// Resolve the latest Forge version for this game version.
    ResolveForge(String),
    /// Install Forge.
    InstallForge {
        /// The game version.
        minecraft_version: String,
        /// The Forge version.
        forge_version: String,
        /// The Java executable.
        java: String,
        /// Whether a Java runtime may be downloaded.
        auto_download: bool,
    },
    /// Install the game and a loader.
    Install {
        /// The game version.
        minecraft_version: String,
        /// The loader.
        loader: Option<LoaderSpec>,
        /// Whether a Java runtime is installed with them.
        java: JavaInstallPolicy,
    },
    /// Load the metadata of an installed version.
    LoadVersion(String),
    /// Fetch the libraries that only a repository has.
    FetchLibraries,
    /// Prepare the game directory of the profile.
    PrepareGameDirectory,
    /// Repair the mods of the profile.
    RepairMods,
    /// Count the content that is switched on.
    CountContent {
        /// The directory of mods.
        mods: String,
        /// The directory of shader packs.
        shaders: String,
    },
    /// Install the Java runtime that a version asks for.
    EnsureJava(String),
    /// Look for a Java executable of the system.
    DiscoverJava,
    /// Build the launch command.
    BuildCommand {
        /// The session of the player.
        session: Session,
        /// The game directory.
        game_directory: String,
        /// The Java executable.
        java: Option<String>,
    },
    /// Unlock what all profiles share.
    ReleaseInstallation,
    /// Start the game with this executable.
    Spawn(String),
    /// Forward the output of the game, and wait for its end.
    Watch,
}

/// What a launch asks for, as plain values.
pub enum LaunchActionView {
    Send(EventView),
    LockProfile(Seq<char>),
    ReadClientId,
    RefreshSession { client_id: Seq<char>, refresh_token: Seq<char> },
    SaveToken(Seq<char>),
    ResolveJava,
    ResolveGameRoot,
    LockInstallation,
    ResolveForge(Seq<char>),
    InstallForge {
        minecraft_version: Seq<char>,
        forge_version: Seq<char>,
        java: Seq<char>,
        auto_download: bool,
    },
    Install {
        minecraft_version: Seq<char>,
        loader: Option<LoaderSpecView>,
        java: JavaInstallPolicy,
    },
    LoadVersion(Seq<char>),
    FetchLibraries,
    PrepareGameDirectory,
    RepairMods,
    CountContent { mods: Seq<char>, shaders: Seq<char> },
    EnsureJava(Seq<char>),
    DiscoverJava,
    BuildCommand { session: SessionView, game_directory: Seq<char>, java: Option<Seq<char>> },
    ReleaseInstallation,
    Spawn(Seq<char>),
    Watch,
}

impl View for LaunchAction {
    type V = LaunchActionView;

    open spec fn view(&self) -> LaunchActionView {
        match *self {
            LaunchAction::Send(event) => LaunchActionView::Send(event@),
            LaunchAction::LockProfile(busy) => LaunchActionView::LockProfile(busy@),
            LaunchAction::ReadClientId => LaunchActionView::ReadClientId,
            LaunchAction::RefreshSession { client_id, refresh_token } =>
                LaunchActionView::RefreshSession {
                client_id: client_id@,
                refresh_token: refresh_token@,
            },
            LaunchAction::SaveToken(token) => LaunchActionView::SaveToken(token@),
            LaunchAction::ResolveJava => LaunchActionView::ResolveJava,
            LaunchAction::ResolveGameRoot => LaunchActionView::ResolveGameRoot,
            LaunchAction::LockInstallation => LaunchActionView::LockInstallation,
            LaunchAction::ResolveForge(version) => LaunchActionView::ResolveForge(version@),
            LaunchAction::InstallForge { minecraft_version, forge_version, java, auto_download } =>
                LaunchActionView::InstallForge {
                minecraft_version: minecraft_version@,
                forge_version: forge_version@,
                java: java@,
                auto_download,
            },
            LaunchAction::Install { minecraft_version, loader, java } =>
                LaunchActionView::Install {
                minecraft_version: minecraft_version@,
                loader: match loader {
                    Some(loader) => Some(loader@),
                    None => None,
                },
                java,
            },
            LaunchAction::LoadVersion(version) => LaunchActionView::LoadVersion(version@),
            LaunchAction::FetchLibraries => LaunchActionView::FetchLibraries,
            LaunchAction::PrepareGameDirectory => LaunchActionView::PrepareGameDirectory,
            LaunchAction::RepairMods => LaunchActionView::RepairMods,
            LaunchAction::CountContent { mods, shaders } => LaunchActionView::CountContent {
                mods: mods@,
                shaders: shaders@,
            },
            LaunchAction::EnsureJava(version) => LaunchActionView::EnsureJava(version@),
            LaunchAction::DiscoverJava => LaunchActionView::DiscoverJava,
            LaunchAction::BuildCommand { session, game_directory, java } =>
                LaunchActionView::BuildCommand {
                session: session@,
                game_directory: game_directory@,
                java: text::opt_text(java),
            },
            LaunchAction::ReleaseInstallation => LaunchActionView::ReleaseInstallation,
            LaunchAction::Spawn(executable) => LaunchActionView::Spawn(executable@),
            LaunchAction::Watch => LaunchActionView::Watch,
        }
    }
}

/// Actions as plain values.
pub open spec fn action_views(actions: Seq<LaunchAction>) -> Seq<LaunchActionView> {
    actions.map_values(|action: LaunchAction| action@)
}

fn emit(actions: &mut Vec<LaunchAction>, action: LaunchAction)
    ensures
        action_views(final(actions)@) == action_views(old(actions)@).push(action@),
{
    let ghost before = actions@;
    let ghost added = action;
    actions.push(action);
    assert(action_views(actions@) =~= action_views(before).push(added@));
}

/// A line for the log.
pub open spec fn log(line: Seq<char>) -> LaunchActionView {
    LaunchActionView::Send(EventView::Log(line))
}

/// A text for the status bar.
pub open spec fn status(line: Seq<char>) -> LaunchActionView {
    LaunchActionView::Send(EventView::StatusUpdate(line))
}

fn emit_log(actions: &mut Vec<LaunchAction>, line: String)
    ensures
        action_views(final(actions)@) == action_views(old(actions)@).push(log(line@)),
{
    emit(actions, LaunchAction::Send(AppEvent::Log(line)));
}

fn emit_status(actions: &mut Vec<LaunchAction>, line: String)
    ensures
        action_views(final(actions)@) == action_views(old(actions)@).push(status(line@)),
{
    emit(actions, LaunchAction::Send(AppEvent::StatusUpdate(line)));
}

/// Progress of a stage that gives no totals.
pub open spec fn stage_progress(profile_id: Seq<char>, stage: Seq<char>) -> LaunchActionView {
    LaunchActionView::Send(
        EventView::Progress(
            ProgressView {
                profile_id,
                stage,
                completed_tasks: 0,
                total_tasks: None,
                current_task: None,
                bytes_received: 0,
                total_bytes: None,
            },
        ),
    )
}

/// How an action went.
#[derive(Debug)]
pub enum LaunchReply {
    /// It is done.
    Done,
    /// The identifier under which the launcher is registered, if one is set.
    ClientId(Option<String>),
    /// The renewed session.
    SignedIn(SignedIn),
    /// A Java executable, if there is one.
    Java(Option<String>),
    /// The game directory.
    Directory(String),
    /// A version.
    Version(String),
    /// The metadata of the version is loaded.
    Loaded {
        /// The class that starts the game.
        main_class: Option<String>,
    },
    /// What the repair of the mods did.
    Repaired(ModRepairSummary),
    /// How much content is switched on.
    Counted {
        /// Mods.
        mods: usize,
        /// Shader packs.
        shaders: usize,
    },
    /// The launch command.
    Command(LaunchCommand),
    /// The game could not be started.
    SpawnFailed {
        /// The executable does not exist.
        not_found: bool,
        /// Why it could not be started.
        error: String,
    },
    /// The game ended.
    Exited {
        /// It ended without a failure.
        success: bool,
        /// How it ended.
        status: String,
    },
    /// The action failed.
    Failed(String),
}

/// What a launch waits for.
#[derive(Debug, Clone, Copy, PartialEq, Eq, Structural)]
pub enum LaunchStage {
    /// The lock of the profile.
    LockingProfile,
    /// The identifier of the launcher.
    ReadingClientId,
    /// The renewed session.
    Refreshing,
    /// The end of storing the token.
    SavingToken,
    /// The configured Java executable.
    ResolvingJava,
    /// The directory of the game.
    ResolvingRoot,
    /// The lock of what all profiles share.
    LockingInstallation,
    /// The latest Forge version.
    ResolvingForge,
    /// The installation of Forge.
    InstallingForge,
    /// The installation of the game and a loader.
    Installing,
    /// The metadata.
    Loading,
    /// The libraries that only a repository has.
    FetchingLibraries,
    /// The game directory of the profile.
    PreparingDirectory,
    /// The repair of the mods.
    Repairing,
    /// The count of content.
    Counting,
    /// The Java runtime that the version asks for.
    EnsuringJava,
    /// A Java executable of the system.
    DiscoveringJava,
    /// The launch command.
    Building,
    /// The start of the game.
    Spawning,
    /// The end of the game.
    Watching,
    /// Nothing: the launch is over.
    Over,
}

/// What is launched.
pub struct LaunchJob {
    pub profile: LauncherProfile,
    pub java_path: Seq<char>,
    pub java_policy: JavaInstallPolicy,
}

/// A command to start the game, as plain values.
pub struct CommandView {
    pub executable: Seq<char>,
    pub args: Seq<Seq<char>>,
    pub working_dir: Seq<char>,
}

/// The state of a launch as plain values.
pub struct LaunchView {
    pub stage: LaunchStage,
    pub session: SessionView,
    pub preferred_java: Option<Seq<char>>,
    pub installed_version: Seq<char>,
    pub main_class: Option<Seq<char>>,
    pub game_directory: Seq<char>,
    pub launch_java: Option<Seq<char>>,
    pub command: Option<CommandView>,
    pub retried: bool,
}

/// The event that tells of a failure.
pub open spec fn failure(job: LaunchJob, error: Seq<char>) -> LaunchActionView {
    LaunchActionView::Send(EventView::Failed { profile_id: job.profile.id@, error })
}

/// A launch that ends with a failure.
pub open spec fn failing(job: LaunchJob, v: LaunchView, error: Seq<char>) -> (
    LaunchView,
    Seq<LaunchActionView>,
) {
    (LaunchView { stage: LaunchStage::Over, ..v }, seq![failure(job, error)])
}

/// Actions that come before those of a step.
pub open spec fn preceded(
    first: Seq<LaunchActionView>,
    step: (LaunchView, Seq<LaunchActionView>),
) -> (LaunchView, Seq<LaunchActionView>) {
    (step.0, first + step.1)
}

/// The session is settled: the preparation begins.
pub open spec fn prepare(job: LaunchJob, v: LaunchView) -> (LaunchView, Seq<LaunchActionView>) {
    (
        LaunchView { stage: LaunchStage::ResolvingJava, ..v },
        seq![
            status(
                "Preparing "@ + job.profile.name@ + " ("@ + job.profile.version_id@ + ")"@,
            ),
            log(
                "Initializing launch pipeline for user: "@ + session::player_name(v.session)
                    + " (profile: "@ + job.profile.name@ + ")"@,
            ),
            LaunchActionView::ResolveJava,
        ],
    )
}

/// The Java executable that installs Forge: the preferred one, or what is
/// configured.
pub open spec fn forge_java_path(job: LaunchJob, v: LaunchView) -> Seq<char> {
    match v.preferred_java {
        Some(java) => java,
        None => job.java_path,
    }
}

/// The installation of a Forge version.
pub open spec fn start_forge(job: LaunchJob, v: LaunchView, forge_version: Seq<char>) -> (
    LaunchView,
    Seq<LaunchActionView>,
) {
    (
        LaunchView { stage: LaunchStage::InstallingForge, ..v },
        seq![
            log("Starting Forge installation pipeline (this can take a few minutes)..."@),
            stage_progress(job.profile.id@, "Running Forge installer"@),
            LaunchActionView::InstallForge {
                minecraft_version: job.profile.version_id@,
                forge_version,
                java: forge_java_path(job, v),
                auto_download: job.profile.java_auto_download,
            },
        ],
    )
}

/// What is installed for a profile: Forge goes its own way.
pub open spec fn install(job: LaunchJob, v: LaunchView) -> (LaunchView, Seq<LaunchActionView>) {
    if job.profile.loader == ProfileLoader::Forge {
        match job.profile.loader_version@ {
            LoaderVersionView::Exact(version) => start_forge(job, v, version),
            _ => (
                LaunchView { stage: LaunchStage::ResolvingForge, ..v },
                seq![LaunchActionView::ResolveForge(job.profile.version_id@)],
            ),
        }
    } else {
        (
            LaunchView { stage: LaunchStage::Installing, ..v },
            seq![
                log(
                    "Installing Minecraft/loader assets (this can take a few minutes on first run)..."@,
                ),
                LaunchActionView::Install {
                    minecraft_version: job.profile.version_id@,
                    loader: loader_to_install(job.profile),
                    java: job.java_policy,
                },
            ],
        )
    }
}

/// The version is installed: its metadata is loaded.
pub open spec fn installed(job: LaunchJob, v: LaunchView, version: Seq<char>) -> (
    LaunchView,
    Seq<LaunchActionView>,
) {
    (
        LaunchView { stage: LaunchStage::Loading, installed_version: version, ..v },
        seq![
            log("Successfully prepared profile: "@ + version),
            stage_progress(job.profile.id@, "Loading installed version metadata"@),
            LaunchActionView::LoadVersion(version),
        ],
    )
}

/// What is said about a repair.
pub open spec fn repair_line(summary: ModRepairSummary) -> Seq<char> {
    "Auto-repair summary: checked="@ + text::decimal(summary.checked as nat) + ", updated="@
        + text::decimal(summary.updated as nat) + ", disabled="@ + text::decimal(
        summary.disabled as nat,
    ) + ", unknown="@ + text::decimal(summary.unknown as nat)
}

/// What is said about mods that had to be switched off.
pub open spec fn disabled_mods_text(job: LaunchJob, mods: Seq<Seq<char>>) -> Seq<char> {
    "Mod repair disabled incompatible mods with no compatible replacements for profile '"@
        + job.profile.name@ + "': "@ + text::join(mods, ", "@)
}

/// What follows a repair: a launch with mods that were switched off is refused.
pub open spec fn after_repair(job: LaunchJob, v: LaunchView, summary: ModRepairSummary) -> (
    LaunchView,
    Seq<LaunchActionView>,
) {
    let line = log(repair_line(summary));
    if summary.disabled_mods@.len() > 0 {
        (
            LaunchView { stage: LaunchStage::Over, ..v },
            seq![
                line,
                failure(job, disabled_mods_text(job, text::texts(summary.disabled_mods@))),
            ],
        )
    } else {
        (
            LaunchView { stage: LaunchStage::Counting, ..v },
            seq![
                line,
                LaunchActionView::CountContent {
                    mods: path::joined(v.game_directory, "mods"@),
                    shaders: path::joined(v.game_directory, "shaderpacks"@),
                },
            ],
        )
    }
}

/// The Java executable is settled: the command is built.
pub open spec fn build(v: LaunchView) -> (LaunchView, Seq<LaunchActionView>) {
    (
        LaunchView { stage: LaunchStage::Building, ..v },
        seq![
            LaunchActionView::BuildCommand {
                session: v.session,
                game_directory: v.game_directory,
                java: v.launch_java,
            },
        ],
    )
}

/// No Java executable is known: one is looked for.
pub open spec fn discover(v: LaunchView) -> (LaunchView, Seq<LaunchActionView>) {
    (
        LaunchView { stage: LaunchStage::DiscoveringJava, ..v },
        seq![LaunchActionView::DiscoverJava],
    )
}

/// The choice of a Java executable: the preferred one, else one that is
/// downloaded if the profile allows it, else one of the system.
pub open spec fn choose_java(job: LaunchJob, v: LaunchView) -> (
    LaunchView,
    Seq<LaunchActionView>,
) {
    let v = LaunchView { launch_java: v.preferred_java, ..v };
    if v.preferred_java is Some {
        build(v)
    } else if job.profile.java_auto_download {
        (
            LaunchView { stage: LaunchStage::EnsuringJava, ..v },
            seq![LaunchActionView::EnsureJava(v.installed_version)],
        )
    } else {
        discover(v)
    }
}

/// The arguments of a command under the JVM settings of a profile.
pub open spec fn profile_args(job: LaunchJob, v: LaunchView, args: Seq<Seq<char>>) -> Seq<
    Seq<char>,
> {
    runtime::overridden(
        args,
        v.main_class,
        job.profile.java_memory_mb,
        text::opt_text(job.profile.java_args),
    )
}

/// Arguments whose classpath names every artifact once.
pub open spec fn deduplicated_args(args: Seq<Seq<char>>) -> Seq<Seq<char>> {
    match command::classpath_flag_from(args, 0) {
        Some(flag) => args.update(flag + 1, classpath::deduplicated(args[flag + 1])),
        None => args,
    }
}

/// How many classpath entries that takes away.
pub open spec fn deduplicated_count(args: Seq<Seq<char>>) -> int {
    match command::classpath_flag_from(args, 0) {
        Some(flag) => classpath::replaced_count(args[flag + 1]),
        None => 0,
    }
}

/// What is said about the changes to a command.
pub open spec fn command_lines(job: LaunchJob, v: LaunchView, args: Seq<Seq<char>>) -> Seq<
    LaunchActionView,
> {
    let added = runtime::profile_arguments(
        job.profile.java_memory_mb,
        text::opt_text(job.profile.java_args),
    ).len();
    let removed = deduplicated_count(profile_args(job, v, args));
    (if added > 0 {
        seq![
            log("Applied "@ + text::decimal(added) + " profile JVM override argument(s)"@),
        ]
    } else {
        seq![]
    }) + (if removed > 0 {
        seq![
            log(
                "Deduplicated "@ + text::decimal(removed as nat)
                    + " conflicting library entries from classpath"@,
            ),
        ]
    } else {
        seq![]
    })
}

/// What follows the launch command: the settings of the profile go in, the
/// classpath is cleaned, what all profiles share is unlocked, and the game is
/// started.
pub open spec fn after_command(job: LaunchJob, v: LaunchView, built: LaunchCommand) -> (
    LaunchView,
    Seq<LaunchActionView>,
) {
    let args = text::texts(built.args@);
    let executable = built.executable@;
    (
        LaunchView {
            stage: LaunchStage::Spawning,
            command: Some(
                CommandView {
                    executable,
                    args: deduplicated_args(profile_args(job, v, args)),
                    working_dir: built.working_dir@,
                },
            ),
            ..v
        },
        command_lines(job, v, args) + seq![
            status("Launching Game Engine"@),
            log("Spawning Java runtime context process..."@),
            log("Launch command executable: "@ + executable),
            LaunchActionView::ReleaseInstallation,
            LaunchActionView::Spawn(executable),
        ],
    )
}

/// What follows a start that failed: one other attempt, if the executable does
/// not exist and another one is known.
pub open spec fn after_spawn_failure(
    job: LaunchJob,
    v: LaunchView,
    not_found: bool,
    error: Seq<char>,
) -> (LaunchView, Seq<LaunchActionView>) {
    match (v.launch_java, v.command) {
        (Some(java), Some(built)) if !v.retried && not_found && !path::same_path(
            java,
            built.executable,
        ) => (
            LaunchView { retried: true, ..v },
            seq![
                log("Launch executable not found; retrying with resolved Java: "@ + java),
                LaunchActionView::Spawn(java),
            ],
        ),
        _ => failing(
            job,
            v,
            "Failed to spawn Java execution process: "@ + error
                + ". Configure a valid Java binary in Profile Editor > Runtime Settings, or keep Runtime Java policy on Auto to download a managed runtime."@,
        ),
    }
}

/// What a failure is reported as, at each stage.
pub open spec fn failure_text(stage: LaunchStage, error: Seq<char>) -> Seq<char> {
    match stage {
        LaunchStage::Refreshing => "Microsoft token refresh failed before launch: "@ + error,
        LaunchStage::ResolvingJava => "Java configuration error: "@ + error,
        LaunchStage::ResolvingRoot => "Failed resolving runtime minecraft directory: "@ + error,
        LaunchStage::InstallingForge => "Installation pipeline aborted: "@ + error,
        LaunchStage::Installing => "Installation pipeline aborted: "@ + error,
        LaunchStage::Loading => "Failed loading version structural profile: "@ + error,
        LaunchStage::FetchingLibraries => "Failed preparing fallback libraries: "@ + error,
        LaunchStage::PreparingDirectory => "Failed preparing profile game directory: "@ + error,
        LaunchStage::Repairing => "Failed during mod compatibility auto-repair: "@ + error,
        LaunchStage::EnsuringJava => "Java runtime auto-install failed: "@ + error,
        LaunchStage::Building => "Launch command compilation failed: "@ + error,
        LaunchStage::Watching => "Failed waiting for Java process: "@ + error,
        _ => error,
    }
}

/// What a reply leads to. A reply that the launch does not wait for changes
/// nothing. A failure ends the launch, except that of storing a token.
pub open spec fn launch_step(job: LaunchJob, v: LaunchView, reply: LaunchReply) -> (
    LaunchView,
    Seq<LaunchActionView>,
) {
    match (v.stage, reply) {
        (LaunchStage::Over, _) => (v, seq![]),
        (LaunchStage::SavingToken, LaunchReply::Failed(error)) => preceded(
            seq![log("[WARN] Failed updating stored refresh token: "@ + error@)],
            prepare(job, v),
        ),
        (stage, LaunchReply::Failed(error)) => failing(job, v, failure_text(stage, error@)),
        (LaunchStage::LockingProfile, LaunchReply::Done) => match v.session {
            SessionView::Offline { .. } => prepare(job, v),
            SessionView::Microsoft { .. } => (
                LaunchView { stage: LaunchStage::ReadingClientId, ..v },
                seq![LaunchActionView::ReadClientId],
            ),
        },
        (LaunchStage::ReadingClientId, LaunchReply::ClientId(id)) => match (v.session, id) {
            (SessionView::Microsoft { username, refresh_token, .. }, Some(id)) => (
                LaunchView { stage: LaunchStage::Refreshing, ..v },
                seq![
                    log("Refreshing Microsoft access token for "@ + username + "..."@),
                    LaunchActionView::RefreshSession { client_id: id@, refresh_token },
                ],
            ),
            _ => preceded(
                seq![log("[WARN] LUCENT_MS_CLIENT_ID missing; using existing Microsoft token"@)],
                prepare(job, v),
            ),
        },
        (LaunchStage::Refreshing, LaunchReply::SignedIn(player)) => (
            LaunchView {
                stage: LaunchStage::SavingToken,
                session: SessionView::Microsoft {
                    username: player.username@,
                    uuid: player.uuid@,
                    access_token: player.access_token@,
                    refresh_token: player.refresh_token@,
                },
                ..v
            },
            seq![LaunchActionView::SaveToken(player.refresh_token@)],
        ),
        (LaunchStage::SavingToken, LaunchReply::Done) => prepare(job, v),
        (LaunchStage::ResolvingJava, LaunchReply::Java(java)) => (
            LaunchView {
                stage: LaunchStage::ResolvingRoot,
                preferred_java: text::opt_text(java),
                ..v
            },
            seq![
                log(
                    match java {
                        Some(java) => "Using Java executable: "@ + java@,
                        None =>
                            "No explicit Java binary configured; relying on launcher/runtime defaults"@,
                    },
                ),
                LaunchActionView::ResolveGameRoot,
            ],
        ),
        (LaunchStage::ResolvingRoot, LaunchReply::Done) => (
            LaunchView { stage: LaunchStage::LockingInstallation, ..v },
            seq![
                log(
                    "Checking manifests and installing profile: MC="@ + job.profile.version_id@
                        + ", Loader="@ + profile::loader_name(job.profile.loader)
                        + ", LoaderVersion="@ + profile::loader_version_name(
                        job.profile.loader_version@,
                    ),
                ),
                LaunchActionView::LockInstallation,
            ],
        ),
        (LaunchStage::LockingInstallation, LaunchReply::Done) => install(job, v),
        (LaunchStage::ResolvingForge, LaunchReply::Version(version)) => preceded(
            seq![
                log(
                    "Resolved Forge version for "@ + job.profile.version_id@ + " -> "@ + version@,
                ),
            ],
            start_forge(job, v, version@),
        ),
        (LaunchStage::InstallingForge, LaunchReply::Version(version)) => installed(
            job,
            v,
            version@,
        ),
        (LaunchStage::Installing, LaunchReply::Version(version)) => installed(job, v, version@),
        (LaunchStage::Loading, LaunchReply::Loaded { main_class }) => (
            LaunchView {
                stage: LaunchStage::FetchingLibraries,
                main_class: text::opt_text(main_class),
                ..v
            },
            seq![LaunchActionView::FetchLibraries],
        ),
        (LaunchStage::FetchingLibraries, LaunchReply::Done) => (
            LaunchView { stage: LaunchStage::PreparingDirectory, ..v },
            seq![LaunchActionView::PrepareGameDirectory],
        ),
        (LaunchStage::PreparingDirectory, LaunchReply::Directory(directory)) => (
            LaunchView { stage: LaunchStage::Repairing, game_directory: directory@, ..v },
            seq![status("Repairing mods"@), LaunchActionView::RepairMods],
        ),
        (LaunchStage::Repairing, LaunchReply::Repaired(summary)) => after_repair(job, v, summary),
        (LaunchStage::Counting, LaunchReply::Counted { mods, shaders }) => preceded(
            seq![
                log("Using profile game directory: "@ + v.game_directory),
                log(
                    "Profile content: "@ + text::decimal(mods as nat) + " enabled mod(s), "@
                        + text::decimal(shaders as nat) + " enabled shaderpack(s)"@,
                ),
            ],
            choose_java(job, v),
        ),
        (LaunchStage::EnsuringJava, LaunchReply::Java(java)) => match java {
            Some(java) => build(LaunchView { launch_java: Some(java@), ..v }),
            None => preceded(
                seq![
                    log(
                        "No version-specific managed Java runtime metadata found; falling back to system discovery"@,
                    ),
                ],
                discover(v),
            ),
        },
        (LaunchStage::DiscoveringJava, LaunchReply::Java(java)) => build(
            LaunchView { launch_java: text::opt_text(java), ..v },
        ),
        (LaunchStage::Building, LaunchReply::Command(built)) => after_command(job, v, built),
        (LaunchStage::Spawning, LaunchReply::Done) => (
            LaunchView { stage: LaunchStage::Watching, ..v },
            seq![status("Waiting for Minecraft to initialize…"@), LaunchActionView::Watch],
        ),
        (LaunchStage::Spawning, LaunchReply::SpawnFailed { not_found, error }) =>
            after_spawn_failure(job, v, not_found, error@),
        (LaunchStage::Watching, LaunchReply::Exited { success, status }) => if success {
            (
                LaunchView { stage: LaunchStage::Over, ..v },
                seq![
                    LaunchActionView::Send(
                        EventView::Finished { profile_id: job.profile.id@ },
                    ),
                ],
            )
        } else {
            failing(job, v, "Java process exited with status: "@ + status@)
        },
        _ => (v, seq![]),
    }
}

/// How a launch begins.
pub open spec fn launch_start(job: LaunchJob, session: SessionView) -> (
    LaunchView,
    Seq<LaunchActionView>,
) {
    (
        LaunchView {
            stage: LaunchStage::LockingProfile,
            session,
            preferred_java: None,
            installed_version: seq![],
            main_class: None,
            game_directory: seq![],
            launch_java: None,
            command: None,
            retried: false,
        },
        seq![LaunchActionView::LockProfile(busy_text(job.profile.name@))],
    )
}

/// A launch of a profile.
#[derive(Debug)]
pub struct LaunchService {
    profile: LauncherProfile,
    java_path: String,
    java_policy: JavaInstallPolicy,
    stage: LaunchStage,
    session: Session,
    preferred_java: Option<String>,
    installed_version: String,
    main_class: Option<String>,
    game_directory: String,
    launch_java: Option<String>,
    command: Option<LaunchCommand>,
    retried: bool,
}

/// A command as plain values.
pub open spec fn command_view(built: LaunchCommand) -> CommandView {
    CommandView {
        executable: built.executable@,
        args: text::texts(built.args@),
        working_dir: built.working_dir@,
    }
}

impl View for LaunchService {
    type V = LaunchView;

    closed spec fn view(&self) -> LaunchView {
        LaunchView {
            stage: self.stage,
            session: self.session@,
            preferred_java: text::opt_text(self.preferred_java),
            installed_version: self.installed_version@,
            main_class: text::opt_text(self.main_class),
            game_directory: self.game_directory@,
            launch_java: text::opt_text(self.launch_java),
            command: match self.command {
                Some(built) => Some(command_view(built)),
                None => None,
            },
            retried: self.retried,
        }
    }
}

/// A text that is there, as a slice.
fn optional_str(value: &Option<String>) -> (r: Option<&str>)
    ensures
        text::opt_str(r) == text::opt_text(*value),
{
    match value {
        Some(s) => Some(s.as_str()),
        None => None,
    }
}

impl LaunchService {
    /// What is launched.
    pub closed spec fn job(&self) -> LaunchJob {
        LaunchJob {
            profile: self.profile,
            java_path: self.java_path@,
            java_policy: self.java_policy,
        }
    }

    /// Begins the launch of a profile.
    pub fn run(
        profile: LauncherProfile,
        session: Session,
        java_path: String,
        java_policy: JavaInstallPolicy,
    ) -> (r: (LaunchService, Vec<LaunchAction>))
        ensures
            r.0.job() == (LaunchJob { profile, java_path: java_path@, java_policy }),
            (r.0@, action_views(r.1@)) == launch_start(r.0.job(), session@),
    {
        let busy = concat3(
            "Profile '",
            profile.name.as_str(),
            "' is already running in another launcher instance.",
        );
        let mut actions: Vec<LaunchAction> = Vec::new();
        assert(action_views(actions@) =~= seq![]);
        emit(&mut actions, LaunchAction::LockProfile(busy));
        let service = LaunchService {
            profile,
            java_path,
            java_policy,
            stage: LaunchStage::LockingProfile,
            session,
            preferred_java: None,
            installed_version: String::new(),
            main_class: None,
            game_directory: String::new(),
            launch_java: None,
            command: None,
            retried: false,
        };
        assert(service.installed_version@ =~= seq![]);
        assert(service.game_directory@ =~= seq![]);
        (service, actions)
    }

    /// The command that starts the game, once it is built.
    pub fn command(&self) -> (r: Option<&LaunchCommand>)
        ensures
            match self@.command {
                Some(view) => r matches Some(built) && command_view(*built) == view,
                None => r is None,
            },
    {
        match &self.command {
            Some(built) => Some(built),
            None => None,
        }
    }

    fn fail(&mut self, error: String, actions: &mut Vec<LaunchAction>)
        ensures
            final(self).job() == old(self).job(),
            final(self)@ == failing(old(self).job(), old(self)@, error@).0,
            action_views(final(actions)@) == action_views(old(actions)@) + failing(
                old(self).job(),
                old(self)@,
                error@,
            ).1,
    {
        let ghost earlier = action_views(actions@);
        self.stage = LaunchStage::Over;
        emit(
            actions,
            LaunchAction::Send(AppEvent::launch_failed(self.profile.id.clone(), error)),
        );
        assert(action_views(actions@) =~= earlier + seq![failure(self.job(), error@)]);
    }

    fn prepare(&mut self, actions: &mut Vec<LaunchAction>)
        ensures
            final(self).job() == old(self).job(),
            final(self)@ == prepare(old(self).job(), old(self)@).0,
            action_views(final(actions)@) == action_views(old(actions)@) + prepare(
                old(self).job(),
                old(self)@,
            ).1,
    {
        let ghost earlier = action_views(actions@);
        let ghost job = self.job();
        let ghost before = self@;
        self.stage = LaunchStage::ResolvingJava;
        let line = concat5(
            "Preparing ",
            self.profile.name.as_str(),
            " (",
            self.profile.version_id.as_str(),
            ")",
        );
        emit_status(actions, line);
        let line = concat5(
            "Initializing launch pipeline for user: ",
            self.session.display_name(),
            " (profile: ",
            self.profile.name.as_str(),
            ")",
        );
        emit_log(actions, line);
        emit(actions, LaunchAction::ResolveJava);
        assert(action_views(actions@) =~= earlier + prepare(job, before).1);
    }

    fn report_stage(&self, stage: &str, actions: &mut Vec<LaunchAction>)
        ensures
            action_views(final(actions)@) == action_views(old(actions)@).push(
                stage_progress(self.profile.id@, stage@),
            ),
    {
        let progress = indeterminate_progress(self.profile.id.as_str(), stage.to_owned());
        emit(actions, LaunchAction::Send(AppEvent::Launch(LaunchEvent::Progress(progress))));
    }

    fn start_forge(&mut self, forge_version: String, actions: &mut Vec<LaunchAction>)
        ensures
            final(self).job() == old(self).job(),
            final(self)@ == start_forge(old(self).job(), old(self)@, forge_version@).0,
            action_views(final(actions)@) == action_views(old(actions)@) + start_forge(
                old(self).job(),
                old(self)@,
                forge_version@,
            ).1,
    {
        let ghost earlier = action_views(actions@);
        let ghost job = self.job();
        let ghost before = self@;
        self.stage = LaunchStage::InstallingForge;
        emit_log(
            actions,
            "Starting Forge installation pipeline (this can take a few minutes)...".to_owned(),
        );
        self.report_stage("Running Forge installer", actions);
        let java = match &self.preferred_java {
            Some(java) => java.clone(),
            None => self.java_path.clone(),
        };
        emit(
            actions,
            LaunchAction::InstallForge {
                minecraft_version: self.profile.version_id.clone(),
                forge_version,
                java,
                auto_download: self.profile.java_auto_download,
            },
        );
        assert(action_views(actions@) =~= earlier + start_forge(job, before, forge_version@).1);
    }

    fn install(&mut self, actions: &mut Vec<LaunchAction>)
        requires
            action_views(old(actions)@) == Seq::<LaunchActionView>::empty(),
        ensures
            final(self).job() == old(self).job(),
            (final(self)@, action_views(final(actions)@)) == install(old(self).job(), old(self)@),
    {
        let ghost job = self.job();
        let ghost before = self@;
        if let ProfileLoader::Forge = self.profile.loader {
            let exact = match &self.profile.loader_version {
                ProfileLoaderVersion::Exact(version) => Some(version.clone()),
                _ => None,
            };
            match exact {
                Some(version) => {
                    self.start_forge(version, actions);
                    assert(action_views(actions@) =~= install(job, before).1);
                },
                None => {
                    self.stage = LaunchStage::ResolvingForge;
                    emit(actions, LaunchAction::ResolveForge(self.profile.version_id.clone()));
                },
            }
        } else {
            self.stage = LaunchStage::Installing;
            let loader = match self.profile.loader {
                ProfileLoader::Vanilla => None,
                other => Some(
                    LoaderSpec {
                        loader: other,
                        version: copy_loader_version(&self.profile.loader_version),
                    },
                ),
            };
            emit_log(
                actions,
                "Installing Minecraft/loader assets (this can take a few minutes on first run)...".to_owned(),
            );
            emit(
                actions,
                LaunchAction::Install {
                    minecraft_version: self.profile.version_id.clone(),
                    loader,
                    java: self.java_policy,
                },
            );
        }
    }

    fn installed(&mut self, version: String, actions: &mut Vec<LaunchAction>)
        requires
            action_views(old(actions)@) == Seq::<LaunchActionView>::empty(),
        ensures
            final(self).job() == old(self).job(),
            (final(self)@, action_views(final(actions)@)) == installed(
                old(self).job(),
                old(self)@,
                version@,
            ),
    {
        self.stage = LaunchStage::Loading;
        self.installed_version = version.clone();
        let line = concat2("Successfully prepared profile: ", version.as_str());
        emit_log(actions, line);
        self.report_stage("Loading installed version metadata", actions);
        emit(actions, LaunchAction::LoadVersion(version));
    }

    fn repaired(&mut self, summary: &ModRepairSummary, actions: &mut Vec<LaunchAction>)
        requires
            action_views(old(actions)@) == Seq::<LaunchActionView>::empty(),
        ensures
            final(self).job() == old(self).job(),
            (final(self)@, action_views(final(actions)@)) == after_repair(
                old(self).job(),
                old(self)@,
                *summary,
            ),
    {
        let ghost job = self.job();
        let ghost before = self@;
        let checked = decimal_text(summary.checked as u128);
        let updated = decimal_text(summary.updated as u128);
        let disabled = decimal_text(summary.disabled as u128);
        let unknown = decimal_text(summary.unknown as u128);
        let mut line = concat4(
            "Auto-repair summary: checked=",
            checked.as_str(),
            ", updated=",
            updated.as_str(),
        );
        line.append(", disabled=");
        line.append(disabled.as_str());
        line.append(", unknown=");
        line.append(unknown.as_str());
        emit_log(actions, line);
        if summary.disabled_mods.len() > 0 {
            let names = join_texts(&summary.disabled_mods, ", ");
            let error = concat4(
                "Mod repair disabled incompatible mods with no compatible replacements for profile '",
                self.profile.name.as_str(),
                "': ",
                names.as_str(),
            );
            self.fail(error, actions);
            assert(action_views(actions@) =~= after_repair(job, before, *summary).1);
        } else {
            self.stage = LaunchStage::Counting;
            let mods = join_path(self.game_directory.as_str(), "mods");
            let shaders = join_path(self.game_directory.as_str(), "shaderpacks");
            emit(actions, LaunchAction::CountContent { mods, shaders });
        }
    }

    fn build(&mut self, actions: &mut Vec<LaunchAction>)
        ensures
            final(self).job() == old(self).job(),
            final(self)@ == build(old(self)@).0,
            action_views(final(actions)@) == action_views(old(actions)@) + build(old(self)@).1,
    {
        let ghost earlier = action_views(actions@);
        let ghost before = self@;
        self.stage = LaunchStage::Building;
        emit(
            actions,
            LaunchAction::BuildCommand {
                session: self.session.clone(),
                game_directory: self.game_directory.clone(),
                java: clone_optional(&self.launch_java),
            },
        );
        assert(action_views(actions@) =~= earlier + build(before).1);
    }

    fn discover(&mut self, actions: &mut Vec<LaunchAction>)
        ensures
            final(self).job() == old(self).job(),
            final(self)@ == discover(old(self)@).0,
            action_views(final(actions)@) == action_views(old(actions)@) + discover(old(self)@).1,
    {
        let ghost earlier = action_views(actions@);
        let ghost before = self@;
        self.stage = LaunchStage::DiscoveringJava;
        emit(actions, LaunchAction::DiscoverJava);
        assert(action_views(actions@) =~= earlier + discover(before).1);
    }

    fn choose_java(&mut self, actions: &mut Vec<LaunchAction>)
        ensures
            final(self).job() == old(self).job(),
            final(self)@ == choose_java(old(self).job(), old(self)@).0,
            action_views(final(actions)@) == action_views(old(actions)@) + choose_java(
                old(self).job(),
                old(self)@,
            ).1,
    {
        let ghost earlier = action_views(actions@);
        let ghost before = self@;
        let ghost job = self.job();
        self.launch_java = clone_optional(&self.preferred_java);
        if self.preferred_java.is_some() {
            self.build(actions);
        } else if self.profile.java_auto_download {
            self.stage = LaunchStage::EnsuringJava;
            emit(actions, LaunchAction::EnsureJava(self.installed_version.clone()));
            assert(action_views(actions@) =~= earlier + choose_java(job, before).1);
        } else {
            self.discover(actions);
        }
    }

    fn counted(&mut self, mods: usize, shaders: usize, actions: &mut Vec<LaunchAction>)
        requires
            action_views(old(actions)@) == Seq::<LaunchActionView>::empty(),
        ensures
            final(self).job() == old(self).job(),
            (final(self)@, action_views(final(actions)@)) == preceded(
                seq![
                    log("Using profile game directory: "@ + old(self)@.game_directory),
                    log(
                        "Profile content: "@ + text::decimal(mods as nat) + " enabled mod(s), "@
                            + text::decimal(shaders as nat) + " enabled shaderpack(s)"@,
                    ),
                ],
                choose_java(old(self).job(), old(self)@),
            ),
    {
        let line = concat2("Using profile game directory: ", self.game_directory.as_str());
        emit_log(actions, line);
        let mods = decimal_text(mods as u128);
        let shaders = decimal_text(shaders as u128);
        let line = concat5(
            "Profile content: ",
            mods.as_str(),
            " enabled mod(s), ",
            shaders.as_str(),
            " enabled shaderpack(s)",
        );
        emit_log(actions, line);
        self.choose_java(actions);
    }

    fn command_built(&mut self, built: LaunchCommand, actions: &mut Vec<LaunchAction>)
        requires
            action_views(old(actions)@) == Seq::<LaunchActionView>::empty(),
        ensures
            final(self).job() == old(self).job(),
            (final(self)@, action_views(final(actions)@)) == after_command(
                old(self).job(),
                old(self)@,
                built,
            ),
    {
        let ghost before = self@;
        let ghost job = self.job();
        let ghost args = text::texts(built.args@);
        let mut built = built;
        let added = apply_profile_runtime_jvm_overrides(
            &mut built.args,
            optional_str(&self.main_class),
            self.profile.java_memory_mb,
            optional_str(&self.profile.java_args),
        );
        assert(text::texts(built.args@) == profile_args(job, before, args));
        if added > 0 {
            let count = decimal_text(added as u128);
            let line = concat3("Applied ", count.as_str(), " profile JVM override argument(s)");
            emit_log(actions, line);
        }
        let ghost overridden = text::texts(built.args@);
        assert(forall|i: int|
            0 <= i < overridden.len() ==> #[trigger] overridden[i] == built.args@[i]@);
        let removed = built.deduplicate_classpath();
        assert(text::texts(built.args@) == deduplicated_args(overridden));
        if removed > 0 {
            let count = decimal_text(removed as u128);
            let line = concat3(
                "Deduplicated ",
                count.as_str(),
                " conflicting library entries from classpath",
            );
            emit_log(actions, line);
        }
        assert(action_views(actions@) =~= command_lines(job, before, args));
        emit_status(actions, "Launching Game Engine".to_owned());
        emit_log(actions, "Spawning Java runtime context process...".to_owned());
        let line = concat2("Launch command executable: ", built.executable.as_str());
        emit_log(actions, line);
        emit(actions, LaunchAction::ReleaseInstallation);
        emit(actions, LaunchAction::Spawn(built.executable.clone()));
        self.stage = LaunchStage::Spawning;
        let ghost done = built;
        self.command = Some(built);
        assert(action_views(actions@) =~= command_lines(job, before, args) + seq![
            status("Launching Game Engine"@),
            log("Spawning Java runtime context process..."@),
            log("Launch command executable: "@ + done.executable@),
            LaunchActionView::ReleaseInstallation,
            LaunchActionView::Spawn(done.executable@),
        ]);
    }

    fn spawn_failed(&mut self, not_found: bool, error: &str, actions: &mut Vec<LaunchAction>)
        requires
            action_views(old(actions)@) == Seq::<LaunchActionView>::empty(),
        ensures
            final(self).job() == old(self).job(),
            (final(self)@, action_views(final(actions)@)) == after_spawn_failure(
                old(self).job(),
                old(self)@,
                not_found,
                error@,
            ),
    {
        let ghost before = self@;
        let ghost job = self.job();
        let other = match (&self.launch_java, &self.command) {
            (Some(java), Some(built)) => if !self.retried && not_found && !is_same_path(
                java.as_str(),
                built.executable.as_str(),
            ) {
                Some(java.clone())
            } else {
                None
            },
            _ => None,
        };
        match other {
            Some(java) => {
                self.retried = true;
                let line = concat2(
                    "Launch executable not found; retrying with resolved Java: ",
                    java.as_str(),
                );
                emit_log(actions, line);
                emit(actions, LaunchAction::Spawn(java));
            },
            None => {
                let message = concat3(
                    "Failed to spawn Java execution process: ",
                    error,
                    ". Configure a valid Java binary in Profile Editor > Runtime Settings, or keep Runtime Java policy on Auto to download a managed runtime.",
                );
                self.fail(message, actions);
                assert(action_views(actions@) =~= after_spawn_failure(
                    job,
                    before,
                    not_found,
                    error@,
                ).1);
            },
        }
    }

    fn failed(&mut self, error: &str, actions: &mut Vec<LaunchAction>)
        requires
            action_views(old(actions)@) == Seq::<LaunchActionView>::empty(),
        ensures
            final(self).job() == old(self).job(),
            (final(self)@, action_views(final(actions)@)) == failing(
                old(self).job(),
                old(self)@,
                failure_text(old(self)@.stage, error@),
            ),
    {
        let ghost before = self@;
        let ghost job = self.job();
        let prefix = match self.stage {
            LaunchStage::Refreshing => "Microsoft token refresh failed before launch: ",
            LaunchStage::ResolvingJava => "Java configuration error: ",
            LaunchStage::ResolvingRoot => "Failed resolving runtime minecraft directory: ",
            LaunchStage::InstallingForge => "Installation pipeline aborted: ",
            LaunchStage::Installing => "Installation pipeline aborted: ",
            LaunchStage::Loading => "Failed loading version structural profile: ",
            LaunchStage::FetchingLibraries => "Failed preparing fallback libraries: ",
            LaunchStage::PreparingDirectory => "Failed preparing profile game directory: ",
            LaunchStage::Repairing => "Failed during mod compatibility auto-repair: ",
            LaunchStage::EnsuringJava => "Java runtime auto-install failed: ",
            LaunchStage::Building => "Launch command compilation failed: ",
            LaunchStage::Watching => "Failed waiting for Java process: ",
            _ => "",
        };
        proof {
            reveal_strlit("");
            assert(""@ + error@ =~= error@);
        }
        let message = concat2(prefix, error);
        self.fail(message, actions);
        assert(action_views(actions@) =~= failing(
            job,
            before,
            failure_text(before.stage, error@),
        ).1);
    }

    fn client_id_read(&mut self, id: Option<String>, actions: &mut Vec<LaunchAction>)
        requires
            action_views(old(actions)@) == Seq::<LaunchActionView>::empty(),
            old(self)@.stage == LaunchStage::ReadingClientId,
        ensures
            final(self).job() == old(self).job(),
            (final(self)@, action_views(final(actions)@)) == launch_step(
                old(self).job(),
                old(self)@,
                LaunchReply::ClientId(id),
            ),
    {
        let renewal = match (&self.session, id) {
            (Session::Microsoft { username, refresh_token, .. }, Some(id)) => Some(
                (
                    concat3("Refreshing Microsoft access token for ", username.as_str(), "..."),
                    refresh_token.clone(),
                    id,
                ),
            ),
            _ => None,
        };
        match renewal {
            Some((line, refresh_token, client_id)) => {
                self.stage = LaunchStage::Refreshing;
                emit_log(actions, line);
                emit(actions, LaunchAction::RefreshSession { client_id, refresh_token });
            },
            None => {
                emit_log(
                    actions,
                    "[WARN] LUCENT_MS_CLIENT_ID missing; using existing Microsoft token".to_owned(),
                );
                self.prepare(actions);
            },
        }
    }

    /// Takes in how an action went, and says what to do next.
    pub fn step(&mut self, reply: LaunchReply) -> (r: Vec<LaunchAction>)
        ensures
            (final(self)@, action_views(r@)) == launch_step(old(self).job(), old(self)@, reply),
            final(self).job() == old(self).job(),
    {
        let ghost before = self@;
        let ghost job = self.job();
        let mut actions: Vec<LaunchAction> = Vec::new();
        assert(action_views(actions@) =~= seq![]);
        match (self.stage, reply) {
            (LaunchStage::Over, _) => {},
            (LaunchStage::SavingToken, LaunchReply::Failed(error)) => {
                let line = concat2(
                    "[WARN] Failed updating stored refresh token: ",
                    error.as_str(),
                );
                emit_log(&mut actions, line);
                self.prepare(&mut actions);
            },
            (_, LaunchReply::Failed(error)) => {
                self.failed(error.as_str(), &mut actions);
            },
            (LaunchStage::LockingProfile, LaunchReply::Done) => {
                let signed_in = match &self.session {
                    Session::Offline { .. } => false,
                    Session::Microsoft { .. } => true,
                };
                if signed_in {
                    self.stage = LaunchStage::ReadingClientId;
                    emit(&mut actions, LaunchAction::ReadClientId);
                } else {
                    self.prepare(&mut actions);
                    assert(action_views(actions@) =~= prepare(job, before).1);
                }
            },
            (LaunchStage::ReadingClientId, LaunchReply::ClientId(id)) => {
                self.client_id_read(id, &mut actions);
            },
            (LaunchStage::Refreshing, LaunchReply::SignedIn(player)) => {
                self.stage = LaunchStage::SavingToken;
                emit(&mut actions, LaunchAction::SaveToken(player.refresh_token.clone()));
                self.session = Session::Microsoft {
                    username: player.username,
                    uuid: player.uuid,
                    access_token: player.access_token,
                    refresh_token: player.refresh_token,
                };
            },
            (LaunchStage::SavingToken, LaunchReply::Done) => {
                self.prepare(&mut actions);
                assert(action_views(actions@) =~= prepare(job, before).1);
            },
            (LaunchStage::ResolvingJava, LaunchReply::Java(java)) => {
                self.stage = LaunchStage::ResolvingRoot;
                let line = match &java {
                    Some(java) => concat2("Using Java executable: ", java.as_str()),
                    None =>
                        "No explicit Java binary configured; relying on launcher/runtime defaults".to_owned(),
                };
                self.preferred_java = java;
                emit_log(&mut actions, line);
                emit(&mut actions, LaunchAction::ResolveGameRoot);
            },
            (LaunchStage::ResolvingRoot, LaunchReply::Done) => {
                self.stage = LaunchStage::LockingInstallation;
                let version = self.profile.loader_version_label();
                let mut line = concat4(
                    "Checking manifests and installing profile: MC=",
                    self.profile.version_id.as_str(),
                    ", Loader=",
                    self.profile.loader_label(),
                );
                line.append(", LoaderVersion=");
                line.append(version.as_str());
                emit_log(&mut actions, line);
                emit(&mut actions, LaunchAction::LockInstallation);
            },
            (LaunchStage::LockingInstallation, LaunchReply::Done) => {
                self.install(&mut actions);
            },
            (LaunchStage::ResolvingForge, LaunchReply::Version(version)) => {
                let line = concat4(
                    "Resolved Forge version for ",
                    self.profile.version_id.as_str(),
                    " -> ",
                    version.as_str(),
                );
                emit_log(&mut actions, line);
                self.start_forge(version, &mut actions);
            },
            (LaunchStage::InstallingForge, LaunchReply::Version(version)) => {
                self.installed(version, &mut actions);
            },
            (LaunchStage::Installing, LaunchReply::Version(version)) => {
                self.installed(version, &mut actions);
            },
            (LaunchStage::Loading, LaunchReply::Loaded { main_class }) => {
                self.stage = LaunchStage::FetchingLibraries;
                self.main_class = main_class;
                emit(&mut actions, LaunchAction::FetchLibraries);
            },
            (LaunchStage::FetchingLibraries, LaunchReply::Done) => {
                self.stage = LaunchStage::PreparingDirectory;
                emit(&mut actions, LaunchAction::PrepareGameDirectory);
            },
            (LaunchStage::PreparingDirectory, LaunchReply::Directory(directory)) => {
                self.stage = LaunchStage::Repairing;
                self.game_directory = directory;
                emit_status(&mut actions, "Repairing mods".to_owned());
                emit(&mut actions, LaunchAction::RepairMods);
            },
            (LaunchStage::Repairing, LaunchReply::Repaired(summary)) => {
                self.repaired(&summary, &mut actions);
            },
            (LaunchStage::Counting, LaunchReply::Counted { mods, shaders }) => {
                self.counted(mods, shaders, &mut actions);
            },
            (LaunchStage::EnsuringJava, LaunchReply::Java(java)) => {
                if java.is_some() {
                    self.launch_java = java;
                    self.build(&mut actions);
                } else {
                    emit_log(
                        &mut actions,
                        "No version-specific managed Java runtime metadata found; falling back to system discovery".to_owned(),
                    );
                    self.discover(&mut actions);
                }
            },
            (LaunchStage::DiscoveringJava, LaunchReply::Java(java)) => {
                self.launch_java = java;
                self.build(&mut actions);
            },
            (LaunchStage::Building, LaunchReply::Command(built)) => {
                self.command_built(built, &mut actions);
            },
            (LaunchStage::Spawning, LaunchReply::Done) => {
                self.stage = LaunchStage::Watching;
                emit_status(&mut actions, "Waiting for Minecraft to initialize…".to_owned());
                emit(&mut actions, LaunchAction::Watch);
            },
            (LaunchStage::Spawning, LaunchReply::SpawnFailed { not_found, error }) => {
                self.spawn_failed(not_found, error.as_str(), &mut actions);
            },
            (LaunchStage::Watching, LaunchReply::Exited { success, status }) => if success {
                self.stage = LaunchStage::Over;
                emit(
                    &mut actions,
                    LaunchAction::Send(AppEvent::launch_finished(self.profile.id.clone())),
                );
            } else {
                let message = concat2("Java process exited with status: ", status.as_str());
                self.fail(message, &mut actions);
            },
            _ => {},
        }
        assert(action_views(actions@) =~= launch_step(job, before, reply).1);
        actions
    }
}

/// A profile is locked before anything else is done for it, and where the lock is
/// taken nothing is: the launch ends, and the player is told why.
pub proof fn law_busy_profile_is_not_launched(
    job: LaunchJob,
    session: SessionView,
    v: LaunchView,
    error: String,
)
    requires
        v.stage == LaunchStage::LockingProfile,
    ensures
        launch_start(job, session).1 == seq![
            LaunchActionView::LockProfile(busy_text(job.profile.name@)),
        ],
        launch_start(job, session).0.stage == LaunchStage::LockingProfile,
        launch_step(job, v, LaunchReply::Failed(error)) == failing(job, v, error@),
{
}

/// Where a stage stands in the course of a launch.
pub open spec fn stage_rank(stage: LaunchStage) -> int {
    match stage {
        LaunchStage::LockingProfile => 0,
        LaunchStage::ReadingClientId => 1,
        LaunchStage::Refreshing => 2,
        LaunchStage::SavingToken => 3,
        LaunchStage::ResolvingJava => 4,
        LaunchStage::ResolvingRoot => 5,
        LaunchStage::LockingInstallation => 6,
        LaunchStage::ResolvingForge => 7,
        LaunchStage::InstallingForge => 8,
        LaunchStage::Installing => 9,
        LaunchStage::Loading => 10,
        LaunchStage::FetchingLibraries => 11,
        LaunchStage::PreparingDirectory => 12,
        LaunchStage::Repairing => 13,
        LaunchStage::Counting => 14,
        LaunchStage::EnsuringJava => 15,
        LaunchStage::DiscoveringJava => 16,
        LaunchStage::Building => 17,
        LaunchStage::Spawning => 18,
        LaunchStage::Watching => 19,
        LaunchStage::Over => 20,
    }
}

/// Whether an action needs the lock of what all profiles share.
pub open spec fn prepares(action: LaunchActionView) -> bool {
    action is ResolveForge || action is InstallForge || action is Install || action is LoadVersion
        || action is FetchLibraries || action is EnsureJava || action is BuildCommand
}

/// A launch only moves forward, so that nothing is prepared twice; and what all
/// profiles share is prepared after it was locked and before it is unlocked.
#[verifier::rlimit(50)]
#[verifier::spinoff_prover]
pub proof fn law_launch_moves_forward(job: LaunchJob, v: LaunchView, reply: LaunchReply, i: int)
    ensures
        stage_rank(launch_step(job, v, reply).0.stage) >= stage_rank(v.stage),
        0 <= i < launch_step(job, v, reply).1.len() && prepares(launch_step(job, v, reply).1[i])
            ==> stage_rank(v.stage) >= stage_rank(LaunchStage::LockingInstallation) && stage_rank(
            launch_step(job, v, reply).0.stage,
        ) > stage_rank(v.stage) && stage_rank(v.stage) < stage_rank(LaunchStage::Building) && (
        v.stage == LaunchStage::LockingInstallation ==> reply is Done),
        0 <= i < launch_step(job, v, reply).1.len() && launch_step(
            job,
            v,
            reply,
        ).1[i] is ReleaseInstallation ==> v.stage == LaunchStage::Building,
{
}

/// Whether an event ends a launch.
pub open spec fn ends_launch(action: LaunchActionView) -> bool {
    match action {
        LaunchActionView::Send(EventView::Finished { .. }) => true,
        LaunchActionView::Send(EventView::Failed { .. }) => true,
        _ => false,
    }
}

/// The player is told once how a launch ended: a step that ends it says so in its
/// last action, no other action says so, and nothing follows the end.
pub proof fn law_launch_ends_once(job: LaunchJob, v: LaunchView, reply: LaunchReply)
    ensures
        v.stage == LaunchStage::Over ==> launch_step(job, v, reply) == (
            v,
            Seq::<LaunchActionView>::empty(),
        ),
        ({
            let (next, actions) = launch_step(job, v, reply);
            &&& v.stage != LaunchStage::Over && next.stage == LaunchStage::Over ==> actions.len()
                > 0 && ends_launch(actions.last())
            &&& forall|i: int|
                0 <= i < actions.len() && ends_launch(#[trigger] actions[i]) ==> next.stage
                    == LaunchStage::Over && i == actions.len() - 1
        }),
{
}

/// What all profiles share is unlocked before the game starts: a start follows the
/// unlocking immediately, or it is another attempt after a start that failed.
pub proof fn law_installation_is_released_before_the_game(
    job: LaunchJob,
    v: LaunchView,
    reply: LaunchReply,
    i: int,
)
    requires
        0 <= i < launch_step(job, v, reply).1.len(),
        launch_step(job, v, reply).1[i] is Spawn,
    ensures
        v.stage == LaunchStage::Spawning || (v.stage == LaunchStage::Building && i > 0
            && launch_step(job, v, reply).1[i - 1] is ReleaseInstallation),
        v.stage == LaunchStage::Spawning ==> !v.retried && launch_step(job, v, reply).0.retried,
{
}

/// Whether a launch is on the way that its loader prescribes.
pub open spec fn follows_loader(job: LaunchJob, v: LaunchView) -> bool {
    &&& v.stage == LaunchStage::ResolvingForge || v.stage == LaunchStage::InstallingForge
        ==> job.profile.loader == ProfileLoader::Forge
    &&& v.stage == LaunchStage::Installing ==> job.profile.loader != ProfileLoader::Forge
}

/// No launch leaves the way that its loader prescribes.
pub proof fn law_launch_follows_its_loader(
    job: LaunchJob,
    v: LaunchView,
    session: SessionView,
    reply: LaunchReply,
)
    requires
        follows_loader(job, v),
    ensures
        follows_loader(job, launch_step(job, v, reply).0),
        follows_loader(job, launch_start(job, session).0),
{
}

/// Forge is installed by its own installer, and every other loader by the game's.
/// An installation begins only under the lock of what all profiles share.
pub proof fn law_forge_has_its_own_installer(
    job: LaunchJob,
    v: LaunchView,
    reply: LaunchReply,
    i: int,
)
    requires
        follows_loader(job, v),
        0 <= i < launch_step(job, v, reply).1.len(),
    ensures
        launch_step(job, v, reply).1[i] is Install ==> job.profile.loader != ProfileLoader::Forge
            && v.stage == LaunchStage::LockingInstallation,
        launch_step(job, v, reply).1[i] is InstallForge ==> job.profile.loader
            == ProfileLoader::Forge && (v.stage == LaunchStage::LockingInstallation || v.stage
            == LaunchStage::ResolvingForge),
{
}

/// A launch with mods that had to be switched off is refused, and the failure
/// names them.
pub proof fn law_disabled_mods_stop_the_launch(
    job: LaunchJob,
    v: LaunchView,
    summary: ModRepairSummary,
)
    requires
        v.stage == LaunchStage::Repairing,
        summary.disabled_mods@.len() > 0,
    ensures
        ({
            let (next, actions) = launch_step(job, v, LaunchReply::Repaired(summary));
            &&& next.stage == LaunchStage::Over
            &&& actions.last() == failure(
                job,
                disabled_mods_text(job, text::texts(summary.disabled_mods@)),
            )
        }),
{
}

/// The profile's loader is installed with the game: whenever the game is installed,
/// it is the game version of the profile, with the profile's own loader in the
/// version that the profile names, and with none exactly where the profile has none.
pub proof fn law_profile_loader_is_installed(
    job: LaunchJob,
    v: LaunchView,
    reply: LaunchReply,
    i: int,
)
    requires
        0 <= i < launch_step(job, v, reply).1.len(),
    ensures
        launch_step(job, v, reply).1[i] matches LaunchActionView::Install {
            minecraft_version,
            loader,
            java,
        } ==> {
            &&& minecraft_version == job.profile.version_id@
            &&& java == job.java_policy
            &&& loader is None <==> job.profile.loader == ProfileLoader::Vanilla
            &&& loader matches Some(spec) ==> spec.loader == job.profile.loader && match (
                spec.version,
                job.profile.loader_version,
            ) {
                (LoaderVersionView::LatestStable, ProfileLoaderVersion::LatestStable) => true,
                (LoaderVersionView::Latest, ProfileLoaderVersion::Latest) => true,
                (LoaderVersionView::Exact(a), ProfileLoaderVersion::Exact(b)) => a == b@,
                _ => false,
            }
        },
        launch_step(job, v, reply).1[i] matches LaunchActionView::InstallForge {
            minecraft_version,
            forge_version,
            java,
            auto_download,
        } ==> {
            &&& minecraft_version == job.profile.version_id@
            &&& v.stage == LaunchStage::LockingInstallation ==> (
            job.profile.loader_version matches ProfileLoaderVersion::Exact(version)
                && forge_version == version@)
            &&& v.stage == LaunchStage::ResolvingForge ==> (reply matches LaunchReply::Version(
                version,
            ) && forge_version == version@)
            &&& v.preferred_java matches Some(preferred) ==> java == preferred
            &&& v.preferred_java is None ==> java == job.java_path
            &&& auto_download == job.profile.java_auto_download
        },
        launch_step(job, v, reply).1[i] matches LaunchActionView::ResolveForge(version) ==> version
            == job.profile.version_id@,
{
}

/// Whether an action is the request whose reply a stage waits for.
pub open spec fn is_request_of(stage: LaunchStage, action: LaunchActionView) -> bool {
    match stage {
        LaunchStage::LockingProfile => action is LockProfile,
        LaunchStage::ReadingClientId => action is ReadClientId,
        LaunchStage::Refreshing => action is RefreshSession,
        LaunchStage::SavingToken => action is SaveToken,
        LaunchStage::ResolvingJava => action is ResolveJava,
        LaunchStage::ResolvingRoot => action is ResolveGameRoot,
        LaunchStage::LockingInstallation => action is LockInstallation,
        LaunchStage::ResolvingForge => action is ResolveForge,
        LaunchStage::InstallingForge => action is InstallForge,
        LaunchStage::Installing => action is Install,
        LaunchStage::Loading => action is LoadVersion,
        LaunchStage::FetchingLibraries => action is FetchLibraries,
        LaunchStage::PreparingDirectory => action is PrepareGameDirectory,
        LaunchStage::Repairing => action is RepairMods,
        LaunchStage::Counting => action is CountContent,
        LaunchStage::EnsuringJava => action is EnsureJava,
        LaunchStage::DiscoveringJava => action is DiscoverJava,
        LaunchStage::Building => action is BuildCommand,
        LaunchStage::Spawning => action is Spawn,
        LaunchStage::Watching => action is Watch,
        LaunchStage::Over => false,
    }
}

/// Whether an action asks for something, and does not only tell or unlock.
pub open spec fn is_request(action: LaunchActionView) -> bool {
    !(action is Send) && !(action is ReleaseInstallation)
}

/// A launch asks for one thing at a time: a step that goes on ends with the request
/// of the stage that it leads to, and makes no other request; a step that does not go
/// on asks for nothing, but for one other attempt to start the game.
pub proof fn law_every_stage_waits_for_its_request(
    job: LaunchJob,
    v: LaunchView,
    reply: LaunchReply,
    session: SessionView,
)
    ensures
        ({
            let (next, actions) = launch_step(job, v, reply);
            &&& next.stage != v.stage && next.stage != LaunchStage::Over ==> actions.len() > 0
                && is_request_of(next.stage, actions.last())
            &&& next.stage == v.stage && actions.len() > 0 ==> v.stage == LaunchStage::Spawning
                && actions.last() is Spawn
            &&& forall|i: int|
                0 <= i < actions.len() && is_request(#[trigger] actions[i]) ==> i == actions.len()
                    - 1 && next.stage != LaunchStage::Over
        }),
        launch_start(job, session).0.session == session,
        launch_start(job, session).1.len() == 1,
        is_request_of(launch_start(job, session).0.stage, launch_start(job, session).1[0]),
{
}

/// Whether a stage may follow another one immediately in a launch that goes well.
pub open spec fn comes_next(earlier: LaunchStage, later: LaunchStage) -> bool {
    match later {
        LaunchStage::LockingProfile => false,
        LaunchStage::ReadingClientId => earlier == LaunchStage::LockingProfile,
        LaunchStage::Refreshing => earlier == LaunchStage::ReadingClientId,
        LaunchStage::SavingToken => earlier == LaunchStage::Refreshing,
        LaunchStage::ResolvingJava => earlier == LaunchStage::LockingProfile || earlier
            == LaunchStage::ReadingClientId || earlier == LaunchStage::SavingToken,
        LaunchStage::ResolvingRoot => earlier == LaunchStage::ResolvingJava,
        LaunchStage::LockingInstallation => earlier == LaunchStage::ResolvingRoot,
        LaunchStage::ResolvingForge => earlier == LaunchStage::LockingInstallation,
        LaunchStage::InstallingForge => earlier == LaunchStage::LockingInstallation || earlier
            == LaunchStage::ResolvingForge,
        LaunchStage::Installing => earlier == LaunchStage::LockingInstallation,
        LaunchStage::Loading => earlier == LaunchStage::Installing || earlier
            == LaunchStage::InstallingForge,
        LaunchStage::FetchingLibraries => earlier == LaunchStage::Loading,
        LaunchStage::PreparingDirectory => earlier == LaunchStage::FetchingLibraries,
        LaunchStage::Repairing => earlier == LaunchStage::PreparingDirectory,
        LaunchStage::Counting => earlier == LaunchStage::Repairing,
        LaunchStage::EnsuringJava => earlier == LaunchStage::Counting,
        LaunchStage::DiscoveringJava => earlier == LaunchStage::Counting || earlier
            == LaunchStage::EnsuringJava,
        LaunchStage::Building => earlier == LaunchStage::Counting || earlier
            == LaunchStage::EnsuringJava || earlier == LaunchStage::DiscoveringJava,
        LaunchStage::Spawning => earlier == LaunchStage::Building,
        LaunchStage::Watching => earlier == LaunchStage::Spawning,
        LaunchStage::Over => true,
    }
}

/// Whether a reply is the good news that a stage waits for.
pub open spec fn is_good_reply(stage: LaunchStage, reply: LaunchReply) -> bool {
    match stage {
        LaunchStage::LockingProfile => reply is Done,
        LaunchStage::ReadingClientId => reply is ClientId,
        LaunchStage::Refreshing => reply is SignedIn,
        LaunchStage::SavingToken => reply is Done,
        LaunchStage::ResolvingJava => reply is Java,
        LaunchStage::ResolvingRoot => reply is Done,
        LaunchStage::LockingInstallation => reply is Done,
        LaunchStage::ResolvingForge => reply is Version,
        LaunchStage::InstallingForge => reply is Version,
        LaunchStage::Installing => reply is Version,
        LaunchStage::Loading => reply is Loaded,
        LaunchStage::FetchingLibraries => reply is Done,
        LaunchStage::PreparingDirectory => reply is Directory,
        LaunchStage::Repairing => reply matches LaunchReply::Repaired(summary)
            && summary.disabled_mods@.len() == 0,
        LaunchStage::Counting => reply is Counted,
        LaunchStage::EnsuringJava => reply is Java,
        LaunchStage::DiscoveringJava => reply is Java,
        LaunchStage::Building => reply is Command,
        LaunchStage::Spawning => reply is Done,
        LaunchStage::Watching => false,
        LaunchStage::Over => false,
    }
}

/// No stage of a launch is left out, and none is a dead end: a step leads to a stage
/// that may come next; good news always leads on, and only a failure, mods that had
/// to be switched off or the end of the game end the launch.
pub proof fn law_no_stage_is_left_out(job: LaunchJob, v: LaunchView, reply: LaunchReply)
    ensures
        ({
            let next = launch_step(job, v, reply).0.stage;
            &&& next != v.stage ==> comes_next(v.stage, next)
            &&& is_good_reply(v.stage, reply) ==> next != v.stage && next != LaunchStage::Over
            &&& next == LaunchStage::Over && v.stage != LaunchStage::Over ==> reply is Failed
                || reply is SpawnFailed || reply is Exited || (
            reply matches LaunchReply::Repaired(summary) && summary.disabled_mods@.len() > 0)
        }),
{
}

/// A signed-in player's session is renewed before the launch, where the launcher is
/// registered: with the player's own token. A player without an account is not asked.
pub proof fn law_session_is_renewed(job: LaunchJob, v: LaunchView, reply: LaunchReply)
    ensures
        v.stage == LaunchStage::LockingProfile && reply is Done ==> (v.session is Microsoft
            <==> launch_step(job, v, reply).0.stage == LaunchStage::ReadingClientId),
        v.stage == LaunchStage::ReadingClientId ==> (reply matches LaunchReply::ClientId(Some(id))
            ==> (v.session matches SessionView::Microsoft { refresh_token, .. } ==> launch_step(
            job,
            v,
            reply,
        ).1.last() == (LaunchActionView::RefreshSession { client_id: id@, refresh_token }))),
        v.stage == LaunchStage::Refreshing ==> (reply matches LaunchReply::SignedIn(player) ==> {
            &&& launch_step(job, v, reply).1 == seq![
                LaunchActionView::SaveToken(player.refresh_token@),
            ]
            &&& launch_step(job, v, reply).0.session == (SessionView::Microsoft {
                username: player.username@,
                uuid: player.uuid@,
                access_token: player.access_token@,
                refresh_token: player.refresh_token@,
            })
        }),
        v.stage == LaunchStage::SavingToken && reply is Failed ==> launch_step(
            job,
            v,
            reply,
        ).0.stage == LaunchStage::ResolvingJava,
{
}

/// What a launch has learned stays: each thing changes only where the reply that
/// tells it comes, and to what that reply tells.
pub proof fn law_launch_remembers_what_it_was_told(
    job: LaunchJob,
    v: LaunchView,
    reply: LaunchReply,
)
    ensures
        ({
            let next = launch_step(job, v, reply).0;
            &&& next.session != v.session ==> v.stage == LaunchStage::Refreshing && reply is SignedIn
            &&& next.preferred_java != v.preferred_java ==> v.stage == LaunchStage::ResolvingJava
            &&& v.stage == LaunchStage::ResolvingJava ==> (reply matches LaunchReply::Java(java)
                ==> next.preferred_java == match java {
                Some(java) => Some(java@),
                None => None,
            })
            &&& next.installed_version != v.installed_version ==> next.stage == LaunchStage::Loading
            &&& v.stage == LaunchStage::Installing || v.stage == LaunchStage::InstallingForge ==> (
            reply matches LaunchReply::Version(version) ==> next.installed_version == version@
                && launch_step(job, v, reply).1.last() == LaunchActionView::LoadVersion(version@))
            &&& next.main_class != v.main_class ==> v.stage == LaunchStage::Loading
            &&& v.stage == LaunchStage::Loading ==> (reply matches LaunchReply::Loaded {
                main_class,
            } ==> next.main_class == match main_class {
                Some(main) => Some(main@),
                None => None,
            })
            &&& next.game_directory != v.game_directory ==> v.stage
                == LaunchStage::PreparingDirectory
            &&& v.stage == LaunchStage::PreparingDirectory ==> (
            reply matches LaunchReply::Directory(directory) ==> next.game_directory == directory@)
            &&& next.launch_java != v.launch_java ==> v.stage == LaunchStage::Counting || v.stage
                == LaunchStage::EnsuringJava || v.stage == LaunchStage::DiscoveringJava
            &&& next.command != v.command ==> v.stage == LaunchStage::Building
            &&& next.retried != v.retried ==> v.stage == LaunchStage::Spawning && next.retried
        }),
{
}

/// Which Java starts the game: the one that the player configured, else the runtime
/// that the installed version asks for where one may be downloaded, else one of the
/// system.
pub proof fn law_java_is_chosen_in_order(
    job: LaunchJob,
    v: LaunchView,
    mods: usize,
    shaders: usize,
    java: Option<String>,
)
    ensures
        v.stage == LaunchStage::Counting ==> {
            let (next, actions) = launch_step(job, v, LaunchReply::Counted { mods, shaders });
            &&& v.preferred_java is Some ==> next.stage == LaunchStage::Building
                && next.launch_java == v.preferred_java
            &&& v.preferred_java is None && job.profile.java_auto_download ==> actions.last()
                == LaunchActionView::EnsureJava(v.installed_version)
            &&& v.preferred_java is None && !job.profile.java_auto_download ==> actions.last()
                == LaunchActionView::DiscoverJava
        },
        v.stage == LaunchStage::EnsuringJava ==> {
            let (next, actions) = launch_step(job, v, LaunchReply::Java(java));
            &&& java is Some ==> next.stage == LaunchStage::Building && next.launch_java == Some(
                java->0@,
            )
            &&& java is None ==> actions.last() == LaunchActionView::DiscoverJava
        },
        v.stage == LaunchStage::DiscoveringJava ==> {
            let (next, actions) = launch_step(job, v, LaunchReply::Java(java));
            &&& next.stage == LaunchStage::Building
            &&& next.launch_java == match java {
                Some(java) => Some(java@),
                None => None,
            }
        },
{
}

/// The command is built for the player, for the profile's game directory and for the
/// Java that was chosen.
pub proof fn law_command_is_built_for_the_player(
    job: LaunchJob,
    v: LaunchView,
    reply: LaunchReply,
    i: int,
)
    requires
        0 <= i < launch_step(job, v, reply).1.len(),
    ensures
        launch_step(job, v, reply).1[i] matches LaunchActionView::BuildCommand {
            session,
            game_directory,
            java,
        } ==> session == v.session && game_directory == v.game_directory && java == launch_step(
            job,
            v,
            reply,
        ).0.launch_java,
{
}

/// The content of the profile is counted where the game looks for it.
pub proof fn law_content_is_counted_in_the_game_directory(
    job: LaunchJob,
    v: LaunchView,
    summary: ModRepairSummary,
)
    requires
        v.stage == LaunchStage::Repairing,
        summary.disabled_mods@.len() == 0,
        v.game_directory.len() > 0,
        v.game_directory.last() != '/',
    ensures
        launch_step(job, v, LaunchReply::Repaired(summary)).1.last()
            == (LaunchActionView::CountContent {
            mods: v.game_directory + "/mods"@,
            shaders: v.game_directory + "/shaderpacks"@,
        }),
{
    reveal_strlit("mods");
    reveal_strlit("shaderpacks");
    reveal_strlit("/mods");
    reveal_strlit("/shaderpacks");
    assert(path::joined(v.game_directory, "mods"@) =~= v.game_directory + "/mods"@);
    assert(path::joined(v.game_directory, "shaderpacks"@) =~= v.game_directory + "/shaderpacks"@);
}

/// A failure is not passed over: it ends the launch, the player is told of the
/// profile and of the reason, and nothing else is asked for. Only a token that cannot
/// be stored does not stop a launch.
pub proof fn law_failure_ends_the_launch(job: LaunchJob, v: LaunchView, error: String)
    requires
        v.stage != LaunchStage::Over,
        v.stage != LaunchStage::SavingToken,
    ensures
        ({
            let (next, actions) = launch_step(job, v, LaunchReply::Failed(error));
            &&& next.stage == LaunchStage::Over
            &&& actions.len() == 1
            &&& actions[0] matches LaunchActionView::Send(EventView::Failed {
                profile_id,
                error: told,
            }) && profile_id == job.profile.id@ && told.len() >= error@.len() && told.skip(
                told.len() - error@.len(),
            ) == error@
        }),
{
    let (next, actions) = launch_step(job, v, LaunchReply::Failed(error));
    let told = failure_text(v.stage, error@);
    assert(actions[0] == failure(job, told));
    assert(told.skip(told.len() - error@.len()) =~= error@);
}

/// How a game ends is told: a game that ends well is reported as finished, any other
/// as failed with its status, for the profile that was launched.
pub proof fn law_end_of_the_game_is_told(
    job: LaunchJob,
    v: LaunchView,
    success: bool,
    status: String,
)
    requires
        v.stage == LaunchStage::Watching,
    ensures
        ({
            let (next, actions) = launch_step(job, v, LaunchReply::Exited { success, status });
            &&& next.stage == LaunchStage::Over
            &&& actions.len() == 1
            &&& success ==> actions[0] == LaunchActionView::Send(
                EventView::Finished { profile_id: job.profile.id@ },
            )
            &&& !success ==> actions[0] == LaunchActionView::Send(
                EventView::Failed {
                    profile_id: job.profile.id@,
                    error: "Java process exited with status: "@ + status@,
                },
            )
        }),
{
}

/// Whether an argument is the first that announces a classpath, and one follows it.
pub open spec fn announces_classpath(args: Seq<Seq<char>>, flag: int) -> bool {
    &&& 0 <= flag && flag + 1 < args.len()
    &&& args[flag] == "-cp"@ || args[flag] == "-classpath"@
    &&& forall|j: int|
        0 <= j < flag ==> #[trigger] args[j] != "-cp"@ && args[j] != "-classpath"@
}

/// What is started: the executable of the command that was built, with its arguments
/// under the settings of the profile and with every artifact on the classpath once,
/// in the command's working directory.
pub proof fn law_built_command_is_started(
    job: LaunchJob,
    v: LaunchView,
    built: LaunchCommand,
    flag: int,
)
    requires
        v.stage == LaunchStage::Building,
    ensures
        ({
            let (next, actions) = launch_step(job, v, LaunchReply::Command(built));
            let settled = runtime::overridden(
                text::texts(built.args@),
                v.main_class,
                job.profile.java_memory_mb,
                text::opt_text(job.profile.java_args),
            );
            &&& actions.last() == LaunchActionView::Spawn(built.executable@)
            &&& next.command is Some
            &&& next.command->0.executable == built.executable@
            &&& next.command->0.working_dir == built.working_dir@
            &&& announces_classpath(settled, flag) ==> next.command->0.args == settled.update(
                flag + 1,
                classpath::deduplicated(settled[flag + 1]),
            )
            &&& !settled.contains("-cp"@) && !settled.contains("-classpath"@)
                ==> next.command->0.args == settled
        }),
{
    let settled = profile_args(job, v, text::texts(built.args@));
    command::law_classpath_follows_its_flag(settled);
    let found = command::classpath_flag_from(settled, 0);
    if found is Some {
        assert(settled.contains(settled[found->0]));
    }
    if announces_classpath(settled, flag) {
        assert(found is Some) by {
            if found is None {
                assert(settled[flag] != "-cp"@ && settled[flag] != "-classpath"@);
            }
        }
        let at = found->0;
        if at < flag {
            assert(settled[at] != "-cp"@ && settled[at] != "-classpath"@);
        }
        if flag < at {
            assert(settled[flag] != "-cp"@ && settled[flag] != "-classpath"@);
        }
    }
}

/// A game that could not be started is tried once more exactly where the executable
/// does not exist, another Java is known and it was not tried before.
pub proof fn law_other_java_is_tried_once(
    job: LaunchJob,
    v: LaunchView,
    not_found: bool,
    error: String,
)
    requires
        v.stage == LaunchStage::Spawning,
        v.command is Some,
    ensures
        ({
            let (next, actions) = launch_step(
                job,
                v,
                LaunchReply::SpawnFailed { not_found, error },
            );
            let again = not_found && !v.retried && v.launch_java is Some && !path::same_path(
                v.launch_java->0,
                v.command->0.executable,
            );
            &&& again ==> actions.last() == LaunchActionView::Spawn(v.launch_java->0)
                && next.stage == LaunchStage::Spawning && next.retried
            &&& !again ==> next.stage == LaunchStage::Over && actions.len() == 1 && (
            actions[0] matches LaunchActionView::Send(EventView::Failed { profile_id, .. })
                && profile_id == job.profile.id@)
        }),
{
}

/// Which lines tell that the game has started up: those that hold one of three
/// marks, in any case; and every line of output is logged, with its prefix.
pub proof fn law_start_is_told_by_its_marks(
    line: Seq<char>,
    ready: bool,
    prefix: Option<Seq<char>>,
    profile_id: Seq<char>,
)
    ensures
        is_ready_line(line) <==> exists|at: int, mark: Seq<char>|
            #![trigger text::occurs_at(text::ascii_lower(line), mark, at)]
            text::occurs_at(text::ascii_lower(line), mark, at) && (mark == "backend library:"@
                || mark == "opengl version"@ || mark == "sound engine started"@),
        line_events(ready, line, prefix, profile_id).last() == EventView::Log(
            match prefix {
                Some(prefix) => prefix + line,
                None => line,
            },
        ),
        line_events(ready, line, prefix, profile_id).contains(EventView::Ready { profile_id }) <==> (
        is_ready_line(line) && !ready),
        line_events(ready, line, prefix, profile_id).len() <= 2,
{
    let lower = text::ascii_lower(line);
    let events = line_events(ready, line, prefix, profile_id);
    if is_ready_line(line) {
        if text::contains_text(lower, "backend library:"@) {
            let at = choose|at: int| text::occurs_at(lower, "backend library:"@, at);
            assert(text::occurs_at(lower, "backend library:"@, at));
        } else if text::contains_text(lower, "opengl version"@) {
            let at = choose|at: int| text::occurs_at(lower, "opengl version"@, at);
            assert(text::occurs_at(lower, "opengl version"@, at));
        } else {
            let at = choose|at: int| text::occurs_at(lower, "sound engine started"@, at);
            assert(text::occurs_at(lower, "sound engine started"@, at));
        }
        if !ready {
            assert(events[0] == EventView::Ready { profile_id });
        }
    }
    if events.contains(EventView::Ready { profile_id }) {
        let i = choose|i: int|
            0 <= i < events.len() && events[i] == EventView::Ready { profile_id };
        assert(events[i] is Ready);
    }
}

/// A busy profile is named to the player, and what a repair did is told in numbers.
pub proof fn law_player_is_told_what_happened(
    name: Seq<char>,
    job: LaunchJob,
    mods: Seq<Seq<char>>,
    i: int,
)
    requires
        0 <= i < mods.len(),
    ensures
        text::contains_text(busy_text(name), name),
        text::contains_text(disabled_mods_text(job, mods), job.profile.name@),
        text::contains_text(disabled_mods_text(job, mods), mods[i]),
{
    let head = "Profile '"@;
    let busy = busy_text(name);
    assert(busy.subrange(head.len() as int, (head.len() + name.len()) as int) =~= name);
    assert(text::occurs_at(busy, name, head.len() as int));
    let told = disabled_mods_text(job, mods);
    let start = "Mod repair disabled incompatible mods with no compatible replacements for profile '"@;
    let profile = job.profile.name@;
    assert(told.subrange(start.len() as int, (start.len() + profile.len()) as int) =~= profile);
    assert(text::occurs_at(told, profile, start.len() as int));
    let listed = text::join(mods, ", "@);
    text::lemma_join_holds_its_pieces(mods, ", "@, i);
    let at = choose|at: int| text::occurs_at(listed, mods[i], at);
    let before = start + profile + "': "@;
    assert(told =~= before + listed);
    assert(told.subrange(before.len() + at, before.len() + at + mods[i].len())
        =~= listed.subrange(at, at + mods[i].len()));
    assert(text::occurs_at(told, mods[i], before.len() + at));
}

/// What a log line, a status and the progress of a step tell: the line, the status,
/// and the step of the profile without totals.
pub proof fn law_messages_tell_their_text(line: Seq<char>, profile_id: Seq<char>)
    ensures
        log(line) == LaunchActionView::Send(EventView::Log(line)),
        status(line) == LaunchActionView::Send(EventView::StatusUpdate(line)),
        stage_progress(profile_id, line) == LaunchActionView::Send(
            EventView::Progress(
                ProgressView {
                    profile_id,
                    stage: line,
                    completed_tasks: 0,
                    total_tasks: None,
                    current_task: None,
                    bytes_received: 0,
                    total_bytes: None,
                },
            ),
        ),
        java_policy(true) == JavaInstallPolicy::Auto,
        java_policy(false) == JavaInstallPolicy::Never,
        busy_text(line) == "Profile '"@ + line
            + "' is already running in another launcher instance."@,
{
}

/// Which installer the loader of a profile needs: Forge its own, in the version that
/// the profile names or in the latest one, which is looked up; every other loader that
/// of the game.
pub proof fn law_loader_decides_the_installer(job: LaunchJob, v: LaunchView)
    requires
        v.stage == LaunchStage::LockingInstallation,
    ensures
        ({
            let (next, actions) = launch_step(job, v, LaunchReply::Done);
            let forge = job.profile.loader == ProfileLoader::Forge;
            let exact = job.profile.loader_version is Exact;
            &&& !forge <==> next.stage == LaunchStage::Installing && actions.last() is Install
            &&& forge && exact <==> next.stage == LaunchStage::InstallingForge
                && actions.last() is InstallForge
            &&& forge && !exact <==> next.stage == LaunchStage::ResolvingForge
                && actions.last() is ResolveForge
        }),
{
}

/// What is told while a launch is prepared: who plays what, the token that is renewed
/// or cannot be, the Java that is used, and what is checked.
pub proof fn law_preparation_is_told(job: LaunchJob, v: LaunchView, reply: LaunchReply)
    ensures
        ({
            let (next, actions) = launch_step(job, v, reply);
            let n = actions.len() as int;
            &&& v.stage != LaunchStage::ResolvingJava && next.stage == LaunchStage::ResolvingJava
                ==> n >= 3 && actions[n - 3] == status(
                "Preparing "@ + job.profile.name@ + " ("@ + job.profile.version_id@ + ")"@,
            ) && actions[n - 2] == log(
                "Initializing launch pipeline for user: "@ + session::player_name(v.session)
                    + " (profile: "@ + job.profile.name@ + ")"@,
            )
            &&& v.stage == LaunchStage::SavingToken ==> (reply matches LaunchReply::Failed(error)
                ==> n == 4 && actions[0] == log(
                "[WARN] Failed updating stored refresh token: "@ + error@,
            ))
            &&& v.stage == LaunchStage::ReadingClientId && reply == LaunchReply::ClientId(None)
                ==> n == 4 && actions[0] == log(
                "[WARN] LUCENT_MS_CLIENT_ID missing; using existing Microsoft token"@,
            )
            &&& next.stage == LaunchStage::Refreshing && v.stage != next.stage ==> n == 2
                && actions[0] == log(
                "Refreshing Microsoft access token for "@ + session::player_name(v.session)
                    + "..."@,
            )
            &&& v.stage == LaunchStage::ResolvingJava ==> (reply matches LaunchReply::Java(java)
                ==> n == 2 && actions[0] == log(
                match java {
                    Some(java) => "Using Java executable: "@ + java@,
                    None =>
                        "No explicit Java binary configured; relying on launcher/runtime defaults"@,
                },
            ))
            &&& v.stage == LaunchStage::ResolvingRoot && reply is Done ==> n == 2 && actions[0]
                == log(
                "Checking manifests and installing profile: MC="@ + job.profile.version_id@
                    + ", Loader="@ + profile::loader_name(job.profile.loader) + ", LoaderVersion="@
                    + profile::loader_version_name(job.profile.loader_version@),
            )
        }),
{
}

/// What is told while the game is installed: which installer runs, which Forge was
/// found, that the version is there, and that mods are repaired.
pub proof fn law_installation_is_told(job: LaunchJob, v: LaunchView, reply: LaunchReply)
    ensures
        ({
            let (next, actions) = launch_step(job, v, reply);
            let n = actions.len() as int;
            &&& next.stage == LaunchStage::Installing && v.stage != next.stage ==> n == 2
                && actions[0] == log(
                "Installing Minecraft/loader assets (this can take a few minutes on first run)..."@,
            )
            &&& next.stage == LaunchStage::InstallingForge && v.stage != next.stage ==> n >= 3
                && actions[n - 3] == log(
                "Starting Forge installation pipeline (this can take a few minutes)..."@,
            ) && actions[n - 2] == stage_progress(job.profile.id@, "Running Forge installer"@)
            &&& v.stage == LaunchStage::ResolvingForge ==> (reply matches LaunchReply::Version(
                version,
            ) ==> n == 4 && actions[0] == log(
                "Resolved Forge version for "@ + job.profile.version_id@ + " -> "@ + version@,
            ))
            &&& v.stage == LaunchStage::Installing || v.stage == LaunchStage::InstallingForge ==> (
            reply matches LaunchReply::Version(version) ==> n == 3 && actions[0] == log(
                "Successfully prepared profile: "@ + version@,
            ) && actions[1] == stage_progress(
                job.profile.id@,
                "Loading installed version metadata"@,
            ))
            &&& v.stage == LaunchStage::PreparingDirectory && reply is Directory ==> n == 2
                && actions[0] == status("Repairing mods"@)
            &&& v.stage == LaunchStage::Repairing ==> (reply matches LaunchReply::Repaired(summary)
                ==> n == 2 && actions[0] == log(
                "Auto-repair summary: checked="@ + text::decimal(summary.checked as nat)
                    + ", updated="@ + text::decimal(summary.updated as nat) + ", disabled="@
                    + text::decimal(summary.disabled as nat) + ", unknown="@ + text::decimal(
                    summary.unknown as nat,
                ),
            ))
            &&& v.stage == LaunchStage::Counting ==> (reply matches LaunchReply::Counted {
                mods,
                shaders,
            } ==> n == 3 && actions[0] == log(
                "Using profile game directory: "@ + v.game_directory,
            ) && actions[1] == log(
                "Profile content: "@ + text::decimal(mods as nat) + " enabled mod(s), "@
                    + text::decimal(shaders as nat) + " enabled shaderpack(s)"@,
            ))
            &&& v.stage == LaunchStage::EnsuringJava && reply == LaunchReply::Java(None) ==> n == 2
                && actions[0] == log(
                "No version-specific managed Java runtime metadata found; falling back to system discovery"@,
            )
        }),
{
}

/// What is told when the game starts: how many settings of the profile and how many
/// doubled entries changed the command, where there were any; then that it starts, and
/// with which executable.
pub proof fn law_start_of_the_game_is_told(job: LaunchJob, v: LaunchView, built: LaunchCommand)
    requires
        v.stage == LaunchStage::Building,
    ensures
        ({
            let actions = launch_step(job, v, LaunchReply::Command(built)).1;
            let n = actions.len() as int;
            let added = runtime::profile_arguments(
                job.profile.java_memory_mb,
                text::opt_text(job.profile.java_args),
            ).len();
            &&& n >= 5
            &&& actions[n - 5] == status("Launching Game Engine"@)
            &&& actions[n - 4] == log("Spawning Java runtime context process..."@)
            &&& actions[n - 3] == log("Launch command executable: "@ + built.executable@)
            &&& actions[n - 2] is ReleaseInstallation
            &&& added > 0 ==> n > 5 && actions[0] == log(
                "Applied "@ + text::decimal(added) + " profile JVM override argument(s)"@,
            )
            &&& n <= 7
        }),
        ({
            let args = runtime::overridden(
                text::texts(built.args@),
                v.main_class,
                job.profile.java_memory_mb,
                text::opt_text(job.profile.java_args),
            );
            let actions = launch_step(job, v, LaunchReply::Command(built)).1;
            let n = actions.len() as int;
            let removed = match command::classpath_flag_from(args, 0) {
                Some(flag) => classpath::replaced_count(args[flag + 1]),
                None => 0,
            };
            removed > 0 ==> n > 5 && actions[n - 6] == log(
                "Deduplicated "@ + text::decimal(removed as nat)
                    + " conflicting library entries from classpath"@,
            )
        }),
        launch_step(
            job,
            LaunchView { stage: LaunchStage::Spawning, ..v },
            LaunchReply::Done,
        ).1[0] == status("Waiting for Minecraft to initialize…"@),
{
}

/// What is told of a failure names the step that failed.
pub proof fn law_failure_names_the_step(job: LaunchJob, v: LaunchView, error: String)
    requires
        v.stage != LaunchStage::Over,
        v.stage != LaunchStage::SavingToken,
    ensures
        launch_step(job, v, LaunchReply::Failed(error)).1[0] == LaunchActionView::Send(
            EventView::Failed {
                profile_id: job.profile.id@,
                error: match v.stage {
                    LaunchStage::Refreshing => "Microsoft token refresh failed before launch: "@
                        + error@,
                    LaunchStage::ResolvingJava => "Java configuration error: "@ + error@,
                    LaunchStage::ResolvingRoot => "Failed resolving runtime minecraft directory: "@
                        + error@,
                    LaunchStage::InstallingForge => "Installation pipeline aborted: "@ + error@,
                    LaunchStage::Installing => "Installation pipeline aborted: "@ + error@,
                    LaunchStage::Loading => "Failed loading version structural profile: "@ + error@,
                    LaunchStage::FetchingLibraries => "Failed preparing fallback libraries: "@
                        + error@,
                    LaunchStage::PreparingDirectory => "Failed preparing profile game directory: "@
                        + error@,
                    LaunchStage::Repairing => "Failed during mod compatibility auto-repair: "@
                        + error@,
                    LaunchStage::EnsuringJava => "Java runtime auto-install failed: "@ + error@,
                    LaunchStage::Building => "Launch command compilation failed: "@ + error@,
                    LaunchStage::Watching => "Failed waiting for Java process: "@ + error@,
                    _ => error@,
                },
            },
        ),
{
}

/// What is told of a start that failed: the Java that is tried next, or why there is
/// no game and what to do about it.
pub proof fn law_failed_start_is_told(
    job: LaunchJob,
    v: LaunchView,
    not_found: bool,
    error: String,
)
    requires
        v.stage == LaunchStage::Spawning,
    ensures
        ({
            let (next, actions) = launch_step(
                job,
                v,
                LaunchReply::SpawnFailed { not_found, error },
            );
            &&& next.stage == LaunchStage::Spawning ==> actions.len() == 2 && actions[0] == log(
                "Launch executable not found; retrying with resolved Java: "@ + v.launch_java->0,
            )
            &&& next.stage == LaunchStage::Over ==> actions == seq![
                LaunchActionView::Send(
                    EventView::Failed {
                        profile_id: job.profile.id@,
                        error: "Failed to spawn Java execution process: "@ + error@
                            + ". Configure a valid Java binary in Profile Editor > Runtime Settings, or keep Runtime Java policy on Auto to download a managed runtime."@,
                    },
                ),
            ]
            &&& v.command is None || v.launch_java is None ==> next.stage == LaunchStage::Over
        }),
{
}

/// What is said about mods that had to be switched off names the profile and lists
/// them.
pub proof fn law_switched_off_mods_are_listed(job: LaunchJob, mods: Seq<Seq<char>>)
    ensures
        disabled_mods_text(job, mods)
            == "Mod repair disabled incompatible mods with no compatible replacements for profile '"@
            + job.profile.name@ + "': "@ + text::join(mods, ", "@),
{
}

} // verus!
