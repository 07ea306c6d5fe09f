//! The state behind the user interface: who is signed in, which profiles and game
//! versions there are, which games start and run, and what an event changes.

use vstd::prelude::*;
use vstd::string::*;

use crate::discovery;
use crate::discovery::{CardView, DiscoveryCardData, DiscoveryKind};
use crate::launch;
use crate::launch::{java_install_policy, JavaInstallPolicy};
use crate::messages::{AppEvent, AuthEvent, DiscoveryEvent, LaunchEvent, VersionsEvent};
use crate::profile;
use crate::profile::{LauncherProfile, ProfileLoader, ProfileView};
use crate::progress::{LaunchProgress, ProgressView};
use crate::session::{Session, SessionView};
use crate::text;
use crate::text::{
    concat2, concat4, concat5, decimal_text, lists_text, same_text, trim_text,
};

verus! {

/// A version in the game's list of versions.
#[derive(Debug, Clone, PartialEq, Eq)]
pub struct VersionEntry {
    /// The version.
    pub id: String,
    /// Its release channel.
    pub version_type: String,
}

/// The releases among the first `n` versions.
pub open spec fn releases(list: Seq<VersionEntry>, n: int) -> Seq<Seq<char>>
    decreases n,
{
    if n <= 0 {
        Seq::empty()
    } else if list[n - 1].version_type@ == "release"@ {
        releases(list, n - 1).push(list[n - 1].id@)
    } else {
        releases(list, n - 1)
    }
}

/// The versions that are releases.
pub fn release_versions(list: &Vec<VersionEntry>) -> (r: Vec<String>)
    ensures
        text::texts(r@) == releases(list@, list@.len() as int),
{
    let mut found: Vec<String> = Vec::new();
    let mut i: usize = 0;
    assert(text::texts(found@) =~= releases(list@, 0));
    while i < list.len()
        invariant
            i <= list@.len(),
            text::texts(found@) == releases(list@, i as int),
        decreases list@.len() - i,
    {
        let ghost before = text::texts(found@);
        if same_text(list[i].version_type.as_str(), "release") {
            found.push(list[i].id.clone());
            assert(text::texts(found@) =~= before.push(list@[i as int].id@));
        }
        i = i + 1;
    }
    found
}

/// The line under the name on a profile's card.
pub fn card_subtitle(profile: &LauncherProfile) -> (r: String)
    ensures
        r@ == profile.version_id@ + " • "@ + profile::loader_name(profile.loader) + " • "@
            + profile::loader_version_name(profile.loader_version@),
{
    let version = profile.loader_version_label();
    concat5(
        profile.version_id.as_str(),
        " • ",
        profile.loader_label(),
        " • ",
        version.as_str(),
    )
}

/// The height of the lists in a sheet of the given height.
pub fn tab_scroll_height(sheet_height: i32) -> (r: i32)
    requires
        sheet_height >= 0,
    ensures
        r == if sheet_height - 170 < 220 {
            220
        } else if sheet_height - 170 > 900 {
            900
        } else {
            sheet_height - 170
        },
{
    let height: i32 = sheet_height - 170;
    if height < 220 {
        220
    } else if height > 900 {
        900
    } else {
        height
    }
}

/// What a search does.
#[derive(Debug, Clone, PartialEq, Eq)]
pub enum SearchDecision {
    /// Nothing: there is no query.
    EmptyQuery,
    /// Nothing: no profile is selected.
    NoProfile,
    /// It clears the results: the profile loads no mods.
    NoLoader,
    /// It asks the service for this.
    Search(String),
}

/// What a search does, as plain values.
pub enum SearchView {
    EmptyQuery,
    NoProfile,
    NoLoader,
    Search(Seq<char>),
}

impl View for SearchDecision {
    type V = SearchView;

    open spec fn view(&self) -> SearchView {
        match *self {
            SearchDecision::EmptyQuery => SearchView::EmptyQuery,
            SearchDecision::NoProfile => SearchView::NoProfile,
            SearchDecision::NoLoader => SearchView::NoLoader,
            SearchDecision::Search(query) => SearchView::Search(query@),
        }
    }
}

/// What a search for content does. Mods are searched for the selected profile.
pub fn search_decision(
    kind: DiscoveryKind,
    entered: &str,
    profile: Option<&LauncherProfile>,
) -> (r: SearchDecision)
    ensures
        r@ == match (text::trimmed(entered@), kind, profile) {
            (None, _, _) => SearchView::EmptyQuery,
            (Some(_), DiscoveryKind::Mods, None) => SearchView::NoProfile,
            (Some(query), DiscoveryKind::Mods, Some(p)) => if p.loader == ProfileLoader::Vanilla {
                SearchView::NoLoader
            } else {
                SearchView::Search(query)
            },
            (Some(query), DiscoveryKind::Shaders, _) => SearchView::Search(query),
        },
{
    let query = trim_text(entered);
    if query.as_str().is_empty() {
        return SearchDecision::EmptyQuery;
    }
    match (kind, profile) {
        (DiscoveryKind::Mods, None) => SearchDecision::NoProfile,
        (DiscoveryKind::Mods, Some(profile)) => match profile.loader {
            ProfileLoader::Vanilla => SearchDecision::NoLoader,
            _ => SearchDecision::Search(query),
        },
        (DiscoveryKind::Shaders, _) => SearchDecision::Search(query),
    }
}

/// What is said about a search.
pub fn search_label(decision: &SearchDecision) -> (r: &'static str)
    ensures
        r@ == match *decision {
            SearchDecision::EmptyQuery => "Enter a search query first"@,
            SearchDecision::NoProfile => "Select a valid profile first"@,
            SearchDecision::NoLoader =>
                "Selected profile uses Vanilla loader: mods are incompatible"@,
            SearchDecision::Search(_) => "Searching Modrinth…"@,
        },
{
    match decision {
        SearchDecision::EmptyQuery => "Enter a search query first",
        SearchDecision::NoProfile => "Select a valid profile first",
        SearchDecision::NoLoader =>
            "Selected profile uses Vanilla loader: mods are incompatible",
        SearchDecision::Search(_) => "Searching Modrinth…",
    }
}

/// What is said about the installed content of a profile, given how many files
/// there are; none if they cannot be listed.
pub fn installed_label(kind: DiscoveryKind, profile_name: Option<&str>, count: Option<usize>) -> (r:
    String)
    ensures
        r@ == match (kind, profile_name, count) {
            (DiscoveryKind::Mods, None, _) => "Installed mods for this profile"@,
            (DiscoveryKind::Shaders, None, _) => "Installed shaderpacks for this profile"@,
            (DiscoveryKind::Mods, Some(_), None) => "Installed mods unavailable"@,
            (DiscoveryKind::Shaders, Some(_), None) => "Installed shaders unavailable"@,
            (DiscoveryKind::Mods, Some(name), Some(n)) => "Installed mods for "@ + name@ + ": "@
                + text::decimal(n as nat),
            (DiscoveryKind::Shaders, Some(name), Some(n)) => "Installed shaders for "@ + name@
                + ": "@ + text::decimal(n as nat),
        },
{
    match (kind, profile_name, count) {
        (DiscoveryKind::Mods, None, _) => "Installed mods for this profile".to_owned(),
        (DiscoveryKind::Shaders, None, _) => "Installed shaderpacks for this profile".to_owned(),
        (DiscoveryKind::Mods, Some(_), None) => "Installed mods unavailable".to_owned(),
        (DiscoveryKind::Shaders, Some(_), None) => "Installed shaders unavailable".to_owned(),
        (DiscoveryKind::Mods, Some(name), Some(n)) => {
            let count = decimal_text(n as u128);
            concat4("Installed mods for ", name, ": ", count.as_str())
        },
        (DiscoveryKind::Shaders, Some(name), Some(n)) => {
            let count = decimal_text(n as u128);
            concat4("Installed shaders for ", name, ": ", count.as_str())
        },
    }
}

/// What the user interface has to do.
#[derive(Debug)]
pub enum UiAction {
    /// Show a text in the status bar.
    Status(String),
    /// Add a line to the log.
    Log(String),
    /// Open an address in the browser.
    OpenUrl(String),
    /// Greet the player.
    Welcome(String),
    /// Show the state of the account.
    Account(String),
    /// Let the player start a game, or not.
    Play(bool),
    /// Let the player sign out, or not.
    SignOut(bool),
    /// Let the player sign in with a Microsoft account, or not.
    MicrosoftLogin(bool),
    /// Sign in with a Microsoft account, under this identifier of the launcher.
    StartLogin(String),
    /// Restore the session of a Microsoft account.
    StartRestore {
        /// The identifier of the launcher.
        client_id: String,
        /// The stored refresh token.
        refresh_token: String,
    },
    /// Forget the stored refresh token.
    ClearToken,
    /// Show the home page.
    ShowHome,
    /// Show the account page.
    ShowAccount,
    /// Draw the cards on the home page.
    RenderHome,
    /// Fill the profile lists and select this profile.
    RefreshProfiles(String),
    /// Write the profiles to disk; a failure is logged after this text.
    SaveProfiles(String),
    /// Show the progress bar, or hide it.
    ShowProgress(bool),
    /// Show progress.
    Progress(LaunchProgress),
    /// Show what a search found.
    Results {
        /// The kind of content.
        kind: DiscoveryKind,
        /// What was found.
        cards: Vec<DiscoveryCardData>,
    },
    /// Say something about a search.
    ResultsStatus {
        /// The kind of content.
        kind: DiscoveryKind,
        /// What is said.
        label: String,
    },
    /// List the installed content.
    RefreshInstalled(DiscoveryKind),
}

/// What the user interface has to do, as plain values.
pub enum UiActionView {
    Status(Seq<char>),
    Log(Seq<char>),
    OpenUrl(Seq<char>),
    Welcome(Seq<char>),
    Account(Seq<char>),
    Play(bool),
    SignOut(bool),
    MicrosoftLogin(bool),
    StartLogin(Seq<char>),
    StartRestore { client_id: Seq<char>, refresh_token: Seq<char> },
    ClearToken,
    ShowHome,
    ShowAccount,
    RenderHome,
    RefreshProfiles(Seq<char>),
    SaveProfiles(Seq<char>),
    ShowProgress(bool),
    Progress(ProgressView),
    Results { kind: DiscoveryKind, cards: Seq<CardView> },
    ResultsStatus { kind: DiscoveryKind, label: Seq<char> },
    RefreshInstalled(DiscoveryKind),
}

impl View for UiAction {
    type V = UiActionView;

    open spec fn view(&self) -> UiActionView {
        match *self {
            UiAction::Status(s) => UiActionView::Status(s@),
            UiAction::Log(s) => UiActionView::Log(s@),
            UiAction::OpenUrl(s) => UiActionView::OpenUrl(s@),
            UiAction::Welcome(s) => UiActionView::Welcome(s@),
            UiAction::Account(s) => UiActionView::Account(s@),
            UiAction::Play(on) => UiActionView::Play(on),
            UiAction::SignOut(on) => UiActionView::SignOut(on),
            UiAction::MicrosoftLogin(on) => UiActionView::MicrosoftLogin(on),
            UiAction::StartLogin(id) => UiActionView::StartLogin(id@),
            UiAction::StartRestore { client_id, refresh_token } => UiActionView::StartRestore {
                client_id: client_id@,
                refresh_token: refresh_token@,
            },
            UiAction::ClearToken => UiActionView::ClearToken,
            UiAction::ShowHome => UiActionView::ShowHome,
            UiAction::ShowAccount => UiActionView::ShowAccount,
            UiAction::RenderHome => UiActionView::RenderHome,
            UiAction::RefreshProfiles(name) => UiActionView::RefreshProfiles(name@),
            UiAction::SaveProfiles(warning) => UiActionView::SaveProfiles(warning@),
            UiAction::ShowProgress(on) => UiActionView::ShowProgress(on),
            UiAction::Progress(progress) => UiActionView::Progress(progress@),
            UiAction::Results { kind, cards } => UiActionView::Results {
                kind,
                cards: discovery::card_views(cards@),
            },
            UiAction::ResultsStatus { kind, label } => UiActionView::ResultsStatus {
                kind,
                label: label@,
            },
            UiAction::RefreshInstalled(kind) => UiActionView::RefreshInstalled(kind),
        }
    }
}

/// Actions as plain values.
pub open spec fn action_views(actions: Seq<UiAction>) -> Seq<UiActionView> {
    actions.map_values(|action: UiAction| action@)
}

fn emit(actions: &mut Vec<UiAction>, action: UiAction)
    ensures
        action_views(final(actions)@) == action_views(old(actions)@).push(action@),
{
    let ghost before = actions@;
    let ghost added = action;
    actions.push(action);
    assert(action_views(actions@) =~= action_views(before).push(added@));
}

/// The state behind the user interface.
#[derive(Debug)]
pub struct UiState {
    /// Who is signed in.
    pub session: Option<Session>,
    /// The profiles.
    pub profiles: Vec<LauncherProfile>,
    /// The game versions.
    pub versions: Vec<String>,
    /// The profiles whose games are being started.
    pub starting: Vec<String>,
    /// The profiles whose games run.
    pub running: Vec<String>,
}

/// The state behind the user interface as plain values.
pub struct UiView {
    pub session: Option<SessionView>,
    pub profiles: Seq<ProfileView>,
    pub versions: Seq<Seq<char>>,
    pub starting: Seq<Seq<char>>,
    pub running: Seq<Seq<char>>,
}

impl View for UiState {
    type V = UiView;

    open spec fn view(&self) -> UiView {
        UiView {
            session: match self.session {
                Some(session) => Some(session@),
                None => None,
            },
            profiles: profile::profile_views(self.profiles@),
            versions: text::texts(self.versions@),
            starting: text::texts(self.starting@),
            running: text::texts(self.running@),
        }
    }
}

/// Whether the player can start a game: a player is signed in, there is a profile,
/// and no other game is being started.
pub open spec fn can_play(v: UiView) -> bool {
    v.session is Some && v.profiles.len() > 0 && v.starting.len() == 0
}

/// A list without a text.
pub open spec fn without(list: Seq<Seq<char>>, gone: Seq<char>) -> Seq<Seq<char>> {
    list.filter(|item: Seq<char>| item != gone)
}

/// A list with a text, once.
pub open spec fn with(list: Seq<Seq<char>>, added: Seq<char>) -> Seq<Seq<char>> {
    without(list, added).push(added)
}

/// The status while games run, or `otherwise` if none does.
pub open spec fn running_status(v: UiView, otherwise: Seq<char>) -> Seq<char> {
    if v.running.len() > 0 {
        "Game Running"@
    } else {
        otherwise
    }
}

/// Whether a profile's game version is not in the list.
pub open spec fn is_outdated(p: ProfileView, versions: Seq<Seq<char>>) -> bool {
    !versions.contains(p.version_id)
}

/// A profile with a game version of the list.
pub open spec fn brought_up(p: ProfileView, versions: Seq<Seq<char>>) -> ProfileView {
    if is_outdated(p, versions) {
        ProfileView { version_id: versions[0], ..p }
    } else {
        p
    }
}

/// What is said about the first `n` profiles whose game version is not in the
/// list.
pub open spec fn outdated_lines(
    profiles: Seq<ProfileView>,
    versions: Seq<Seq<char>>,
    n: int,
) -> Seq<UiActionView>
    decreases n,
{
    if n <= 0 {
        Seq::empty()
    } else if is_outdated(profiles[n - 1], versions) {
        outdated_lines(profiles, versions, n - 1).push(
            UiActionView::Log(
                "[WARN] Profile '"@ + profiles[n - 1].name + "' used unsupported version '"@
                    + profiles[n - 1].version_id + "'; migrated to '"@ + versions[0] + "'"@,
            ),
        )
    } else {
        outdated_lines(profiles, versions, n - 1)
    }
}

/// The profile that is made where there is none.
pub open spec fn default_profile(id: Seq<char>, version_id: Seq<char>) -> ProfileView {
    ProfileView {
        id,
        name: "Default"@,
        version_id,
        loader: ProfileLoader::Vanilla,
        loader_version: profile::LoaderVersionView::LatestStable,
        color_mode: profile::ProfileColorMode::Auto,
        color_hex: None,
        java_binary: None,
        java_auto_download: true,
        java_memory_mb: None,
        java_args: None,
    }
}

/// The game versions are known: a profile is made if there is none, and profiles
/// whose version is not in the list get the first one.
pub open spec fn after_versions(v: UiView, versions: Seq<Seq<char>>, id: Seq<char>) -> (
    UiView,
    Seq<UiActionView>,
) {
    let settled = seq![
        UiActionView::RefreshProfiles("Default"@),
        UiActionView::Status(text::decimal(versions.len()) + " versions available"@),
    ];
    let n = v.profiles.len() as int;
    if versions.len() == 0 {
        (v, seq![UiActionView::Status("No versions available"@)])
    } else if n == 0 {
        (
            UiView { versions, profiles: seq![default_profile(id, versions[0])], ..v },
            seq![
                UiActionView::SaveProfiles("[WARN] Failed writing default profile to disk: "@),
            ] + settled,
        )
    } else {
        let lines = outdated_lines(v.profiles, versions, n);
        (
            UiView {
                versions,
                profiles: v.profiles.map_values(|p: ProfileView| brought_up(p, versions)),
                ..v
            },
            lines + (if lines.len() > 0 {
                seq![UiActionView::SaveProfiles("[WARN] Failed saving migrated profiles: "@)]
            } else {
                seq![]
            }) + settled,
        )
    }
}

/// What remains when a launch of a profile is over. Where the profile's game runs
/// and is being started once more, it is the second launch that is over: the lock
/// of the profile lets it go no further.
pub open spec fn without_launch(v: UiView, profile_id: Seq<char>) -> UiView {
    if v.starting.contains(profile_id) {
        UiView { starting: without(v.starting, profile_id), ..v }
    } else {
        UiView { running: without(v.running, profile_id), ..v }
    }
}

/// A launch is over: the status stays as it is while games run.
pub open spec fn after_end(v: UiView, profile_id: Seq<char>, status: Seq<char>, log: Option<
    Seq<char>,
>) -> (UiView, Seq<UiActionView>) {
    let v = without_launch(v, profile_id);
    (
        v,
        (match log {
            Some(line) => seq![UiActionView::Log(line)],
            None => seq![],
        }) + seq![
            UiActionView::Status(running_status(v, status)),
            UiActionView::Play(can_play(v)),
            UiActionView::ShowProgress(v.starting.len() > 0),
        ],
    )
}

/// What is said about a search that failed.
pub open spec fn search_failure_label(kind: DiscoveryKind) -> Seq<char> {
    match kind {
        DiscoveryKind::Mods => "Modrinth search failed for mods"@,
        DiscoveryKind::Shaders => "Modrinth search failed for shaders"@,
    }
}

/// What an event changes. `id` is the identifier of the profile that is made where
/// there is none.
pub open spec fn dispatched(v: UiView, event: AppEvent, id: Seq<char>) -> (
    UiView,
    Seq<UiActionView>,
) {
    match event {
        AppEvent::Log(line) => (v, seq![UiActionView::Log(line@)]),
        AppEvent::StatusUpdate(status) => (v, seq![UiActionView::Status(status@)]),
        AppEvent::OpenUrl(address) => (v, seq![UiActionView::OpenUrl(address@)]),
        AppEvent::Versions(VersionsEvent::Loaded(versions)) => after_versions(
            v,
            text::texts(versions@),
            id,
        ),
        AppEvent::Versions(VersionsEvent::Failed(error)) => (
            v,
            seq![
                UiActionView::Status("Execution Error!"@),
                UiActionView::Log("[ERROR] "@ + error@),
            ],
        ),
        AppEvent::Auth(
            AuthEvent::MicrosoftSuccess { username, uuid, access_token, refresh_token },
        ) => {
            let v = UiView {
                session: Some(
                    SessionView::Microsoft {
                        username: username@,
                        uuid: uuid@,
                        access_token: access_token@,
                        refresh_token: refresh_token@,
                    },
                ),
                ..v
            };
            (
                v,
                seq![
                    UiActionView::Welcome("Hello, "@ + username@),
                    UiActionView::Account("Signed in with Microsoft as "@ + username@),
                    UiActionView::Status("Launcher Ready (Online)"@),
                    UiActionView::Play(v.profiles.len() > 0),
                    UiActionView::SignOut(true),
                    UiActionView::MicrosoftLogin(true),
                    UiActionView::ShowHome,
                    UiActionView::RenderHome,
                ],
            )
        },
        AppEvent::Auth(AuthEvent::MicrosoftFailed(error)) => (
            v,
            seq![
                UiActionView::Status("Microsoft sign-in failed"@),
                UiActionView::Log("[ERROR] "@ + error@),
                UiActionView::Account("Not signed in"@),
                UiActionView::MicrosoftLogin(true),
            ],
        ),
        AppEvent::Launch(LaunchEvent::Progress(progress)) => (
            v,
            seq![UiActionView::Progress(progress@)],
        ),
        AppEvent::Launch(LaunchEvent::Ready { profile_id }) => {
            let v = UiView {
                starting: without(v.starting, profile_id@),
                running: with(v.running, profile_id@),
                ..v
            };
            (
                v,
                seq![
                    UiActionView::Status("Game Running"@),
                    UiActionView::Play(can_play(v)),
                    UiActionView::ShowProgress(v.starting.len() > 0),
                ],
            )
        },
        AppEvent::Launch(LaunchEvent::Finished { profile_id }) => after_end(
            v,
            profile_id@,
            "Game Closed / Task Completed"@,
            None,
        ),
        AppEvent::Launch(LaunchEvent::Failed { profile_id, error }) => after_end(
            v,
            profile_id@,
            "Execution Error!"@,
            Some("[ERROR] "@ + error@),
        ),
        AppEvent::Discovery(DiscoveryEvent::ActionFailed { kind: _, error }) => (
            v,
            seq![
                UiActionView::Status("Execution Error!"@),
                UiActionView::Log("[ERROR] "@ + error@),
            ],
        ),
        AppEvent::Discovery(DiscoveryEvent::SearchResults { kind, query, results }) => (
            v,
            seq![
                UiActionView::Results { kind, cards: discovery::card_views(results@) },
                UiActionView::ResultsStatus {
                    kind,
                    label: text::decimal(results@.len()) + " result(s) for '"@ + query@ + "'"@,
                },
            ],
        ),
        AppEvent::Discovery(DiscoveryEvent::SearchFailed { kind, error }) => (
            v,
            seq![
                UiActionView::ResultsStatus { kind, label: search_failure_label(kind) },
                UiActionView::Log(
                    "[ERROR] "@ + discovery::kind_label(kind) + " search failed: "@ + error@,
                ),
            ],
        ),
        AppEvent::Discovery(DiscoveryEvent::InstallFinished { kind, title, target_path }) => (
            v,
            seq![
                UiActionView::Status(discovery::kind_label(kind) + " installed"@),
                UiActionView::Log("Installed '"@ + title@ + "' to "@ + target_path@),
                UiActionView::RefreshInstalled(kind),
            ],
        ),
        AppEvent::Discovery(DiscoveryEvent::InstalledChanged(kind)) => (
            v,
            seq![UiActionView::RefreshInstalled(kind)],
        ),
    }
}

/// What a click on the start button leads to.
#[derive(Debug)]
pub enum PlayDecision {
    /// Nothing: no player is signed in, or no profile is selected.
    Ignore,
    /// The profile's game version does not exist.
    Refuse(String),
    /// The profile is launched.
    Launch {
        /// The position of the profile.
        at: usize,
        /// The configured Java executable.
        java_path: String,
        /// Whether a Java runtime is installed with the game.
        java_policy: JavaInstallPolicy,
    },
}

/// What a click on the start button leads to, as plain values.
pub enum PlayView {
    Ignore,
    Refuse(Seq<char>),
    Launch { at: int, java_path: Seq<char>, java_policy: JavaInstallPolicy },
}

impl View for PlayDecision {
    type V = PlayView;

    open spec fn view(&self) -> PlayView {
        match *self {
            PlayDecision::Ignore => PlayView::Ignore,
            PlayDecision::Refuse(error) => PlayView::Refuse(error@),
            PlayDecision::Launch { at, java_path, java_policy } => PlayView::Launch {
                at: at as int,
                java_path: java_path@,
                java_policy,
            },
        }
    }
}

/// What a click on the start button leads to: a profile whose game version does
/// not exist is refused.
pub open spec fn played(v: UiView, at: int) -> (UiView, PlayView) {
    if v.session is None || at >= v.profiles.len() {
        (v, PlayView::Ignore)
    } else if is_outdated(v.profiles[at], v.versions) {
        (
            v,
            PlayView::Refuse(
                "Profile '"@ + v.profiles[at].name + "' references unsupported Minecraft version '"@
                    + v.profiles[at].version_id
                    + "'. Open Profile Editor and choose a valid version."@,
            ),
        )
    } else {
        (
            UiView { starting: with(v.starting, v.profiles[at].id), ..v },
            PlayView::Launch {
                at,
                java_path: match v.profiles[at].java_binary {
                    Some(java) => java,
                    None => ""@,
                },
                java_policy: launch::java_policy(v.profiles[at].java_auto_download),
            },
        )
    }
}

fn drop_text(list: &Vec<String>, gone: &str) -> (r: Vec<String>)
    ensures
        text::texts(r@) == without(text::texts(list@), gone@),
{
    let ghost all = text::texts(list@);
    let ghost stays = |item: Seq<char>| item != gone@;
    let mut kept: Vec<String> = Vec::new();
    let mut i: usize = 0;
    proof {
        reveal(Seq::filter);
        assert(text::texts(kept@) =~= all.take(0).filter(stays));
    }
    while i < list.len()
        invariant
            i <= list@.len(),
            all == text::texts(list@),
            stays == (|item: Seq<char>| item != gone@),
            text::texts(kept@) == all.take(i as int).filter(stays),
        decreases list@.len() - i,
    {
        proof {
            reveal(Seq::filter);
            assert(all.take(i + 1).drop_last() =~= all.take(i as int));
            assert(all[i as int] == list@[i as int]@);
        }
        let ghost before = text::texts(kept@);
        if !same_text(list[i].as_str(), gone) {
            kept.push(list[i].clone());
            assert(text::texts(kept@) =~= before.push(all[i as int]));
        }
        i = i + 1;
    }
    assert(all.take(all.len() as int) =~= all);
    kept
}

fn add_text(list: &Vec<String>, added: String) -> (r: Vec<String>)
    ensures
        text::texts(r@) == with(text::texts(list@), added@),
{
    let mut kept = drop_text(list, added.as_str());
    let ghost before = text::texts(kept@);
    let ghost shown = added@;
    kept.push(added);
    assert(text::texts(kept@) =~= before.push(shown));
    kept
}

impl UiState {
    /// Nobody is signed in, and nothing is known.
    pub fn new() -> (r: Self)
        ensures
            r@ == (UiView {
                session: None,
                profiles: seq![],
                versions: seq![],
                starting: seq![],
                running: seq![],
            }),
    {
        let state = UiState {
            session: None,
            profiles: Vec::new(),
            versions: Vec::new(),
            starting: Vec::new(),
            running: Vec::new(),
        };
        assert(state@.profiles =~= seq![]);
        assert(state@.versions =~= seq![]);
        assert(state@.starting =~= seq![]);
        assert(state@.running =~= seq![]);
        state
    }

    /// Whether the player can start a game.
    pub fn can_play(&self) -> (r: bool)
        ensures
            r == can_play(self@),
    {
        assert(self@.profiles.len() == self.profiles@.len());
        assert(self@.starting.len() == self.starting@.len());
        self.session.is_some() && self.profiles.len() > 0 && self.starting.len() == 0
    }

    fn versions_loaded(
        &mut self,
        versions: Vec<String>,
        id: String,
        actions: &mut Vec<UiAction>,
    )
        requires
            action_views(old(actions)@) == Seq::<UiActionView>::empty(),
        ensures
            (final(self)@, action_views(final(actions)@)) == after_versions(
                old(self)@,
                text::texts(versions@),
                id@,
            ),
    {
        let ghost before = self@;
        let ghost list = text::texts(versions@);
        assert(list.len() == versions@.len());
        assert(before.profiles.len() == self.profiles@.len());
        if versions.len() == 0 {
            emit(actions, UiAction::Status("No versions available".to_owned()));
            return;
        }
        assert(list[0] == versions@[0]@);
        if self.profiles.len() == 0 {
            let made = LauncherProfile::default_with_version(id, versions[0].clone());
            let ghost view = made@;
            self.profiles.push(made);
            assert(profile::profile_views(self.profiles@) =~= seq![view]);
            emit(
                actions,
                UiAction::SaveProfiles("[WARN] Failed writing default profile to disk: ".to_owned()),
            );
        } else {
            let mut i: usize = 0;
            while i < self.profiles.len()
                invariant
                    i <= before.profiles.len(),
                    self.profiles@.len() == before.profiles.len(),
                    list == text::texts(versions@),
                    versions@.len() > 0,
                    self@ == (UiView { profiles: self@.profiles, ..before }),
                    forall|j: int|
                        0 <= j < i ==> (#[trigger] self.profiles@[j])@ == brought_up(
                            before.profiles[j],
                            list,
                        ),
                    forall|j: int|
                        i <= j < before.profiles.len() ==> (#[trigger] self.profiles@[j])@
                            == before.profiles[j],
                    action_views(actions@) == outdated_lines(before.profiles, list, i as int),
                decreases before.profiles.len() - i,
            {
                let ghost so_far = self.profiles@;
                assert(self.profiles@[i as int]@ == before.profiles[i as int]);
                if !lists_text(&versions, self.profiles[i].version_id.as_str()) {
                    let mut line = concat5(
                        "[WARN] Profile '",
                        self.profiles[i].name.as_str(),
                        "' used unsupported version '",
                        self.profiles[i].version_id.as_str(),
                        "'; migrated to '",
                    );
                    line.append(versions[0].as_str());
                    line.append("'");
                    emit(actions, UiAction::Log(line));
                    let mut changed = self.profiles.remove(i);
                    changed.version_id = versions[0].clone();
                    assert(list[0] == versions@[0]@);
                    self.profiles.insert(i, changed);
                    assert(self.profiles@ =~= so_far.update(i as int, changed));
                }
                assert(self.profiles@[i as int]@ == brought_up(before.profiles[i as int], list));
                i = i + 1;
            }
            assert(self@.profiles =~= before.profiles.map_values(
                |p: ProfileView| brought_up(p, list),
            ));
            if actions.len() > 0 {
                emit(
                    actions,
                    UiAction::SaveProfiles("[WARN] Failed saving migrated profiles: ".to_owned()),
                );
            }
        }
        let count = decimal_text(versions.len() as u128);
        self.versions = versions;
        emit(actions, UiAction::RefreshProfiles("Default".to_owned()));
        emit(actions, UiAction::Status(concat2(count.as_str(), " versions available")));
        assert(action_views(actions@) =~= after_versions(before, list, id@).1);
    }

    fn game_ended(
        &mut self,
        profile_id: &str,
        status: &str,
        log: Option<String>,
        actions: &mut Vec<UiAction>,
    )
        requires
            action_views(old(actions)@) == Seq::<UiActionView>::empty(),
        ensures
            (final(self)@, action_views(final(actions)@)) == after_end(
                old(self)@,
                profile_id@,
                status@,
                text::opt_text(log),
            ),
    {
        let ghost before = self@;
        let ghost line = text::opt_text(log);
        if lists_text(&self.starting, profile_id) {
            self.starting = drop_text(&self.starting, profile_id);
        } else {
            self.running = drop_text(&self.running, profile_id);
        }
        assert(self@.starting.len() == self.starting@.len());
        assert(self@.running.len() == self.running@.len());
        if let Some(line) = log {
            emit(actions, UiAction::Log(line));
        }
        if self.running.len() > 0 {
            emit(actions, UiAction::Status("Game Running".to_owned()));
        } else {
            emit(actions, UiAction::Status(status.to_owned()));
        }
        emit(actions, UiAction::Play(self.can_play()));
        emit(actions, UiAction::ShowProgress(self.starting.len() > 0));
        assert(action_views(actions@) =~= after_end(before, profile_id@, status@, line).1);
    }

    fn signed_in(
        &mut self,
        username: String,
        uuid: String,
        access_token: String,
        refresh_token: String,
        actions: &mut Vec<UiAction>,
    )
        requires
            action_views(old(actions)@) == Seq::<UiActionView>::empty(),
        ensures
            (final(self)@, action_views(final(actions)@)) == dispatched(
                old(self)@,
                AppEvent::Auth(
                    AuthEvent::MicrosoftSuccess { username, uuid, access_token, refresh_token },
                ),
                seq![],
            ),
    {
        emit(actions, UiAction::Welcome(concat2("Hello, ", username.as_str())));
        emit(
            actions,
            UiAction::Account(concat2("Signed in with Microsoft as ", username.as_str())),
        );
        emit(actions, UiAction::Status("Launcher Ready (Online)".to_owned()));
        self.session = Some(Session::Microsoft { username, uuid, access_token, refresh_token });
        assert(self@.profiles.len() == self.profiles@.len());
        emit(actions, UiAction::Play(self.profiles.len() > 0));
        emit(actions, UiAction::SignOut(true));
        emit(actions, UiAction::MicrosoftLogin(true));
        emit(actions, UiAction::ShowHome);
        emit(actions, UiAction::RenderHome);
    }

    /// Takes in an event, and says what the user interface has to do. `id` is a
    /// fresh identifier for a profile.
    pub fn dispatch(&mut self, event: AppEvent, id: String) -> (r: Vec<UiAction>)
        ensures
            (final(self)@, action_views(r@)) == dispatched(old(self)@, event, id@),
    {
        let mut actions: Vec<UiAction> = Vec::new();
        assert(action_views(actions@) =~= seq![]);
        match event {
            AppEvent::Log(line) => {
                emit(&mut actions, UiAction::Log(line));
            },
            AppEvent::StatusUpdate(status) => {
                emit(&mut actions, UiAction::Status(status));
            },
            AppEvent::OpenUrl(address) => {
                emit(&mut actions, UiAction::OpenUrl(address));
            },
            AppEvent::Versions(VersionsEvent::Loaded(versions)) => {
                self.versions_loaded(versions, id, &mut actions);
            },
            AppEvent::Versions(VersionsEvent::Failed(error)) => {
                emit(&mut actions, UiAction::Status("Execution Error!".to_owned()));
                emit(&mut actions, UiAction::Log(concat2("[ERROR] ", error.as_str())));
            },
            AppEvent::Auth(
                AuthEvent::MicrosoftSuccess { username, uuid, access_token, refresh_token },
            ) => {
                self.signed_in(username, uuid, access_token, refresh_token, &mut actions);
            },
            AppEvent::Auth(AuthEvent::MicrosoftFailed(error)) => {
                emit(&mut actions, UiAction::Status("Microsoft sign-in failed".to_owned()));
                emit(&mut actions, UiAction::Log(concat2("[ERROR] ", error.as_str())));
                emit(&mut actions, UiAction::Account("Not signed in".to_owned()));
                emit(&mut actions, UiAction::MicrosoftLogin(true));
            },
            AppEvent::Launch(LaunchEvent::Progress(progress)) => {
                emit(&mut actions, UiAction::Progress(progress));
            },
            AppEvent::Launch(LaunchEvent::Ready { profile_id }) => {
                self.starting = drop_text(&self.starting, profile_id.as_str());
                self.running = add_text(&self.running, profile_id);
                assert(self@.starting.len() == self.starting@.len());
                emit(&mut actions, UiAction::Status("Game Running".to_owned()));
                emit(&mut actions, UiAction::Play(self.can_play()));
                emit(&mut actions, UiAction::ShowProgress(self.starting.len() > 0));
            },
            AppEvent::Launch(LaunchEvent::Finished { profile_id }) => {
                self.game_ended(
                    profile_id.as_str(),
                    "Game Closed / Task Completed",
                    None,
                    &mut actions,
                );
            },
            AppEvent::Launch(LaunchEvent::Failed { profile_id, error }) => {
                let line = concat2("[ERROR] ", error.as_str());
                self.game_ended(profile_id.as_str(), "Execution Error!", Some(line), &mut actions);
            },
            AppEvent::Discovery(DiscoveryEvent::ActionFailed { kind: _, error }) => {
                emit(&mut actions, UiAction::Status("Execution Error!".to_owned()));
                emit(&mut actions, UiAction::Log(concat2("[ERROR] ", error.as_str())));
            },
            AppEvent::Discovery(DiscoveryEvent::SearchResults { kind, query, results }) => {
                let count = decimal_text(results.len() as u128);
                let label = concat4(count.as_str(), " result(s) for '", query.as_str(), "'");
                emit(&mut actions, UiAction::Results { kind, cards: results });
                emit(&mut actions, UiAction::ResultsStatus { kind, label });
            },
            AppEvent::Discovery(DiscoveryEvent::SearchFailed { kind, error }) => {
                let label = match kind {
                    DiscoveryKind::Mods => "Modrinth search failed for mods".to_owned(),
                    DiscoveryKind::Shaders => "Modrinth search failed for shaders".to_owned(),
                };
                emit(&mut actions, UiAction::ResultsStatus { kind, label });
                let line = concat4("[ERROR] ", kind.label(), " search failed: ", error.as_str());
                emit(&mut actions, UiAction::Log(line));
            },
            AppEvent::Discovery(DiscoveryEvent::InstallFinished { kind, title, target_path }) => {
                emit(&mut actions, UiAction::Status(concat2(kind.label(), " installed")));
                let line = concat4("Installed '", title.as_str(), "' to ", target_path.as_str());
                emit(&mut actions, UiAction::Log(line));
                emit(&mut actions, UiAction::RefreshInstalled(kind));
            },
            AppEvent::Discovery(DiscoveryEvent::InstalledChanged(kind)) => {
                emit(&mut actions, UiAction::RefreshInstalled(kind));
            },
        }
        actions
    }

    /// Takes in a click on the start button, while the profile at `at` is selected.
    pub fn play(&mut self, at: usize) -> (r: PlayDecision)
        ensures
            (final(self)@, r@) == played(old(self)@, at as int),
    {
        assert(self@.profiles.len() == self.profiles@.len());
        if self.session.is_none() || at >= self.profiles.len() {
            return PlayDecision::Ignore;
        }
        assert(self@.profiles[at as int] == self.profiles@[at as int]@);
        if !lists_text(&self.versions, self.profiles[at].version_id.as_str()) {
            return PlayDecision::Refuse(
                concat5(
                    "Profile '",
                    self.profiles[at].name.as_str(),
                    "' references unsupported Minecraft version '",
                    self.profiles[at].version_id.as_str(),
                    "'. Open Profile Editor and choose a valid version.",
                ),
            );
        }
        let java_path = match &self.profiles[at].java_binary {
            Some(java) => java.clone(),
            None => "".to_owned(),
        };
        let java_policy = java_install_policy(self.profiles[at].java_auto_download);
        self.starting = add_text(&self.starting, self.profiles[at].id.clone());
        PlayDecision::Launch { at, java_path, java_policy }
    }

    /// Signs a player in without an account.
    pub fn offline_login(&mut self, entered: &str) -> (r: Vec<UiAction>)
        ensures
            (final(self)@, action_views(r@)) == signed_in_offline(old(self)@, entered@),
    {
        let mut actions: Vec<UiAction> = Vec::new();
        assert(action_views(actions@) =~= seq![]);
        let username = trim_text(entered);
        if username.as_str().is_empty() {
            emit(&mut actions, UiAction::Account("Enter a username to sign in".to_owned()));
            return actions;
        }
        emit(&mut actions, UiAction::Welcome(concat2("Hello, ", username.as_str())));
        emit(&mut actions, UiAction::Status("Launcher Ready (Offline)".to_owned()));
        emit(
            &mut actions,
            UiAction::Account(concat2("Signed in offline as ", username.as_str())),
        );
        self.session = Some(Session::Offline { username });
        assert(self@.profiles.len() == self.profiles@.len());
        emit(&mut actions, UiAction::Play(self.profiles.len() > 0));
        emit(&mut actions, UiAction::SignOut(true));
        emit(&mut actions, UiAction::ShowHome);
        emit(&mut actions, UiAction::RenderHome);
        actions
    }

    /// Signs the player out.
    pub fn sign_out(&mut self) -> (r: Vec<UiAction>)
        ensures
            (final(self)@, action_views(r@)) == signed_out(old(self)@),
    {
        let mut actions: Vec<UiAction> = Vec::new();
        assert(action_views(actions@) =~= seq![]);
        self.session = None;
        emit(&mut actions, UiAction::Welcome("Not signed in".to_owned()));
        emit(&mut actions, UiAction::Status("Please log in".to_owned()));
        emit(&mut actions, UiAction::Account("Not signed in".to_owned()));
        emit(&mut actions, UiAction::Play(false));
        emit(&mut actions, UiAction::SignOut(false));
        emit(&mut actions, UiAction::MicrosoftLogin(true));
        emit(&mut actions, UiAction::ShowAccount);
        emit(&mut actions, UiAction::ClearToken);
        emit(&mut actions, UiAction::RenderHome);
        actions
    }
}

/// Signing in without an account. It takes a name.
pub open spec fn signed_in_offline(v: UiView, entered: Seq<char>) -> (UiView, Seq<UiActionView>) {
    match text::trimmed(entered) {
        None => (v, seq![UiActionView::Account("Enter a username to sign in"@)]),
        Some(username) => {
            let v = UiView { session: Some(SessionView::Offline { username }), ..v };
            (
                v,
                seq![
                    UiActionView::Welcome("Hello, "@ + username),
                    UiActionView::Status("Launcher Ready (Offline)"@),
                    UiActionView::Account("Signed in offline as "@ + username),
                    UiActionView::Play(v.profiles.len() > 0),
                    UiActionView::SignOut(true),
                    UiActionView::ShowHome,
                    UiActionView::RenderHome,
                ],
            )
        },
    }
}

/// Signing out.
pub open spec fn signed_out(v: UiView) -> (UiView, Seq<UiActionView>) {
    (
        UiView { session: None, ..v },
        seq![
            UiActionView::Welcome("Not signed in"@),
            UiActionView::Status("Please log in"@),
            UiActionView::Account("Not signed in"@),
            UiActionView::Play(false),
            UiActionView::SignOut(false),
            UiActionView::MicrosoftLogin(true),
            UiActionView::ShowAccount,
            UiActionView::ClearToken,
            UiActionView::RenderHome,
        ],
    )
}

/// What a click on the Microsoft sign-in leads to, given the identifier under
/// which the launcher is registered. A blank one is none.
pub fn microsoft_login(client_id: Option<String>) -> (r: Vec<UiAction>)
    ensures
        action_views(r@) == match client_id {
            Some(id) if text::trim(id@).len() > 0 => seq![
                UiActionView::MicrosoftLogin(false),
                UiActionView::StartLogin(id@),
            ],
            _ => seq![
                UiActionView::Account("Microsoft login unavailable: set LUCENT_MS_CLIENT_ID"@),
                UiActionView::Status("Microsoft client ID missing"@),
                UiActionView::Log(
                    "Set environment variable LUCENT_MS_CLIENT_ID before launching Lucent."@,
                ),
            ],
        },
{
    let mut actions: Vec<UiAction> = Vec::new();
    assert(action_views(actions@) =~= seq![]);
    if let Some(id) = client_id {
        let trimmed = trim_text(id.as_str());
        if !trimmed.as_str().is_empty() {
            emit(&mut actions, UiAction::MicrosoftLogin(false));
            emit(&mut actions, UiAction::StartLogin(id));
            return actions;
        }
    }
    emit(
        &mut actions,
        UiAction::Account("Microsoft login unavailable: set LUCENT_MS_CLIENT_ID".to_owned()),
    );
    emit(&mut actions, UiAction::Status("Microsoft client ID missing".to_owned()));
    emit(
        &mut actions,
        UiAction::Log(
            "Set environment variable LUCENT_MS_CLIENT_ID before launching Lucent.".to_owned(),
        ),
    );
    actions
}

/// What happens at the start of the launcher with a stored session, given what
/// the keyring holds.
pub fn restore_at_start(client_id: String, token: Result<Option<String>, String>) -> (r: Vec<
    UiAction,
>)
    ensures
        action_views(r@) == match token {
            Ok(Some(refresh_token)) => seq![
                UiActionView::Log(
                    "Found stored Microsoft session; attempting automatic restore..."@,
                ),
                UiActionView::MicrosoftLogin(false),
                UiActionView::StartRestore {
                    client_id: client_id@,
                    refresh_token: refresh_token@,
                },
            ],
            Ok(None) => seq![],
            Err(error) => seq![
                UiActionView::Log("[WARN] Could not read keyring token: "@ + error@),
            ],
        },
{
    let mut actions: Vec<UiAction> = Vec::new();
    assert(action_views(actions@) =~= seq![]);
    match token {
        Ok(Some(refresh_token)) => {
            emit(
                &mut actions,
                UiAction::Log(
                    "Found stored Microsoft session; attempting automatic restore...".to_owned(),
                ),
            );
            emit(&mut actions, UiAction::MicrosoftLogin(false));
            emit(&mut actions, UiAction::StartRestore { client_id, refresh_token });
        },
        Ok(None) => {},
        Err(error) => {
            emit(
                &mut actions,
                UiAction::Log(concat2("[WARN] Could not read keyring token: ", error.as_str())),
            );
        },
    }
    actions
}

proof fn lemma_without(list: Seq<Seq<char>>, gone: Seq<char>, other: Seq<char>)
    ensures
        !without(list, gone).contains(gone),
        other != gone ==> without(list, gone).contains(other) == list.contains(other),
    decreases list.len(),
{
    reveal(Seq::filter);
    let stays = |item: Seq<char>| item != gone;
    if list.len() > 0 {
        let shorter = list.drop_last();
        lemma_without(shorter, gone, other);
        let rest = without(shorter, gone);
        assert(list =~= shorter.push(list.last()));
        let all = without(list, gone);
        if list.last() == gone {
            assert(all == rest);
        } else {
            assert(all == rest.push(list.last()));
        }
        if list.contains(other) && other != gone {
            let i = choose|i: int| 0 <= i < list.len() && list[i] == other;
            if i < shorter.len() {
                assert(shorter[i] == other);
                let k = choose|k: int| 0 <= k < rest.len() && rest[k] == other;
                assert(all[k] == other);
            } else {
                assert(all[rest.len() as int] == other);
            }
        }
        if all.contains(other) && other != gone {
            let k = choose|k: int| 0 <= k < all.len() && all[k] == other;
            if k < rest.len() {
                assert(rest[k] == other);
                let i = choose|i: int| 0 <= i < shorter.len() && shorter[i] == other;
                assert(list[i] == other);
            } else {
                assert(list[list.len() - 1] == other);
            }
        }
        if all.contains(gone) {
            let k = choose|k: int| 0 <= k < all.len() && all[k] == gone;
            if k < rest.len() {
                assert(rest[k] == gone);
            }
        }
    }
}

/// The status stays `Game Running` until every running game has ended: neither the
/// end of another launch nor that of a second launch of the same profile changes
/// it.
pub proof fn law_status_stays_while_games_run(
    v: UiView,
    ended: Seq<char>,
    other: Seq<char>,
    status: Seq<char>,
    log: Option<Seq<char>>,
)
    requires
        other == ended ==> v.starting.contains(ended),
        v.running.contains(other),
    ensures
        after_end(v, ended, status, log).0.running.contains(other),
        !v.starting.contains(ended) ==> !after_end(v, ended, status, log).0.running.contains(ended),
        after_end(v, ended, status, log).1.contains(UiActionView::Status("Game Running"@)),
{
    lemma_without(v.running, ended, other);
    let (after, actions) = after_end(v, ended, status, log);
    assert(after.running.len() > 0);
    if log is Some {
        assert(actions[1] == UiActionView::Status("Game Running"@));
    } else {
        assert(actions[0] == UiActionView::Status("Game Running"@));
    }
}

/// A game that has started up runs, and is no longer being started; other games
/// are left alone.
pub proof fn law_ready_game_runs(v: UiView, profile_id: String, id: Seq<char>, other: Seq<char>)
    ensures
        ({
            let (after, actions) = dispatched(
                v,
                AppEvent::Launch(LaunchEvent::Ready { profile_id }),
                id,
            );
            &&& after.running.contains(profile_id@)
            &&& !after.starting.contains(profile_id@)
            &&& other != profile_id@ ==> after.running.contains(other) == v.running.contains(other)
            &&& actions[0] == UiActionView::Status("Game Running"@)
        }),
{
    lemma_without(v.starting, profile_id@, other);
    lemma_without(v.running, profile_id@, other);
    let kept = without(v.running, profile_id@);
    let after = with(v.running, profile_id@);
    assert(after[kept.len() as int] == profile_id@);
    if other != profile_id@ {
        if kept.contains(other) {
            let k = choose|k: int| 0 <= k < kept.len() && kept[k] == other;
            assert(after[k] == other);
        }
        if after.contains(other) {
            let k = choose|k: int| 0 <= k < after.len() && after[k] == other;
            assert(kept[k] == other);
        }
    }
}

/// Once the game versions are known every profile has one of them, there is a
/// profile, and no profile changes but in its game version.
pub proof fn law_profiles_have_known_versions(
    v: UiView,
    versions: Seq<Seq<char>>,
    id: Seq<char>,
    i: int,
)
    requires
        versions.len() > 0,
        0 <= i < after_versions(v, versions, id).0.profiles.len(),
    ensures
        after_versions(v, versions, id).0.profiles.len() > 0,
        versions.contains(after_versions(v, versions, id).0.profiles[i].version_id),
        v.profiles.len() > 0 ==> after_versions(v, versions, id).0.profiles[i] == (ProfileView {
            version_id: after_versions(v, versions, id).0.profiles[i].version_id,
            ..v.profiles[i]
        }),
{
    assert(versions.contains(versions[0]));
}

/// Only a profile with a known game version is launched, and only for a player
/// who is signed in.
pub proof fn law_only_known_versions_are_launched(v: UiView, at: int)
    ensures
        played(v, at).1 is Launch ==> v.session is Some && at < v.profiles.len()
            && v.versions.contains(v.profiles[at].version_id),
{
}

/// Which versions are offered: the releases of the list, in its order.
pub proof fn law_releases_are_offered(list: Seq<VersionEntry>, entry: VersionEntry)
    ensures
        releases(list, 0).len() == 0,
        entry.version_type@ == "release"@ ==> releases(list.push(entry), (list.len() + 1) as int)
            == releases(list, list.len() as int).push(entry.id@),
        entry.version_type@ != "release"@ ==> releases(list.push(entry), (list.len() + 1) as int)
            == releases(list, list.len() as int),
{
    lemma_releases_prefix(list, entry, list.len() as int);
}

proof fn lemma_releases_prefix(list: Seq<VersionEntry>, entry: VersionEntry, n: int)
    requires
        0 <= n <= list.len(),
    ensures
        releases(list.push(entry), n) == releases(list, n),
    decreases n,
{
    if n > 0 {
        lemma_releases_prefix(list, entry, n - 1);
        assert(list.push(entry)[n - 1] == list[n - 1]);
    }
}

/// When a game can be started: when a player is signed in, there is a profile, and no
/// game is being started.
pub proof fn law_signed_in_player_can_play(v: UiView)
    ensures
        can_play(v) <==> v.session is Some && v.profiles.len() > 0 && v.starting.len() == 0,
{
}

/// What happens to a list of profiles: one that is taken out is gone, one that is
/// added comes last and is there once. The others keep their order.
pub proof fn law_lists_hold_a_profile_once(list: Seq<Seq<char>>, id: Seq<char>, other: Seq<char>)
    ensures
        without(Seq::empty(), id).len() == 0,
        without(list.push(id), id) == without(list, id),
        other != id ==> without(list.push(other), id) == without(list, id).push(other),
        with(list, id) == without(list, id).push(id),
        !without(list, id).contains(id),
{
    reveal(Seq::filter);
    assert(list.push(id).drop_last() =~= list);
    assert(list.push(other).drop_last() =~= list);
    lemma_without(list, id, other);
}

/// What a click on the start button does. A player who is not signed in starts nothing;
/// neither does a profile that is not there. A profile whose game version is not known
/// is refused by name. Any other is launched with its own Java, and is being started
/// from then on.
pub proof fn law_click_launches_the_profile(v: UiView, at: int)
    requires
        0 <= at,
    ensures
        ({
            let (after, decision) = played(v, at);
            let ignored = v.session is None || at >= v.profiles.len();
            let p = v.profiles[at];
            &&& ignored <==> decision is Ignore
            &&& !ignored && !v.versions.contains(p.version_id) ==> after == v && decision
                == PlayView::Refuse(
                "Profile '"@ + p.name + "' references unsupported Minecraft version '"@
                    + p.version_id + "'. Open Profile Editor and choose a valid version."@,
            )
            &&& !ignored && v.versions.contains(p.version_id) ==> {
                &&& decision matches PlayView::Launch { at: launched, java_path, java_policy }
                &&& launched == at
                &&& p.java_binary matches Some(java) ==> java_path == java
                &&& p.java_binary is None ==> java_path.len() == 0
                &&& java_policy == launch::java_policy(p.java_auto_download)
                &&& after.starting == with(v.starting, p.id)
            }
            &&& after.session == v.session && after.profiles == v.profiles && after.versions
                == v.versions && after.running == v.running
            &&& !(decision is Launch) ==> after == v
        }),
{
    reveal_strlit("");
}

/// What becomes of the profiles once the versions are known: a profile keeps a version
/// that is known, and gets the first one in place of another. Where there is none, the
/// default profile is made. An empty list of versions changes nothing.
pub proof fn law_unknown_versions_are_replaced(
    v: UiView,
    versions: Seq<Seq<char>>,
    id: Seq<char>,
    i: int,
)
    ensures
        ({
            let after = after_versions(v, versions, id).0;
            &&& versions.len() == 0 ==> after == v
            &&& versions.len() > 0 ==> after.versions == versions && after.session == v.session
                && after.starting == v.starting && after.running == v.running
            &&& versions.len() > 0 && v.profiles.len() > 0 ==> after.profiles.len()
                == v.profiles.len()
            &&& versions.len() > 0 && 0 <= i < v.profiles.len() ==> {
                &&& versions.contains(v.profiles[i].version_id) ==> after.profiles[i]
                    == v.profiles[i]
                &&& !versions.contains(v.profiles[i].version_id) ==> after.profiles[i] == (
                ProfileView { version_id: versions[0], ..v.profiles[i] })
            }
            &&& versions.len() > 0 && v.profiles.len() == 0 ==> after.profiles == seq![
                ProfileView {
                    id,
                    name: "Default"@,
                    version_id: versions[0],
                    loader: ProfileLoader::Vanilla,
                    loader_version: profile::LoaderVersionView::LatestStable,
                    color_mode: profile::ProfileColorMode::Auto,
                    color_hex: None,
                    java_binary: None,
                    java_auto_download: true,
                    java_memory_mb: None,
                    java_args: None,
                },
            ]
        }),
{
}

proof fn lemma_outdated_lines(profiles: Seq<ProfileView>, versions: Seq<Seq<char>>, n: int)
    requires
        0 <= n <= profiles.len(),
    ensures
        outdated_lines(profiles, versions, n).len() == 0 <==> forall|i: int|
            0 <= i < n ==> versions.contains((#[trigger] profiles[i]).version_id),
    decreases n,
{
    if n > 0 {
        lemma_outdated_lines(profiles, versions, n - 1);
        if outdated_lines(profiles, versions, n).len() == 0 {
            assert(versions.contains(profiles[n - 1].version_id));
            assert forall|i: int| 0 <= i < n implies versions.contains(
                (#[trigger] profiles[i]).version_id,
            ) by {
                if i < n - 1 {
                    assert(versions.contains(profiles[i].version_id));
                }
            }
        } else if forall|i: int|
            0 <= i < n ==> versions.contains((#[trigger] profiles[i]).version_id) {
            assert(versions.contains(profiles[n - 1].version_id));
        }
    }
}

/// What is told about the versions: how many there are, and each profile that got
/// another one. The profiles are written to disk exactly where one of them changed or
/// was made.
pub proof fn law_changed_profiles_are_saved(v: UiView, versions: Seq<Seq<char>>, id: Seq<char>)
    requires
        versions.len() > 0,
    ensures
        ({
            let actions = after_versions(v, versions, id).1;
            let known = forall|i: int|
                0 <= i < v.profiles.len() ==> versions.contains(
                    (#[trigger] v.profiles[i]).version_id,
                );
            let n = actions.len() as int;
            &&& actions[n - 1] == UiActionView::Status(
                text::decimal(versions.len()) + " versions available"@,
            )
            &&& actions[n - 2] == UiActionView::RefreshProfiles("Default"@)
            &&& n > 2 <==> v.profiles.len() == 0 || !known
            &&& n > 2 ==> actions[n - 3] is SaveProfiles
        }),
        after_versions(v, Seq::empty(), id).1 == seq![
            UiActionView::Status("No versions available"@),
        ],
{
    lemma_outdated_lines(v.profiles, versions, v.profiles.len() as int);
    let lines = outdated_lines(v.profiles, versions, v.profiles.len() as int);
    let actions = after_versions(v, versions, id).1;
    if v.profiles.len() > 0 {
        if lines.len() > 0 {
            assert(actions.len() == lines.len() + 3);
        } else {
            assert(actions.len() == 2);
        }
    }
}

/// Each profile that gets another version is told by name, with both versions.
pub proof fn law_replaced_version_is_told(
    profiles: Seq<ProfileView>,
    versions: Seq<Seq<char>>,
    n: int,
)
    requires
        0 <= n < profiles.len(),
    ensures
        versions.contains(profiles[n].version_id) ==> outdated_lines(profiles, versions, n + 1)
            == outdated_lines(profiles, versions, n),
        !versions.contains(profiles[n].version_id) ==> outdated_lines(profiles, versions, n + 1)
            == outdated_lines(profiles, versions, n).push(
            UiActionView::Log(
                "[WARN] Profile '"@ + profiles[n].name + "' used unsupported version '"@
                    + profiles[n].version_id + "'; migrated to '"@ + versions[0] + "'"@,
            ),
        ),
        outdated_lines(profiles, versions, 0).len() == 0,
{
}

/// What the end of a launch changes: the profile is no longer being started, or its
/// game no longer runs where it was not being started. The status is that of the end
/// unless another game runs; the failure is logged; and the player can play again.
pub proof fn law_end_of_a_launch_is_shown(v: UiView, profile_id: String, error: String, id: Seq<char>)
    ensures
        ({
            let (after, actions) = dispatched(
                v,
                AppEvent::Launch(LaunchEvent::Finished { profile_id }),
                id,
            );
            &&& v.starting.contains(profile_id@) ==> after == (UiView {
                starting: without(v.starting, profile_id@),
                ..v
            })
            &&& !v.starting.contains(profile_id@) ==> after == (UiView {
                running: without(v.running, profile_id@),
                ..v
            })
            &&& actions == seq![
                UiActionView::Status(
                    if after.running.len() > 0 {
                        "Game Running"@
                    } else {
                        "Game Closed / Task Completed"@
                    },
                ),
                UiActionView::Play(can_play(after)),
                UiActionView::ShowProgress(after.starting.len() > 0),
            ]
            &&& dispatched(v, AppEvent::Launch(LaunchEvent::Failed { profile_id, error }), id) == (
                after,
                seq![
                    UiActionView::Log("[ERROR] "@ + error@),
                    UiActionView::Status(
                        if after.running.len() > 0 {
                            "Game Running"@
                        } else {
                            "Execution Error!"@
                        },
                    ),
                    UiActionView::Play(can_play(after)),
                    UiActionView::ShowProgress(after.starting.len() > 0),
                ],
            )
        }),
{
    let after = without_launch(v, profile_id@);
    let finished = dispatched(v, AppEvent::Launch(LaunchEvent::Finished { profile_id }), id).1;
    assert(finished =~= seq![
        UiActionView::Status(running_status(after, "Game Closed / Task Completed"@)),
        UiActionView::Play(can_play(after)),
        UiActionView::ShowProgress(after.starting.len() > 0),
    ]);
    let failed = dispatched(v, AppEvent::Launch(LaunchEvent::Failed { profile_id, error }), id).1;
    assert(failed =~= seq![
        UiActionView::Log("[ERROR] "@ + error@),
        UiActionView::Status(running_status(after, "Execution Error!"@)),
        UiActionView::Play(can_play(after)),
        UiActionView::ShowProgress(after.starting.len() > 0),
    ]);
}

/// A game that is ready runs and is no longer being started; whether another can be
/// started and whether progress shows depends on what is still being started.
pub proof fn law_ready_game_is_shown(v: UiView, profile_id: String, id: Seq<char>)
    ensures
        ({
            let (after, actions) = dispatched(
                v,
                AppEvent::Launch(LaunchEvent::Ready { profile_id }),
                id,
            );
            &&& after == (UiView {
                starting: without(v.starting, profile_id@),
                running: without(v.running, profile_id@).push(profile_id@),
                ..v
            })
            &&& actions == seq![
                UiActionView::Status("Game Running"@),
                UiActionView::Play(
                    v.session is Some && v.profiles.len() > 0 && after.starting.len() == 0,
                ),
                UiActionView::ShowProgress(after.starting.len() > 0),
            ]
        }),
{
}

/// A player who signed in has the session that was granted, and can play where there
/// is a profile. A sign-in that failed changes nothing but what is shown.
pub proof fn law_sign_in_is_shown(
    v: UiView,
    username: String,
    uuid: String,
    access_token: String,
    refresh_token: String,
    error: String,
    id: Seq<char>,
)
    ensures
        ({
            let (after, actions) = dispatched(
                v,
                AppEvent::Auth(
                    AuthEvent::MicrosoftSuccess { username, uuid, access_token, refresh_token },
                ),
                id,
            );
            &&& after == (UiView {
                session: Some(
                    SessionView::Microsoft {
                        username: username@,
                        uuid: uuid@,
                        access_token: access_token@,
                        refresh_token: refresh_token@,
                    },
                ),
                ..v
            })
            &&& actions.contains(UiActionView::Play(v.profiles.len() > 0))
            &&& actions.contains(UiActionView::SignOut(true))
            &&& actions.contains(UiActionView::MicrosoftLogin(true))
            &&& actions.contains(UiActionView::Welcome("Hello, "@ + username@))
            &&& actions.contains(
                UiActionView::Account("Signed in with Microsoft as "@ + username@),
            )
            &&& actions.contains(UiActionView::Status("Launcher Ready (Online)"@))
            &&& actions.contains(UiActionView::ShowHome) && actions.contains(
                UiActionView::RenderHome,
            )
        }),
        dispatched(v, AppEvent::Auth(AuthEvent::MicrosoftFailed(error)), id) == (
            v,
            seq![
                UiActionView::Status("Microsoft sign-in failed"@),
                UiActionView::Log("[ERROR] "@ + error@),
                UiActionView::Account("Not signed in"@),
                UiActionView::MicrosoftLogin(true),
            ],
        ),
{
    let actions = dispatched(
        v,
        AppEvent::Auth(AuthEvent::MicrosoftSuccess { username, uuid, access_token, refresh_token }),
        id,
    ).1;
    assert(actions[0] == UiActionView::Welcome("Hello, "@ + username@));
    assert(actions[1] == UiActionView::Account("Signed in with Microsoft as "@ + username@));
    assert(actions[2] == UiActionView::Status("Launcher Ready (Online)"@));
    assert(actions[3] == UiActionView::Play(v.profiles.len() > 0));
    assert(actions[4] == UiActionView::SignOut(true));
    assert(actions[5] == UiActionView::MicrosoftLogin(true));
    assert(actions[6] == UiActionView::ShowHome);
    assert(actions[7] == UiActionView::RenderHome);
}

/// A player without an account signs in with a name: what was entered without its
/// outer white space. Without a name nobody signs in. Signing out ends the session and
/// forgets the stored token.
pub proof fn law_offline_player_needs_a_name(v: UiView, entered: Seq<char>)
    ensures
        ({
            let username = text::trim(entered);
            let (after, actions) = signed_in_offline(v, entered);
            &&& username.len() == 0 ==> after == v && actions == seq![
                UiActionView::Account("Enter a username to sign in"@),
            ]
            &&& username.len() > 0 ==> after == (UiView {
                session: Some(SessionView::Offline { username }),
                ..v
            }) && actions == seq![
                UiActionView::Welcome("Hello, "@ + username),
                UiActionView::Status("Launcher Ready (Offline)"@),
                UiActionView::Account("Signed in offline as "@ + username),
                UiActionView::Play(v.profiles.len() > 0),
                UiActionView::SignOut(true),
                UiActionView::ShowHome,
                UiActionView::RenderHome,
            ]
        }),
        signed_out(v).0 == (UiView { session: None, ..v }),
        signed_out(v).1.contains(UiActionView::ClearToken),
        signed_out(v).1.contains(UiActionView::Play(false)),
        signed_out(v).1.contains(UiActionView::SignOut(false)),
        signed_out(v).1.contains(UiActionView::MicrosoftLogin(true)),
        signed_out(v).1.contains(UiActionView::ShowAccount),
        signed_out(v).1.contains(UiActionView::RenderHome),
        signed_out(v).1.contains(UiActionView::Account("Not signed in"@)),
        signed_out(v).1.contains(UiActionView::Welcome("Not signed in"@)),
        signed_out(v).1.contains(UiActionView::Status("Please log in"@)),
{
    let actions = signed_out(v).1;
    assert(actions[0] == UiActionView::Welcome("Not signed in"@));
    assert(actions[1] == UiActionView::Status("Please log in"@));
    assert(actions[2] == UiActionView::Account("Not signed in"@));
    assert(actions[3] == UiActionView::Play(false));
    assert(actions[4] == UiActionView::SignOut(false));
    assert(actions[5] == UiActionView::MicrosoftLogin(true));
    assert(actions[6] == UiActionView::ShowAccount);
    assert(actions[7] == UiActionView::ClearToken);
    assert(actions[8] == UiActionView::RenderHome);
}

/// What events only tell is shown as it is, and changes nothing else: log lines, the
/// status, addresses, progress and failures.
pub proof fn law_told_events_are_shown(v: UiView, event: AppEvent, id: Seq<char>)
    ensures
        event matches AppEvent::Log(line) ==> dispatched(v, event, id) == (
            v,
            seq![UiActionView::Log(line@)],
        ),
        event matches AppEvent::StatusUpdate(status) ==> dispatched(v, event, id) == (
            v,
            seq![UiActionView::Status(status@)],
        ),
        event matches AppEvent::OpenUrl(address) ==> dispatched(v, event, id) == (
            v,
            seq![UiActionView::OpenUrl(address@)],
        ),
        event matches AppEvent::Versions(VersionsEvent::Loaded(versions)) ==> dispatched(
            v,
            event,
            id,
        ) == after_versions(v, text::texts(versions@), id),
        event matches AppEvent::Versions(VersionsEvent::Failed(error)) ==> dispatched(v, event, id)
            == (
            v,
            seq![
                UiActionView::Status("Execution Error!"@),
                UiActionView::Log("[ERROR] "@ + error@),
            ],
        ),
        event matches AppEvent::Launch(LaunchEvent::Progress(progress)) ==> dispatched(v, event, id)
            == (v, seq![UiActionView::Progress(progress@)]),
        event matches AppEvent::Discovery(DiscoveryEvent::ActionFailed { error, .. })
            ==> dispatched(v, event, id) == (
            v,
            seq![
                UiActionView::Status("Execution Error!"@),
                UiActionView::Log("[ERROR] "@ + error@),
            ],
        ),
{
}

/// What is found, installed and changed is shown for its kind: results with their
/// number and what was asked for, the place of an installed file, and the content that
/// has to be listed again.
pub proof fn law_content_events_are_shown(v: UiView, event: AppEvent, id: Seq<char>)
    ensures
        event matches AppEvent::Discovery(DiscoveryEvent::SearchResults { kind, query, results })
            ==> dispatched(v, event, id) == (
            v,
            seq![
                UiActionView::Results { kind, cards: discovery::card_views(results@) },
                UiActionView::ResultsStatus {
                    kind,
                    label: text::decimal(results@.len()) + " result(s) for '"@ + query@ + "'"@,
                },
            ],
        ),
        event matches AppEvent::Discovery(DiscoveryEvent::SearchFailed { kind, error }) ==> {
            let (after, actions) = dispatched(v, event, id);
            &&& after == v && actions.len() == 2
            &&& actions[0] == UiActionView::ResultsStatus {
                kind,
                label: if kind == DiscoveryKind::Mods {
                    "Modrinth search failed for mods"@
                } else {
                    "Modrinth search failed for shaders"@
                },
            }
            &&& actions[1] == UiActionView::Log(
                "[ERROR] "@ + discovery::kind_label(kind) + " search failed: "@ + error@,
            )
        },
        event matches AppEvent::Discovery(
            DiscoveryEvent::InstallFinished { kind, title, target_path },
        ) ==> dispatched(v, event, id) == (
            v,
            seq![
                UiActionView::Status(discovery::kind_label(kind) + " installed"@),
                UiActionView::Log("Installed '"@ + title@ + "' to "@ + target_path@),
                UiActionView::RefreshInstalled(kind),
            ],
        ),
        event matches AppEvent::Discovery(DiscoveryEvent::InstalledChanged(kind)) ==> dispatched(
            v,
            event,
            id,
        ) == (v, seq![UiActionView::RefreshInstalled(kind)]),
{
}

} // verus!
