//! Events that workers hand to the user interface.

use vstd::prelude::*;

use crate::discovery;
use crate::discovery::{CardView, DiscoveryCardData, DiscoveryKind};
use crate::progress::{LaunchProgress, ProgressView};
use crate::text;

verus! {

/// An event for the user interface.
#[derive(Debug)]
pub enum AppEvent {
    /// A line for the log.
    Log(String),
    /// A text for the status bar.
    StatusUpdate(String),
    /// An address to open in the browser.
    OpenUrl(String),
    /// Something about game versions.
    Versions(VersionsEvent),
    /// Something about signing in.
    Auth(AuthEvent),
    /// Something about a launch.
    Launch(LaunchEvent),
    /// Something about content.
    Discovery(DiscoveryEvent),
}

/// An event about game versions.
#[derive(Debug)]
pub enum VersionsEvent {
    /// The versions that exist.
    Loaded(Vec<String>),
    /// Why they are not known.
    Failed(String),
}

/// An event about signing in.
#[derive(Debug)]
pub enum AuthEvent {
    /// The player is signed in.
    MicrosoftSuccess {
        /// The player's name.
        username: String,
        /// The player's identifier.
        uuid: String,
        /// The game session's access token.
        access_token: String,
        /// The token that renews the session.
        refresh_token: String,
    },
    /// Why the player is not signed in.
    MicrosoftFailed(String),
}

/// An event about a launch.
#[derive(Debug)]
pub enum LaunchEvent {
    /// How far the preparation is.
    Progress(LaunchProgress),
    /// The game has started up.
    Ready {
        /// The profile.
        profile_id: String,
    },
    /// The game has ended.
    Finished {
        /// The profile.
        profile_id: String,
    },
    /// The launch failed.
    Failed {
        /// The profile.
        profile_id: String,
        /// Why it failed.
        error: String,
    },
}

/// An event about content.
#[derive(Debug)]
pub enum DiscoveryEvent {
    /// An action failed.
    ActionFailed {
        /// The kind of content.
        kind: DiscoveryKind,
        /// Why it failed.
        error: String,
    },
    /// What a search found.
    SearchResults {
        /// The kind of content.
        kind: DiscoveryKind,
        /// What was searched for.
        query: String,
        /// What was found.
        results: Vec<DiscoveryCardData>,
    },
    /// A search failed.
    SearchFailed {
        /// The kind of content.
        kind: DiscoveryKind,
        /// Why it failed.
        error: String,
    },
    /// Content was installed.
    InstallFinished {
        /// The kind of content.
        kind: DiscoveryKind,
        /// The content's title.
        title: String,
        /// The file that it was installed as.
        target_path: String,
    },
    /// Installed content changed.
    InstalledChanged(DiscoveryKind),
}

/// An event as plain values.
pub enum EventView {
    Log(Seq<char>),
    StatusUpdate(Seq<char>),
    OpenUrl(Seq<char>),
    VersionsLoaded(Seq<Seq<char>>),
    VersionsFailed(Seq<char>),
    SignedIn {
        username: Seq<char>,
        uuid: Seq<char>,
        access_token: Seq<char>,
        refresh_token: Seq<char>,
    },
    SignInFailed(Seq<char>),
    Progress(ProgressView),
    Ready { profile_id: Seq<char> },
    Finished { profile_id: Seq<char> },
    Failed { profile_id: Seq<char>, error: Seq<char> },
    ActionFailed { kind: DiscoveryKind, error: Seq<char> },
    SearchResults { kind: DiscoveryKind, query: Seq<char>, results: Seq<CardView> },
    SearchFailed { kind: DiscoveryKind, error: Seq<char> },
    InstallFinished { kind: DiscoveryKind, title: Seq<char>, target_path: Seq<char> },
    InstalledChanged(DiscoveryKind),
}

impl View for AppEvent {
    type V = EventView;

    open spec fn view(&self) -> EventView {
        match *self {
            AppEvent::Log(line) => EventView::Log(line@),
            AppEvent::StatusUpdate(status) => EventView::StatusUpdate(status@),
            AppEvent::OpenUrl(address) => EventView::OpenUrl(address@),
            AppEvent::Versions(VersionsEvent::Loaded(versions)) => EventView::VersionsLoaded(
                text::texts(versions@),
            ),
            AppEvent::Versions(VersionsEvent::Failed(error)) => EventView::VersionsFailed(error@),
            AppEvent::Auth(
                AuthEvent::MicrosoftSuccess { username, uuid, access_token, refresh_token },
            ) => EventView::SignedIn {
                username: username@,
                uuid: uuid@,
                access_token: access_token@,
                refresh_token: refresh_token@,
            },
            AppEvent::Auth(AuthEvent::MicrosoftFailed(error)) => EventView::SignInFailed(error@),
            AppEvent::Launch(LaunchEvent::Progress(progress)) => EventView::Progress(progress@),
            AppEvent::Launch(LaunchEvent::Ready { profile_id }) => EventView::Ready {
                profile_id: profile_id@,
            },
            AppEvent::Launch(LaunchEvent::Finished { profile_id }) => EventView::Finished {
                profile_id: profile_id@,
            },
            AppEvent::Launch(LaunchEvent::Failed { profile_id, error }) => EventView::Failed {
                profile_id: profile_id@,
                error: error@,
            },
            AppEvent::Discovery(DiscoveryEvent::ActionFailed { kind, error }) =>
                EventView::ActionFailed { kind, error: error@ },
            AppEvent::Discovery(DiscoveryEvent::SearchResults { kind, query, results }) =>
                EventView::SearchResults {
                kind,
                query: query@,
                results: discovery::card_views(results@),
            },
            AppEvent::Discovery(DiscoveryEvent::SearchFailed { kind, error }) =>
                EventView::SearchFailed { kind, error: error@ },
            AppEvent::Discovery(DiscoveryEvent::InstallFinished { kind, title, target_path }) =>
                EventView::InstallFinished { kind, title: title@, target_path: target_path@ },
            AppEvent::Discovery(DiscoveryEvent::InstalledChanged(kind)) =>
                EventView::InstalledChanged(kind),
        }
    }
}

/// Events as plain values.
pub open spec fn event_views(events: Seq<AppEvent>) -> Seq<EventView> {
    events.map_values(|event: AppEvent| event@)
}

impl AppEvent {
    /// Game versions are known.
    pub fn versions_loaded(versions: Vec<String>) -> (r: Self)
        ensures
            r == AppEvent::Versions(VersionsEvent::Loaded(versions)),
    {
        AppEvent::Versions(VersionsEvent::Loaded(versions))
    }

    /// Game versions are not known.
    pub fn versions_failed(error: String) -> (r: Self)
        ensures
            r == AppEvent::Versions(VersionsEvent::Failed(error)),
    {
        AppEvent::Versions(VersionsEvent::Failed(error))
    }

    /// Signing in failed.
    pub fn auth_failed(error: String) -> (r: Self)
        ensures
            r == AppEvent::Auth(AuthEvent::MicrosoftFailed(error)),
    {
        AppEvent::Auth(AuthEvent::MicrosoftFailed(error))
    }

    /// The player is signed in.
    pub fn auth_success(
        username: String,
        uuid: String,
        access_token: String,
        refresh_token: String,
    ) -> (r: Self)
        ensures
            r == AppEvent::Auth(
                AuthEvent::MicrosoftSuccess { username, uuid, access_token, refresh_token },
            ),
    {
        AppEvent::Auth(AuthEvent::MicrosoftSuccess { username, uuid, access_token, refresh_token })
    }

    /// The game of a profile has ended.
    pub fn launch_finished(profile_id: String) -> (r: Self)
        ensures
            r == AppEvent::Launch(LaunchEvent::Finished { profile_id }),
    {
        AppEvent::Launch(LaunchEvent::Finished { profile_id })
    }

    /// The game of a profile has started up.
    pub fn launch_ready(profile_id: String) -> (r: Self)
        ensures
            r == AppEvent::Launch(LaunchEvent::Ready { profile_id }),
    {
        AppEvent::Launch(LaunchEvent::Ready { profile_id })
    }

    /// The launch of a profile failed.
    pub fn launch_failed(profile_id: String, error: String) -> (r: Self)
        ensures
            r == AppEvent::Launch(LaunchEvent::Failed { profile_id, error }),
    {
        AppEvent::Launch(LaunchEvent::Failed { profile_id, error })
    }

    /// An action on content failed.
    pub fn discovery_failed(kind: DiscoveryKind, error: String) -> (r: Self)
        ensures
            r == AppEvent::Discovery(DiscoveryEvent::ActionFailed { kind, error }),
    {
        AppEvent::Discovery(DiscoveryEvent::ActionFailed { kind, error })
    }

    /// A search found content.
    pub fn discovery_search_results(
        kind: DiscoveryKind,
        query: String,
        results: Vec<DiscoveryCardData>,
    ) -> (r: Self)
        ensures
            r == AppEvent::Discovery(DiscoveryEvent::SearchResults { kind, query, results }),
    {
        AppEvent::Discovery(DiscoveryEvent::SearchResults { kind, query, results })
    }

    /// A search failed.
    pub fn discovery_search_failed(kind: DiscoveryKind, error: String) -> (r: Self)
        ensures
            r == AppEvent::Discovery(DiscoveryEvent::SearchFailed { kind, error }),
    {
        AppEvent::Discovery(DiscoveryEvent::SearchFailed { kind, error })
    }

    /// Content was installed.
    pub fn discovery_install_finished(
        kind: DiscoveryKind,
        title: String,
        target_path: String,
    ) -> (r: Self)
        ensures
            r == AppEvent::Discovery(DiscoveryEvent::InstallFinished { kind, title, target_path }),
    {
        AppEvent::Discovery(DiscoveryEvent::InstallFinished { kind, title, target_path })
    }

    /// Installed content changed.
    pub fn discovery_installed_changed(kind: DiscoveryKind) -> (r: Self)
        ensures
            r == AppEvent::Discovery(DiscoveryEvent::InstalledChanged(kind)),
    {
        AppEvent::Discovery(DiscoveryEvent::InstalledChanged(kind))
    }
}

} // verus!
