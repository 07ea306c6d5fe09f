//! Who is signed in.

use vstd::prelude::*;
use vstd::string::*;

use crate::command::Account;
use crate::text;
use crate::text::trim_text;

verus! {

/// The player's session.
#[derive(Debug, PartialEq, Eq)]
pub enum Session {
    /// A local session.
    Offline {
        /// The player's name.
        username: String,
    },
    /// A session of a Microsoft account.
    Microsoft {
        /// The player's name.
        username: String,
        /// The player's identifier.
        uuid: String,
        /// The game session's access token.
        access_token: String,
        /// The token that renews the session.
        refresh_token: String,
    },
}

/// A session as plain values.
pub enum SessionView {
    Offline { username: Seq<char> },
    Microsoft {
        username: Seq<char>,
        uuid: Seq<char>,
        access_token: Seq<char>,
        refresh_token: Seq<char>,
    },
}

impl View for Session {
    type V = SessionView;

    open spec fn view(&self) -> SessionView {
        match *self {
            Session::Offline { username } => SessionView::Offline { username: username@ },
            Session::Microsoft { username, uuid, access_token, refresh_token } =>
                SessionView::Microsoft {
                username: username@,
                uuid: uuid@,
                access_token: access_token@,
                refresh_token: refresh_token@,
            },
        }
    }
}

/// The name of the player.
pub open spec fn player_name(session: SessionView) -> Seq<char> {
    match session {
        SessionView::Offline { username } => username,
        SessionView::Microsoft { username, .. } => username,
    }
}

impl Clone for Session {
    fn clone(&self) -> (r: Self)
        ensures
            r@ == self@,
    {
        match self {
            Session::Offline { username } => Session::Offline { username: username.clone() },
            Session::Microsoft { username, uuid, access_token, refresh_token } =>
                Session::Microsoft {
                username: username.clone(),
                uuid: uuid.clone(),
                access_token: access_token.clone(),
                refresh_token: refresh_token.clone(),
            },
        }
    }
}

impl Session {
    /// The name that is shown.
    pub fn display_name(&self) -> (r: &str)
        ensures
            r@ == player_name(self@),
    {
        match self {
            Session::Offline { username } => username.as_str(),
            Session::Microsoft { username, .. } => username.as_str(),
        }
    }

    /// The account that plays.
    pub fn launch_account(self) -> (r: Account)
        ensures
            match self {
                Session::Offline { username } => r == (Account::Offline { username }),
                Session::Microsoft { username, uuid, access_token, .. } => r == (
                Account::Microsoft { username, uuid, access_token }),
            },
    {
        match self {
            Session::Offline { username } => Account::offline(username),
            Session::Microsoft { username, uuid, access_token, refresh_token: _ } =>
                Account::Microsoft { username, uuid, access_token },
        }
    }
}

/// The refresh token that a keyring entry holds: none if the entry is missing or
/// blank.
pub fn load_saved_refresh_token(entry: Option<String>) -> (r: Option<String>)
    ensures
        r == match entry {
            Some(token) => if text::trim(token@).len() == 0 {
                None
            } else {
                Some(token)
            },
            None => None,
        },
{
    match entry {
        Some(token) => {
            let trimmed = trim_text(token.as_str());
            if trimmed.as_str().is_empty() {
                None
            } else {
                Some(token)
            }
        },
        None => None,
    }
}

/// The player is called by the name of the session, whatever kind it is.
pub proof fn law_player_has_the_name_of_the_session(
    username: Seq<char>,
    uuid: Seq<char>,
    access_token: Seq<char>,
    refresh_token: Seq<char>,
)
    ensures
        player_name(SessionView::Offline { username }) == username,
        player_name(
            SessionView::Microsoft { username, uuid, access_token, refresh_token },
        ) == username,
{
}

} // verus!
