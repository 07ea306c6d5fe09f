//! Application data: identifiers, the profile document, and where both live.

use vstd::prelude::*;
use vstd::string::*;

use crate::json;
use crate::json::{is_json_array, read_json};
use crate::path;
use crate::path::join_path;
use crate::profile::LauncherProfile;
use crate::text;
use crate::text::{decimal_text, hexadecimal_text, trim_text};

verus! {

/// The newest form of the profile document.
pub const PROFILE_SCHEMA_VERSION: u32 = 1;

/// The identifier made of a point in time and a counter.
pub open spec fn profile_id(timestamp: u128, counter: u64) -> Seq<char> {
    "profile-"@ + text::hexadecimal(timestamp as nat) + "-"@ + text::hexadecimal(counter as nat)
}

/// Makes profile identifiers. The counter tells apart identifiers made during
/// one clock tick.
#[derive(Debug)]
pub struct ProfileIds {
    counter: u64,
}

/// The number after `n`, or zero after the largest.
pub open spec fn wrapping_next(n: u64) -> u64 {
    if n < u64::MAX {
        (n + 1) as u64
    } else {
        0
    }
}

impl ProfileIds {
    /// The counter of the next identifier.
    pub closed spec fn counter(&self) -> u64 {
        self.counter
    }

    /// A source of identifiers that made none yet.
    pub fn new() -> (r: Self)
        ensures
            r.counter() == 0,
    {
        ProfileIds { counter: 0 }
    }

    /// A new identifier; `timestamp` is the time in nanoseconds since 1970.
    pub fn new_profile_id(&mut self, timestamp: u128) -> (r: String)
        ensures
            r@ == profile_id(timestamp, old(self).counter()),
            final(self).counter() == wrapping_next(old(self).counter()),
    {
        let counter = self.counter;
        self.counter = counter.wrapping_add(1);
        let mut id = "profile-".to_owned();
        let time = hexadecimal_text(timestamp);
        id.append(time.as_str());
        id.append("-");
        let count = hexadecimal_text(counter as u128);
        id.append(count.as_str());
        id
    }
}

proof fn lemma_hexadecimal_digits(n: nat)
    ensures
        text::hexadecimal(n).len() >= 1,
        n >= 16 ==> text::hexadecimal(n).len() >= 2,
        forall|i: int|
            0 <= i < text::hexadecimal(n).len() ==> #[trigger] text::hexadecimal(n)[i] != '-',
    decreases n,
{
    if n >= 16 {
        lemma_hexadecimal_digits(n / 16);
    }
}

proof fn lemma_hexadecimal_injective(a: nat, b: nat)
    requires
        text::hexadecimal(a) == text::hexadecimal(b),
    ensures
        a == b,
    decreases a,
{
    lemma_hexadecimal_digits(a);
    lemma_hexadecimal_digits(b);
    let x = text::hexadecimal(a);
    let y = text::hexadecimal(b);
    assert(x.last() == y.last());
    if a < 16 {
        assert(b < 16);
        assert(text::digit_char(a) == text::digit_char(b));
    } else {
        assert(b >= 16);
        assert(x.drop_last() =~= text::hexadecimal(a / 16));
        assert(y.drop_last() =~= text::hexadecimal(b / 16));
        lemma_hexadecimal_injective(a / 16, b / 16);
        assert(text::digit_char(a % 16) == text::digit_char(b % 16));
    }
}

/// Identifiers are distinct: two of them agree only if they were made of the
/// same time and the same counter.
pub proof fn law_profile_ids_are_distinct(
    time_a: u128,
    counter_a: u64,
    time_b: u128,
    counter_b: u64,
)
    requires
        time_a != time_b || counter_a != counter_b,
    ensures
        profile_id(time_a, counter_a) != profile_id(time_b, counter_b),
{
    if profile_id(time_a, counter_a) == profile_id(time_b, counter_b) {
        reveal_strlit("-");
        let head = "profile-"@;
        let ta = text::hexadecimal(time_a as nat);
        let tb = text::hexadecimal(time_b as nat);
        let ca = text::hexadecimal(counter_a as nat);
        let cb = text::hexadecimal(counter_b as nat);
        lemma_hexadecimal_digits(time_a as nat);
        lemma_hexadecimal_digits(time_b as nat);
        let a = head + ta + "-"@ + ca;
        let b = head + tb + "-"@ + cb;
        let n = head.len() as int;
        if ta.len() < tb.len() {
            assert(a[n + ta.len()] == '-');
            assert(b[n + ta.len()] == tb[ta.len() as int]);
            assert(false);
        }
        if tb.len() < ta.len() {
            assert(b[n + tb.len()] == '-');
            assert(a[n + tb.len()] == ta[tb.len() as int]);
            assert(false);
        }
        assert(a.subrange(n, n + ta.len()) =~= ta);
        assert(b.subrange(n, n + tb.len()) =~= tb);
        assert(a.skip(n + ta.len() + 1) =~= ca);
        assert(b.skip(n + tb.len() + 1) =~= cb);
        lemma_hexadecimal_injective(time_a as nat, time_b as nat);
        lemma_hexadecimal_injective(counter_a as nat, counter_b as nat);
    }
}

/// The versioned profile document.
#[derive(Debug, Clone, PartialEq, Eq)]
pub struct ProfilesDocument {
    /// The document's form.
    pub schema_version: u32,
    /// The profiles.
    pub profiles: Vec<LauncherProfile>,
}

/// The form of a profile file.
#[derive(Debug, Clone, Copy, PartialEq, Eq, Structural)]
pub enum ProfilesFormat {
    /// A bare array of profiles.
    Legacy,
    /// A versioned document.
    Versioned,
}

/// Why the text of a profile file cannot be read.
#[derive(Debug)]
pub enum DocumentError {
    /// The text is no JSON document.
    Malformed(serde_json::Error),
}

/// The form of a profile file: an array is the older form.
pub open spec fn format_of(is_array: bool) -> ProfilesFormat {
    if is_array {
        ProfilesFormat::Legacy
    } else {
        ProfilesFormat::Versioned
    }
}

/// The form of the document.
pub fn profiles_format(document: &serde_json::Value) -> (r: ProfilesFormat)
    ensures
        r == format_of(json::json_is_array(*document)),
{
    if is_json_array(document) {
        ProfilesFormat::Legacy
    } else {
        ProfilesFormat::Versioned
    }
}

/// Reads the text of a profile file, and tells its form.
pub fn read_profiles_document(content: &str) -> (r: Result<
    (ProfilesFormat, serde_json::Value),
    DocumentError,
>)
    ensures
        match json::parsed_json(content@) {
            Some((is_array, strings)) => {
                &&& r matches Ok((format, document))
                &&& format == format_of(is_array)
                &&& json::json_is_array(document) == is_array
                &&& json::json_strings(document) == strings
            },
            None => r is Err,
        },
{
    match read_json(content) {
        Ok(document) => Ok((profiles_format(&document), document)),
        Err(error) => Err(DocumentError::Malformed(error)),
    }
}

/// What a profile file holds.
#[derive(Debug, PartialEq, Eq)]
pub enum StoredProfiles {
    /// A bare array of profiles.
    Legacy(Vec<LauncherProfile>),
    /// A versioned document.
    Versioned(ProfilesDocument),
}

/// Why a profile file is refused.
#[derive(Debug, Clone, Copy, PartialEq, Eq, Structural)]
pub enum StorageError {
    /// The document has a newer form.
    UnsupportedSchema {
        /// The form that it has.
        version: u32,
    },
}

impl StorageError {
    /// What is said about the file at `path`.
    pub fn message(&self, path: &str) -> (r: String)
        ensures
            r@ == match *self {
                StorageError::UnsupportedSchema { version } => "profile document "@ + path@
                    + " uses unsupported schema version "@ + text::decimal(version as nat),
            },
    {
        match self {
            StorageError::UnsupportedSchema { version } => {
                let mut message = "profile document ".to_owned();
                message.append(path);
                message.append(" uses unsupported schema version ");
                let number = decimal_text(*version as u128);
                message.append(number.as_str());
                message
            },
        }
    }
}

/// Profiles that were read, and whether the file has to be written anew.
#[derive(Debug, PartialEq, Eq)]
pub struct LoadedProfiles {
    /// The profiles.
    pub profiles: Vec<LauncherProfile>,
    /// Whether the file has an older form or identifiers were added.
    pub rewrite: bool,
}

/// How many of the first `n` profiles have no identifier.
pub open spec fn unidentified(profiles: Seq<LauncherProfile>, n: int) -> nat
    decreases n,
{
    if n <= 0 {
        0
    } else {
        unidentified(profiles, n - 1) + if profiles[n - 1].id@.len() == 0 {
            1nat
        } else {
            0nat
        }
    }
}

/// The counter `steps` identifiers later.
pub open spec fn counter_after(start: u64, steps: nat) -> u64
    decreases steps,
{
    if steps == 0 {
        start
    } else {
        wrapping_next(counter_after(start, (steps - 1) as nat))
    }
}

/// Whether profile `i` kept its identifier or got one in place of an empty one,
/// and is otherwise as it was.
pub open spec fn identified_as(
    before: Seq<LauncherProfile>,
    after: Seq<LauncherProfile>,
    i: int,
    timestamp: u128,
    counter: u64,
) -> bool {
    if before[i].id@.len() == 0 {
        &&& after[i].id@ == profile_id(timestamp, counter_after(counter, unidentified(before, i)))
        &&& after[i] == LauncherProfile { id: after[i].id, ..before[i] }
    } else {
        after[i] == before[i]
    }
}

/// Whether `after` is what loading makes of the stored profiles `before`.
pub open spec fn loaded_from(
    before: Seq<LauncherProfile>,
    after: Seq<LauncherProfile>,
    timestamp: u128,
    counter: u64,
) -> bool {
    &&& after.len() == before.len()
    &&& forall|i: int|
        0 <= i < before.len() ==> #[trigger] identified_as(before, after, i, timestamp, counter)
}

/// Gives an identifier to each profile that has none, and says whether there was
/// one.
pub fn assign_missing_ids(
    profiles: &mut Vec<LauncherProfile>,
    ids: &mut ProfileIds,
    timestamp: u128,
) -> (r: bool)
    ensures
        loaded_from(old(profiles)@, final(profiles)@, timestamp, old(ids).counter()),
        r == (unidentified(old(profiles)@, old(profiles)@.len() as int) > 0),
        final(ids).counter() == counter_after(
            old(ids).counter(),
            unidentified(old(profiles)@, old(profiles)@.len() as int),
        ),
{
    let ghost before = profiles@;
    let ghost start = ids.counter();
    let mut generated = false;
    let mut i: usize = 0;
    while i < profiles.len()
        invariant
            before == old(profiles)@,
            start == old(ids).counter(),
            profiles@.len() == before.len(),
            i <= before.len(),
            ids.counter() == counter_after(start, unidentified(before, i as int)),
            generated == (unidentified(before, i as int) > 0),
            forall|j: int|
                0 <= j < i ==> #[trigger] identified_as(before, profiles@, j, timestamp, start),
            forall|j: int| i <= j < before.len() ==> profiles@[j] == #[trigger] before[j],
        decreases before.len() - i,
    {
        let ghost so_far = profiles@;
        assert(profiles@[i as int] == before[i as int]);
        if profiles[i].id.as_str().is_empty() {
            let id = ids.new_profile_id(timestamp);
            let mut profile = profiles.remove(i);
            profile.id = id;
            profiles.insert(i, profile);
            generated = true;
            assert(profiles@ =~= so_far.update(i as int, profile));
        }
        assert forall|j: int| 0 <= j <= i implies #[trigger] identified_as(
            before,
            profiles@,
            j,
            timestamp,
            start,
        ) by {
            if j < i {
                assert(identified_as(before, so_far, j, timestamp, start));
                assert(profiles@[j] == so_far[j]);
            }
        }
        i = i + 1;
    }
    generated
}

/// The profiles of a profile file.
pub open spec fn stored_profiles(stored: StoredProfiles) -> Seq<LauncherProfile> {
    match stored {
        StoredProfiles::Legacy(profiles) => profiles@,
        StoredProfiles::Versioned(document) => document.profiles@,
    }
}

/// The form of a profile file that is newer than the newest known one.
pub open spec fn refused_version(stored: StoredProfiles) -> Option<u32> {
    match stored {
        StoredProfiles::Versioned(document) => if document.schema_version
            > PROFILE_SCHEMA_VERSION {
            Some(document.schema_version)
        } else {
            None
        },
        StoredProfiles::Legacy(_) => None,
    }
}

/// Whether a profile file has to be written anew: it has the older form, or a
/// profile without an identifier.
pub open spec fn is_rewritten(stored: StoredProfiles) -> bool {
    stored is Legacy || unidentified(
        stored_profiles(stored),
        stored_profiles(stored).len() as int,
    ) > 0
}

/// Takes in what a profile file holds.
///
/// A document of a newer form is refused. Profiles without an identifier get
/// one. The file has to be written anew if it has the older form or identifiers
/// were added.
pub fn load_profiles(stored: StoredProfiles, ids: &mut ProfileIds, timestamp: u128) -> (r: Result<
    LoadedProfiles,
    StorageError,
>)
    ensures
        match refused_version(stored) {
            Some(version) => r == Err::<LoadedProfiles, StorageError>(
                StorageError::UnsupportedSchema { version },
            ) && final(ids).counter() == old(ids).counter(),
            None => {
                let before = stored_profiles(stored);
                &&& r matches Ok(loaded)
                &&& loaded_from(before, loaded.profiles@, timestamp, old(ids).counter())
                &&& loaded.rewrite == is_rewritten(stored)
                &&& final(ids).counter() == counter_after(
                    old(ids).counter(),
                    unidentified(before, before.len() as int),
                )
            },
        },
{
    let (legacy, profiles) = match stored {
        StoredProfiles::Legacy(profiles) => (true, profiles),
        StoredProfiles::Versioned(document) => {
            if document.schema_version > PROFILE_SCHEMA_VERSION {
                return Err(
                    StorageError::UnsupportedSchema { version: document.schema_version },
                );
            }
            (false, document.profiles)
        },
    };
    let mut profiles = profiles;
    let generated = assign_missing_ids(&mut profiles, ids, timestamp);
    Ok(LoadedProfiles { profiles, rewrite: legacy || generated })
}

/// The document that profiles are saved as.
pub fn profiles_document(profiles: Vec<LauncherProfile>) -> (r: ProfilesDocument)
    ensures
        r.schema_version == PROFILE_SCHEMA_VERSION,
        r.profiles == profiles,
{
    ProfilesDocument { schema_version: PROFILE_SCHEMA_VERSION, profiles }
}

proof fn lemma_unidentified_none(profiles: Seq<LauncherProfile>, n: int)
    requires
        n <= profiles.len(),
        forall|i: int| 0 <= i < profiles.len() ==> (#[trigger] profiles[i]).id@.len() > 0,
    ensures
        unidentified(profiles, n) == 0,
    decreases n,
{
    if n > 0 {
        lemma_unidentified_none(profiles, n - 1);
    }
}

proof fn lemma_counter_after(start: u64, steps: nat)
    requires
        steps <= u64::MAX,
    ensures
        counter_after(start, steps) == if start + steps <= u64::MAX {
            start + steps
        } else {
            start + steps - u64::MAX - 1
        },
    decreases steps,
{
    if steps > 0 {
        lemma_counter_after(start, (steps - 1) as nat);
    }
}

proof fn lemma_unidentified_grows(profiles: Seq<LauncherProfile>, i: int, j: int)
    requires
        0 <= i < j <= profiles.len(),
        profiles[i].id@.len() == 0,
    ensures
        unidentified(profiles, i) < unidentified(profiles, j) <= j,
    decreases j,
{
    lemma_unidentified_bound(profiles, i);
    if i < j - 1 {
        lemma_unidentified_grows(profiles, i, j - 1);
    }
}

proof fn lemma_unidentified_bound(profiles: Seq<LauncherProfile>, n: int)
    requires
        0 <= n <= profiles.len(),
    ensures
        unidentified(profiles, n) <= n,
    decreases n,
{
    if n > 0 {
        lemma_unidentified_bound(profiles, n - 1);
    }
}

/// Saving and loading gives the profiles back: a document that was saved is not
/// refused, and if each of its profiles has an identifier, what is loaded is what
/// was saved, and nothing has to be written.
pub proof fn law_saved_profiles_load_unchanged(
    document: ProfilesDocument,
    after: Seq<LauncherProfile>,
    timestamp: u128,
    counter: u64,
)
    requires
        document.schema_version == PROFILE_SCHEMA_VERSION,
        forall|i: int|
            0 <= i < document.profiles@.len() ==> (#[trigger] document.profiles@[i]).id@.len() > 0,
        loaded_from(document.profiles@, after, timestamp, counter),
    ensures
        refused_version(StoredProfiles::Versioned(document)) is None,
        after == document.profiles@,
        !is_rewritten(StoredProfiles::Versioned(document)),
{
    let before = document.profiles@;
    lemma_unidentified_none(before, before.len() as int);
    assert forall|i: int| 0 <= i < before.len() implies after[i] == before[i] by {
        assert(before[i].id@.len() > 0);
        assert(identified_as(before, after, i, timestamp, counter));
    }
    assert(after =~= before);
}

/// A profile file is brought up to date once: whatever was loaded first, the
/// document that it is saved as is loaded as it is, and is not written again.
pub proof fn law_profiles_are_upgraded_once(
    stored: StoredProfiles,
    first: Seq<LauncherProfile>,
    time: u128,
    counter: u64,
    document: ProfilesDocument,
    second: Seq<LauncherProfile>,
    later: u128,
    later_counter: u64,
)
    requires
        loaded_from(stored_profiles(stored), first, time, counter),
        document.schema_version == PROFILE_SCHEMA_VERSION,
        document.profiles@ == first,
        loaded_from(document.profiles@, second, later, later_counter),
    ensures
        second == first,
        !is_rewritten(StoredProfiles::Versioned(document)),
{
    assert forall|i: int| 0 <= i < first.len() implies (#[trigger] first[i]).id@.len() > 0 by {
        law_identifiers_are_stable(stored_profiles(stored), first, time, counter, i);
    }
    law_saved_profiles_load_unchanged(document, second, later, later_counter);
}

/// Loading keeps identities: a profile that has an identifier keeps it, and
/// every profile has one afterwards.
pub proof fn law_identifiers_are_stable(
    before: Seq<LauncherProfile>,
    after: Seq<LauncherProfile>,
    timestamp: u128,
    counter: u64,
    i: int,
)
    requires
        loaded_from(before, after, timestamp, counter),
        0 <= i < before.len(),
    ensures
        before[i].id@.len() > 0 ==> after[i].id == before[i].id,
        after[i].id@.len() > 0,
        after[i].name == before[i].name,
{
    assert(identified_as(before, after, i, timestamp, counter));
    reveal_strlit("profile-");
}

/// Identifiers that one loading adds are distinct.
pub proof fn law_added_identifiers_are_distinct(
    before: Seq<LauncherProfile>,
    after: Seq<LauncherProfile>,
    timestamp: u128,
    counter: u64,
    i: int,
    j: int,
)
    requires
        loaded_from(before, after, timestamp, counter),
        before.len() <= u64::MAX,
        0 <= i < j < before.len(),
        before[i].id@.len() == 0,
        before[j].id@.len() == 0,
    ensures
        after[i].id@ != after[j].id@,
{
    assert(identified_as(before, after, i, timestamp, counter));
    assert(identified_as(before, after, j, timestamp, counter));
    lemma_unidentified_bound(before, i);
    lemma_unidentified_grows(before, i, j);
    lemma_counter_after(counter, unidentified(before, i));
    lemma_counter_after(counter, unidentified(before, j));
    law_profile_ids_are_distinct(
        timestamp,
        counter_after(counter, unidentified(before, i)),
        timestamp,
        counter_after(counter, unidentified(before, j)),
    );
}

/// The name of the profile file.
pub open spec fn profiles_file(base: Seq<char>) -> Seq<char> {
    path::joined(base, "profiles.json"@)
}

/// The file in the base directory that holds the profiles.
pub fn profiles_file_path(base: &str) -> (r: String)
    ensures
        r@ == profiles_file(base@),
{
    join_path(base, "profiles.json")
}

/// The directory in the base directory that holds the game.
pub open spec fn minecraft_root(base: Seq<char>) -> Seq<char> {
    path::joined(base, ".minecraft"@)
}

/// The directory in the base directory that holds the game.
pub fn minecraft_root_dir(base: &str) -> (r: String)
    ensures
        r@ == minecraft_root(base@),
{
    join_path(base, ".minecraft")
}

/// The base directory that the user asks for, if the setting says one.
pub fn override_directory(setting: Option<&str>) -> (r: Option<String>)
    ensures
        text::opt_text(r) == match setting {
            Some(value) => text::trimmed(value@),
            None => None,
        },
{
    match setting {
        Some(value) => {
            let trimmed = trim_text(value);
            if trimmed.as_str().is_empty() {
                None
            } else {
                Some(trimmed)
            }
        },
        None => None,
    }
}

/// The base directory among the system's data directories: the local one, else
/// the shared one, else the working directory.
pub fn preferred_base(data_local: Option<&str>, data: Option<&str>, working: &str) -> (r: String)
    ensures
        r@ == path::joined(
            match (data_local, data) {
                (Some(local), _) => local@,
                (None, Some(shared)) => shared@,
                (None, None) => working@,
            },
            "lucent-launcher"@,
        ),
{
    match (data_local, data) {
        (Some(local), _) => join_path(local, "lucent-launcher"),
        (None, Some(shared)) => join_path(shared, "lucent-launcher"),
        (None, None) => join_path(working, "lucent-launcher"),
    }
}

/// What a base directory holds.
#[derive(Debug, Clone, Copy, PartialEq, Eq, Structural)]
pub struct BaseContents {
    /// The profile file is there.
    pub profiles: bool,
    /// The game directory is there.
    pub game: bool,
}

/// What is to be done to settle on a base directory.
#[derive(Debug, Clone, Copy, PartialEq, Eq, Structural)]
pub enum BaseAction {
    /// Copy the profile file from the working directory to the preferred one.
    CopyProfiles,
    /// Move the game directory from the working directory to the preferred one.
    MoveGame,
    /// Use the preferred directory.
    UsePreferred,
    /// Use the working directory.
    UseWorking,
}

/// Whether data has to move from the working directory: the preferred one holds
/// nothing yet.
pub open spec fn migrates(preferred: BaseContents, working: BaseContents) -> bool {
    !preferred.profiles && !preferred.game && (working.profiles || working.game)
}

/// What is to be done once the profile file is out of the way.
pub open spec fn after_profiles(working: BaseContents) -> BaseAction {
    if working.game {
        BaseAction::MoveGame
    } else {
        BaseAction::UsePreferred
    }
}

/// What is to be done first.
pub open spec fn first_base_step(preferred: BaseContents, working: BaseContents) -> BaseAction {
    if !migrates(preferred, working) {
        BaseAction::UsePreferred
    } else if working.profiles {
        BaseAction::CopyProfiles
    } else {
        after_profiles(working)
    }
}

/// What is to be done after an action that worked or did not: where data cannot be
/// moved, it stays in use where it is.
pub open spec fn next_base_step(
    action: BaseAction,
    succeeded: bool,
    working: BaseContents,
) -> BaseAction {
    match action {
        BaseAction::CopyProfiles => if succeeded {
            after_profiles(working)
        } else {
            BaseAction::UseWorking
        },
        BaseAction::MoveGame => if succeeded {
            BaseAction::UsePreferred
        } else {
            BaseAction::UseWorking
        },
        _ => action,
    }
}

/// The first action on the way to a base directory.
pub fn first_base_action(preferred: BaseContents, working: BaseContents) -> (r: BaseAction)
    ensures
        r == first_base_step(preferred, working),
{
    let migrating = !preferred.profiles && !preferred.game && (working.profiles || working.game);
    if !migrating {
        BaseAction::UsePreferred
    } else if working.profiles {
        BaseAction::CopyProfiles
    } else if working.game {
        BaseAction::MoveGame
    } else {
        BaseAction::UsePreferred
    }
}

/// The action that follows `action`, which succeeded or did not. Data that cannot
/// be moved stays in use where it is.
pub fn next_base_action(action: BaseAction, succeeded: bool, working: BaseContents) -> (r:
    BaseAction)
    ensures
        r == next_base_step(action, succeeded, working),
{
    match action {
        BaseAction::CopyProfiles => if !succeeded {
            BaseAction::UseWorking
        } else if working.game {
            BaseAction::MoveGame
        } else {
            BaseAction::UsePreferred
        },
        BaseAction::MoveGame => if succeeded {
            BaseAction::UsePreferred
        } else {
            BaseAction::UseWorking
        },
        BaseAction::UsePreferred => BaseAction::UsePreferred,
        BaseAction::UseWorking => BaseAction::UseWorking,
    }
}

/// Migration overwrites nothing: a file or directory is copied or moved only if
/// the working directory has it and the preferred one holds no data at all. Two
/// actions at most come before the decision.
pub proof fn law_migration_overwrites_nothing(
    preferred: BaseContents,
    working: BaseContents,
    first: bool,
    second: bool,
)
    ensures
        ({
            let one = first_base_step(preferred, working);
            let two = next_base_step(one, first, working);
            let three = next_base_step(two, second, working);
            &&& preferred.profiles || preferred.game ==> one == BaseAction::UsePreferred && two
                == one
            &&& one == BaseAction::CopyProfiles ==> working.profiles && !preferred.profiles
            &&& two != BaseAction::CopyProfiles && three != BaseAction::CopyProfiles
            &&& one == BaseAction::MoveGame || two == BaseAction::MoveGame ==> working.game
                && !preferred.game
            &&& three != BaseAction::MoveGame
        }),
{
}

/// A migration that fails falls back: whatever cannot be copied or moved, the
/// working directory, which still holds it, is used.
pub proof fn law_failed_migration_falls_back(
    preferred: BaseContents,
    working: BaseContents,
    first: bool,
    second: bool,
)
    ensures
        ({
            let one = first_base_step(preferred, working);
            let two = next_base_step(one, first, working);
            let three = next_base_step(two, second, working);
            let settled = one == BaseAction::UsePreferred;
            &&& !settled && !first ==> two == BaseAction::UseWorking && three == two
            &&& two == BaseAction::MoveGame && !second ==> three == BaseAction::UseWorking
            &&& three == BaseAction::UsePreferred || three == BaseAction::UseWorking
        }),
{
}

/// What an identifier is made of: the word `profile`, the time and the counter, both
/// in hexadecimal. The counter goes on by one and begins anew after the largest.
pub proof fn law_identifier_holds_time_and_counter(timestamp: u128, counter: u64)
    ensures
        profile_id(timestamp, counter) == "profile-"@ + text::hexadecimal(timestamp as nat)
            + seq!['-'] + text::hexadecimal(counter as nat),
        counter < u64::MAX ==> wrapping_next(counter) == counter + 1,
        counter == u64::MAX ==> wrapping_next(counter) == 0,
{
    reveal_strlit("-");
    assert("-"@ =~= seq!['-']);
}

/// What loading changes: profiles without an identifier get one made of the time, and
/// the counters follow each other in the order of the profiles. Nothing else changes.
pub proof fn law_loading_changes_only_missing_identifiers(
    before: Seq<LauncherProfile>,
    after: Seq<LauncherProfile>,
    timestamp: u128,
    counter: u64,
    i: int,
)
    requires
        loaded_from(before, after, timestamp, counter),
        0 <= i < before.len(),
        before.len() + counter <= u64::MAX,
    ensures
        after.len() == before.len(),
        before[i].id@.len() > 0 ==> after[i] == before[i],
        after[i] == (LauncherProfile { id: after[i].id, ..before[i] }),
        before[i].id@.len() == 0 ==> after[i].id@ == profile_id(
            timestamp,
            (counter + before.take(i).filter(
                |profile: LauncherProfile| profile.id@.len() == 0,
            ).len()) as u64,
        ),
{
    assert(identified_as(before, after, i, timestamp, counter));
    lemma_unidentified_bound(before, i);
    lemma_counter_after(counter, unidentified(before, i));
    lemma_unidentified_filter(before, i);
}

proof fn lemma_unidentified_filter(profiles: Seq<LauncherProfile>, n: int)
    requires
        0 <= n <= profiles.len(),
    ensures
        unidentified(profiles, n) == profiles.take(n).filter(
            |profile: LauncherProfile| profile.id@.len() == 0,
        ).len(),
    decreases n,
{
    reveal(Seq::filter);
    if n > 0 {
        lemma_unidentified_filter(profiles, n - 1);
        assert(profiles.take(n).drop_last() =~= profiles.take(n - 1));
    }
}

/// Which files are refused: versioned documents of a form newer than the first one.
/// All others are read, whatever their form.
pub proof fn law_newer_documents_are_refused(stored: StoredProfiles)
    ensures
        stored is Legacy ==> refused_version(stored) is None,
        stored matches StoredProfiles::Versioned(document) ==> {
            &&& document.schema_version > 1 ==> refused_version(stored) == Some(
                document.schema_version,
            )
            &&& document.schema_version <= 1 ==> refused_version(stored) is None
            &&& stored_profiles(stored) == document.profiles@
        },
        stored matches StoredProfiles::Legacy(profiles) ==> stored_profiles(stored) == profiles@,
{
}

/// Which files are written anew: arrays, which are the older form, and documents with
/// a profile that has no identifier. Others are left as they are.
pub proof fn law_old_files_are_written_anew(stored: StoredProfiles, is_array: bool)
    ensures
        stored is Legacy ==> is_rewritten(stored),
        stored is Versioned ==> (is_rewritten(stored) <==> exists|i: int|
            0 <= i < stored_profiles(stored).len() && (#[trigger] stored_profiles(
                stored,
            )[i]).id@.len() == 0),
        is_array ==> format_of(is_array) == ProfilesFormat::Legacy,
        !is_array ==> format_of(is_array) == ProfilesFormat::Versioned,
{
    let profiles = stored_profiles(stored);
    let n = profiles.len() as int;
    if exists|i: int| 0 <= i < profiles.len() && (#[trigger] profiles[i]).id@.len() == 0 {
        let i = choose|i: int| 0 <= i < profiles.len() && (#[trigger] profiles[i]).id@.len() == 0;
        lemma_unidentified_grows(profiles, i, n);
    } else {
        lemma_unidentified_none(profiles, n);
    }
}

/// Where data lies in a base directory: the profiles in `profiles.json`, the game in
/// `.minecraft`.
pub proof fn law_files_of_a_base_directory(base: Seq<char>)
    requires
        base.len() > 0,
        base.last() != '/',
    ensures
        profiles_file(base) == base + "/profiles.json"@,
        minecraft_root(base) == base + "/.minecraft"@,
{
    reveal_strlit("profiles.json");
    reveal_strlit("/profiles.json");
    reveal_strlit(".minecraft");
    reveal_strlit("/.minecraft");
    assert(profiles_file(base) =~= base + "/profiles.json"@);
    assert(minecraft_root(base) =~= base + "/.minecraft"@);
}

/// Data of the working directory moves to a preferred one that holds none: first the
/// profiles, then the game, each where it is there. If all of it worked, or nothing
/// had to move, the preferred directory is used.
pub proof fn law_data_moves_to_the_preferred_directory(working: BaseContents, preferred: BaseContents)
    ensures
        ({
            let one = first_base_step(preferred, working);
            let two = next_base_step(one, true, working);
            let three = next_base_step(two, true, working);
            &&& !preferred.profiles && !preferred.game ==> {
                &&& working.profiles ==> one == BaseAction::CopyProfiles
                &&& working.profiles && working.game ==> two == BaseAction::MoveGame
                &&& !working.profiles && working.game ==> one == BaseAction::MoveGame
            }
            &&& !working.profiles && !working.game ==> one == BaseAction::UsePreferred
            &&& three == BaseAction::UsePreferred
        }),
{
}

} // verus!
