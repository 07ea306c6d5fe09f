//! The profile editor: profiles that are created, changed and deleted.

use vstd::prelude::*;
use vstd::string::*;

use crate::color;
use crate::color::normalize_hex_color;
use crate::command;
use crate::command::clone_or;
use crate::profile;
use crate::profile::{
    index_from_loader, loader_from_index, loader_version_from_mode_and_text,
    loader_version_mode_index, normalize_optional_text, parse_optional_u32, LauncherProfile,
    LoaderVersionView, ProfileColorMode, ProfileLoader, ProfileLoaderVersion, ProfileView,
};
use crate::text;
use crate::text::{concat2, decimal_text, equal_ignoring_ascii_case, same_text, trim_text};

verus! {

/// What the fields of the editor hold.
#[derive(Debug, Clone, PartialEq, Eq)]
pub struct ProfileForm {
    /// The name.
    pub name: String,
    /// The game version that is selected, if one can be selected.
    pub version: Option<String>,
    /// The selected loader.
    pub loader_index: u32,
    /// How the loader's version is selected.
    pub mode_index: u32,
    /// The loader's version.
    pub exact_version: String,
    /// Where the color comes from.
    pub color_mode_index: u32,
    /// The color.
    pub color_hex: String,
    /// Whether a Java runtime may be downloaded.
    pub java_policy_index: u32,
    /// The Java executable.
    pub java_binary: String,
    /// The memory limit.
    pub memory: String,
    /// Extra JVM arguments.
    pub java_args: String,
}

/// Why a change is refused.
#[derive(Debug, Clone, Copy, PartialEq, Eq, Structural)]
pub enum EditError {
    /// No game versions are known.
    NoVersions,
    /// The name of a new profile is taken.
    NameExists,
    /// No profile is selected.
    NoSelection,
    /// The name is empty.
    NameEmpty,
    /// Another profile has the name.
    NameTaken,
    /// No game version is selected.
    NoVersionSelected,
    /// The loader's version is missing.
    ExactVersionMissing,
    /// The color is none.
    InvalidColor,
    /// The memory limit is no number.
    InvalidMemory,
    /// The last profile stays.
    LastProfile,
}

/// What is said about a refusal.
pub open spec fn refusal(error: EditError) -> Seq<char> {
    match error {
        EditError::NoVersions => "No versions available for profile creation"@,
        EditError::NameExists => "Profile name already exists"@,
        EditError::NoSelection => "No profile selected"@,
        EditError::NameEmpty => "Profile name cannot be empty"@,
        EditError::NameTaken => "Another profile already uses this name"@,
        EditError::NoVersionSelected => "Could not resolve selected version"@,
        EditError::ExactVersionMissing => "Exact loader version is required in Exact mode"@,
        EditError::InvalidColor => "Custom color must be hex like #7C5CFF"@,
        EditError::InvalidMemory => "Memory limit must be an integer MB value"@,
        EditError::LastProfile => "At least one profile is required"@,
    }
}

impl EditError {
    /// What is said about the refusal.
    pub fn message(&self) -> (r: &'static str)
        ensures
            r@ == refusal(*self),
    {
        match self {
            EditError::NoVersions => "No versions available for profile creation",
            EditError::NameExists => "Profile name already exists",
            EditError::NoSelection => "No profile selected",
            EditError::NameEmpty => "Profile name cannot be empty",
            EditError::NameTaken => "Another profile already uses this name",
            EditError::NoVersionSelected => "Could not resolve selected version",
            EditError::ExactVersionMissing => "Exact loader version is required in Exact mode",
            EditError::InvalidColor => "Custom color must be hex like #7C5CFF",
            EditError::InvalidMemory => "Memory limit must be an integer MB value",
            EditError::LastProfile => "At least one profile is required",
        }
    }
}

/// The game version that a form selects: the selected one, else the first.
pub open spec fn form_version(form: ProfileForm, versions: Seq<Seq<char>>) -> Option<Seq<char>> {
    match form.version {
        Some(version) => Some(version@),
        None => if versions.len() > 0 {
            Some(versions[0])
        } else {
            None
        },
    }
}

/// The loader version that a form selects. Without a loader it is the default.
pub open spec fn form_loader_version(form: ProfileForm) -> Option<LoaderVersionView> {
    if profile::loader_at(form.loader_index) == ProfileLoader::Vanilla {
        Some(LoaderVersionView::LatestStable)
    } else {
        profile::loader_version_of(form.mode_index, form.exact_version@)
    }
}

/// The memory limit that a form holds: none if the field is blank.
pub open spec fn form_memory(form: ProfileForm) -> Result<Option<u32>, EditError> {
    match profile::optional_u32(form.memory@) {
        Some(mb) => Ok(Some(mb)),
        None => if text::trim(form.memory@).len() == 0 {
            Ok(None)
        } else {
            Err(EditError::InvalidMemory)
        },
    }
}

/// The color that a form holds: none unless the color is the player's own.
pub open spec fn form_color(form: ProfileForm) -> Result<Option<Seq<char>>, EditError> {
    if form.color_mode_index == 1 {
        match color::normalized_color(form.color_hex@) {
            Some(hex) => Ok(Some(hex)),
            None => Err(EditError::InvalidColor),
        }
    } else {
        Ok(None)
    }
}

/// The profile that a form describes, with the given identifier and name. What is
/// wrong with it is told in the order of the fields.
pub open spec fn form_profile(
    form: ProfileForm,
    versions: Seq<Seq<char>>,
    id: Seq<char>,
    name: Seq<char>,
) -> Result<ProfileView, EditError> {
    match (form_version(form, versions), form_loader_version(form), form_color(form), form_memory(
        form,
    )) {
        (None, _, _, _) => Err(EditError::NoVersionSelected),
        (Some(_), None, _, _) => Err(EditError::ExactVersionMissing),
        (Some(_), Some(_), Err(error), _) => Err(error),
        (Some(_), Some(_), Ok(_), Err(error)) => Err(error),
        (Some(version_id), Some(loader_version), Ok(color_hex), Ok(java_memory_mb)) => Ok(
            ProfileView {
                id,
                name,
                version_id,
                loader: profile::loader_at(form.loader_index),
                loader_version,
                color_mode: if form.color_mode_index == 1 {
                    ProfileColorMode::Custom
                } else {
                    ProfileColorMode::Auto
                },
                color_hex,
                java_binary: text::trimmed(form.java_binary@),
                java_auto_download: form.java_policy_index == 0,
                java_memory_mb,
                java_args: text::trimmed(form.java_args@),
            },
        ),
    }
}

fn read_form(form: &ProfileForm, versions: &Vec<String>, id: String, name: String) -> (r: Result<
    LauncherProfile,
    EditError,
>)
    ensures
        match form_profile(*form, text::texts(versions@), id@, name@) {
            Ok(view) => r matches Ok(profile) && profile@ == view && profile.id == id
                && profile.name == name,
            Err(error) => r == Err::<LauncherProfile, EditError>(error),
        },
{
    assert(text::texts(versions@).len() == versions@.len());
    let version_id = match &form.version {
        Some(version) => version.clone(),
        None => {
            if versions.len() == 0 {
                return Err(EditError::NoVersionSelected);
            }
            assert(text::texts(versions@)[0] == versions@[0]@);
            versions[0].clone()
        },
    };
    let loader = loader_from_index(form.loader_index);
    let loader_version = match loader {
        ProfileLoader::Vanilla => ProfileLoaderVersion::LatestStable,
        _ => match loader_version_from_mode_and_text(
            form.mode_index,
            form.exact_version.as_str(),
        ) {
            Some(version) => version,
            None => {
                return Err(EditError::ExactVersionMissing);
            },
        },
    };
    let mut color_mode = ProfileColorMode::Auto;
    let mut color_hex: Option<String> = None;
    if form.color_mode_index == 1 {
        color_mode = ProfileColorMode::Custom;
        match normalize_hex_color(form.color_hex.as_str()) {
            Some(hex) => {
                color_hex = Some(hex);
            },
            None => {
                return Err(EditError::InvalidColor);
            },
        }
    }
    let java_memory_mb = parse_optional_u32(form.memory.as_str());
    if java_memory_mb.is_none() {
        let trimmed = trim_text(form.memory.as_str());
        if !trimmed.as_str().is_empty() {
            return Err(EditError::InvalidMemory);
        }
    }
    Ok(
        LauncherProfile {
            id,
            name,
            version_id,
            loader,
            loader_version,
            color_mode,
            color_hex,
            java_binary: normalize_optional_text(form.java_binary.as_str()),
            java_auto_download: form.java_policy_index == 0,
            java_memory_mb,
            java_args: normalize_optional_text(form.java_args.as_str()),
        },
    )
}

/// Whether a profile other than the one at `except` has a name, in any case.
pub open spec fn name_used(profiles: Seq<ProfileView>, name: Seq<char>, except: int) -> bool {
    exists|i: int|
        0 <= i < profiles.len() && i != except && text::same_ignoring_ascii_case(
            (#[trigger] profiles[i]).name,
            name,
        )
}

fn uses_name(profiles: &Vec<LauncherProfile>, name: &str, except: Option<usize>) -> (r: bool)
    ensures
        r == name_used(
            profile::profile_views(profiles@),
            name@,
            match except {
                Some(at) => at as int,
                None => -1,
            },
        ),
{
    let ghost views = profile::profile_views(profiles@);
    let ghost spared = match except {
        Some(at) => at as int,
        None => -1,
    };
    let mut i: usize = 0;
    while i < profiles.len()
        invariant
            i <= profiles@.len(),
            views == profile::profile_views(profiles@),
            spared == match except {
                Some(at) => at as int,
                None => -1,
            },
            forall|j: int|
                0 <= j < i && j != spared ==> !text::same_ignoring_ascii_case(
                    (#[trigger] views[j]).name,
                    name@,
                ),
        decreases profiles@.len() - i,
    {
        assert(views[i as int] == profiles@[i as int]@);
        let skipped = match except {
            Some(at) => at == i,
            None => false,
        };
        if !skipped && equal_ignoring_ascii_case(profiles[i].name.as_str(), name) {
            return true;
        }
        i = i + 1;
    }
    false
}

/// The name of a new profile: what the form holds, or one by number.
pub open spec fn new_name(form: ProfileForm, count: nat) -> Seq<char> {
    match text::trimmed(form.name@) {
        Some(name) => name,
        None => "Profile "@ + text::decimal(count + 1),
    }
}

/// The profile that creation adds, or why it adds none.
pub open spec fn created(
    profiles: Seq<ProfileView>,
    versions: Seq<Seq<char>>,
    form: ProfileForm,
    id: Seq<char>,
) -> Result<ProfileView, EditError> {
    let name = new_name(form, profiles.len());
    if versions.len() == 0 {
        Err(EditError::NoVersions)
    } else if name_used(profiles, name, -1) {
        Err(EditError::NameExists)
    } else {
        form_profile(form, versions, id, name)
    }
}

/// Creates a profile with the given identifier. Gives back its name.
pub fn create_profile(
    profiles: &mut Vec<LauncherProfile>,
    versions: &Vec<String>,
    form: &ProfileForm,
    id: String,
) -> (r: Result<String, EditError>)
    ensures
        match created(
            profile::profile_views(old(profiles)@),
            text::texts(versions@),
            *form,
            id@,
        ) {
            Ok(view) => {
                &&& r matches Ok(name) && name@ == view.name
                &&& profile::profile_views(final(profiles)@) == profile::profile_views(
                    old(profiles)@,
                ).push(view)
                &&& final(profiles)@.drop_last() == old(profiles)@
            },
            Err(error) => r == Err::<String, EditError>(error) && final(profiles)@ == old(
                profiles,
            )@,
        },
{
    let ghost before = profile::profile_views(profiles@);
    assert(before.len() == profiles@.len());
    assert(text::texts(versions@).len() == versions@.len());
    if versions.len() == 0 {
        return Err(EditError::NoVersions);
    }
    let mut name = trim_text(form.name.as_str());
    if name.as_str().is_empty() {
        let count = profiles.len() as u128;
        let number = decimal_text(count + 1);
        name = concat2("Profile ", number.as_str());
    }
    if uses_name(profiles, name.as_str(), None) {
        return Err(EditError::NameExists);
    }
    let shown = name.clone();
    match read_form(form, versions, id, name) {
        Ok(profile) => {
            let ghost added = profile@;
            let ghost earlier = profiles@;
            profiles.push(profile);
            assert(profile::profile_views(profiles@) =~= before.push(added));
            assert(profiles@.drop_last() =~= earlier);
            Ok(shown)
        },
        Err(error) => Err(error),
    }
}

/// What the profile at `at` becomes when it is saved, or why it stays as it is.
/// It keeps its identifier.
pub open spec fn saved(
    profiles: Seq<ProfileView>,
    versions: Seq<Seq<char>>,
    form: ProfileForm,
    at: int,
) -> Result<ProfileView, EditError> {
    match text::trimmed(form.name@) {
        _ if at >= profiles.len() => Err(EditError::NoSelection),
        None => Err(EditError::NameEmpty),
        Some(name) => if name_used(profiles, name, at) {
            Err(EditError::NameTaken)
        } else {
            form_profile(form, versions, profiles[at].id, name)
        },
    }
}

/// Saves the form in the profile at `at`. Gives back its name.
pub fn save_profile(
    profiles: &mut Vec<LauncherProfile>,
    versions: &Vec<String>,
    form: &ProfileForm,
    at: usize,
) -> (r: Result<String, EditError>)
    ensures
        match saved(
            profile::profile_views(old(profiles)@),
            text::texts(versions@),
            *form,
            at as int,
        ) {
            Ok(view) => {
                &&& r matches Ok(name) && name@ == view.name
                &&& profile::profile_views(final(profiles)@) == profile::profile_views(
                    old(profiles)@,
                ).update(at as int, view)
            },
            Err(error) => r == Err::<String, EditError>(error) && final(profiles)@ == old(
                profiles,
            )@,
        },
{
    let ghost before = profile::profile_views(profiles@);
    assert(before.len() == profiles@.len());
    if at >= profiles.len() {
        return Err(EditError::NoSelection);
    }
    let name = trim_text(form.name.as_str());
    if name.as_str().is_empty() {
        return Err(EditError::NameEmpty);
    }
    if uses_name(profiles, name.as_str(), Some(at)) {
        return Err(EditError::NameTaken);
    }
    let shown = name.clone();
    let id = profiles[at].id.clone();
    assert(before[at as int].id == id@);
    match read_form(form, versions, id, name) {
        Ok(profile) => {
            let ghost changed = profile@;
            profiles.set(at, profile);
            assert(profile::profile_views(profiles@) =~= before.update(at as int, changed));
            Ok(shown)
        },
        Err(error) => Err(error),
    }
}

/// Why a profile is not deleted.
pub open spec fn deletion_refusal(count: nat, at: int) -> Option<EditError> {
    if count <= 1 {
        Some(EditError::LastProfile)
    } else if at >= count {
        Some(EditError::NoSelection)
    } else {
        None
    }
}

/// Deletes the profile at `at`.
pub fn delete_profile(profiles: &mut Vec<LauncherProfile>, at: usize) -> (r: Result<(), EditError>)
    ensures
        match deletion_refusal(old(profiles)@.len(), at as int) {
            Some(error) => r == Err::<(), EditError>(error) && final(profiles)@ == old(profiles)@,
            None => r is Ok && final(profiles)@ == old(profiles)@.remove(at as int),
        },
{
    if profiles.len() <= 1 {
        return Err(EditError::LastProfile);
    }
    if at >= profiles.len() {
        return Err(EditError::NoSelection);
    }
    profiles.remove(at);
    Ok(())
}

/// Whether no two profiles have the same name, in any case.
pub open spec fn names_distinct(profiles: Seq<ProfileView>) -> bool {
    forall|i: int, j: int|
        0 <= i < j < profiles.len() ==> !text::same_ignoring_ascii_case(
            (#[trigger] profiles[i]).name,
            (#[trigger] profiles[j]).name,
        )
}

/// Names stay distinct: if no two profiles have the same name in any case, none
/// have it after a creation, a change or a deletion.
pub proof fn law_names_stay_distinct(
    profiles: Seq<ProfileView>,
    versions: Seq<Seq<char>>,
    form: ProfileForm,
    id: Seq<char>,
    at: int,
)
    requires
        names_distinct(profiles),
        0 <= at,
    ensures
        created(profiles, versions, form, id) matches Ok(view) ==> names_distinct(
            profiles.push(view),
        ),
        saved(profiles, versions, form, at) matches Ok(view) ==> names_distinct(
            profiles.update(at, view),
        ),
        at < profiles.len() ==> names_distinct(profiles.remove(at)),
{
    if let Ok(view) = created(profiles, versions, form, id) {
        let after = profiles.push(view);
        assert forall|i: int, j: int| 0 <= i < j < after.len() implies
            !text::same_ignoring_ascii_case(
            (#[trigger] after[i]).name,
            (#[trigger] after[j]).name,
        ) by {
            assert(after[i] == profiles[i]);
        }
    }
    if let Ok(view) = saved(profiles, versions, form, at) {
        let after = profiles.update(at, view);
        assert forall|i: int, j: int| 0 <= i < j < after.len() implies
            !text::same_ignoring_ascii_case(
            (#[trigger] after[i]).name,
            (#[trigger] after[j]).name,
        ) by {
            if i == at {
                assert(after[j] == profiles[j]);
                if text::same_ignoring_ascii_case(view.name, profiles[j].name) {
                    assert(text::same_ignoring_ascii_case(profiles[j].name, view.name));
                }
            } else if j == at {
                assert(after[i] == profiles[i]);
            } else {
                assert(after[i] == profiles[i] && after[j] == profiles[j]);
            }
        }
    }
    if at < profiles.len() {
        let after = profiles.remove(at);
        assert forall|i: int, j: int| 0 <= i < j < after.len() implies
            !text::same_ignoring_ascii_case(
            (#[trigger] after[i]).name,
            (#[trigger] after[j]).name,
        ) by {
            let a = if i < at {
                i
            } else {
                i + 1
            };
            let b = if j < at {
                j
            } else {
                j + 1
            };
            assert(after[i] == profiles[a] && after[j] == profiles[b]);
        }
    }
}

/// Whether every profile has a name.
pub open spec fn all_named(profiles: Seq<ProfileView>) -> bool {
    forall|i: int| 0 <= i < profiles.len() ==> (#[trigger] profiles[i]).name.len() > 0
}

/// Names stay non-empty: if every profile has a name, every one has a name after a
/// creation, a change or a deletion.
pub proof fn law_profiles_stay_named(
    profiles: Seq<ProfileView>,
    versions: Seq<Seq<char>>,
    form: ProfileForm,
    id: Seq<char>,
    at: int,
)
    requires
        all_named(profiles),
        0 <= at,
    ensures
        created(profiles, versions, form, id) matches Ok(view) ==> all_named(profiles.push(view)),
        saved(profiles, versions, form, at) matches Ok(view) ==> all_named(
            profiles.update(at, view),
        ),
        at < profiles.len() ==> all_named(profiles.remove(at)),
{
    reveal_strlit("Profile ");
    if let Ok(view) = created(profiles, versions, form, id) {
        assert(view.name.len() > 0);
    }
    if let Ok(view) = saved(profiles, versions, form, at) {
        assert(view.name.len() > 0);
    }
    if at < profiles.len() {
        let after = profiles.remove(at);
        assert forall|i: int| 0 <= i < after.len() implies (#[trigger] after[i]).name.len() > 0 by {
            let a = if i < at {
                i
            } else {
                i + 1
            };
            assert(after[i] == profiles[a]);
        }
    }
}

/// A profile keeps its identity when it is renamed: saving leaves every
/// identifier as it is.
pub proof fn law_saving_keeps_identifiers(
    profiles: Seq<ProfileView>,
    versions: Seq<Seq<char>>,
    form: ProfileForm,
    at: int,
    i: int,
)
    requires
        0 <= at,
        0 <= i < profiles.len(),
    ensures
        saved(profiles, versions, form, at) matches Ok(view) ==> profiles.update(at, view)[i].id
            == profiles[i].id,
{
}

/// The list of profiles is never emptied: a deletion leaves one at least.
pub proof fn law_a_profile_remains(profiles: Seq<ProfileView>, at: int)
    requires
        deletion_refusal(profiles.len(), at) is None,
        0 <= at,
    ensures
        profiles.remove(at).len() >= 1,
{
}

/// A change of the list of profiles, as plain values.
pub enum ProfileEdit {
    Create { form: ProfileForm, id: Seq<char> },
    Save { form: ProfileForm, at: nat },
    Delete { at: nat },
}

/// The list after a change. A change that is refused leaves it as it is.
pub open spec fn edited(
    profiles: Seq<ProfileView>,
    versions: Seq<Seq<char>>,
    edit: ProfileEdit,
) -> Seq<ProfileView> {
    match edit {
        ProfileEdit::Create { form, id } => match created(profiles, versions, form, id) {
            Ok(view) => profiles.push(view),
            Err(_) => profiles,
        },
        ProfileEdit::Save { form, at } => match saved(profiles, versions, form, at as int) {
            Ok(view) => profiles.update(at as int, view),
            Err(_) => profiles,
        },
        ProfileEdit::Delete { at } => match deletion_refusal(profiles.len(), at as int) {
            None => profiles.remove(at as int),
            Some(_) => profiles,
        },
    }
}

/// The list after changes one after the other, each with the game versions that
/// are known by then.
pub open spec fn edited_in_turn(
    profiles: Seq<ProfileView>,
    edits: Seq<(Seq<Seq<char>>, ProfileEdit)>,
) -> Seq<ProfileView>
    decreases edits.len(),
{
    if edits.len() == 0 {
        profiles
    } else {
        edited(
            edited_in_turn(profiles, edits.drop_last()),
            edits.last().0,
            edits.last().1,
        )
    }
}

/// Whether there is a profile, every profile has a name, and no two have the same
/// name in any case.
pub open spec fn is_valid_list(profiles: Seq<ProfileView>) -> bool {
    profiles.len() >= 1 && all_named(profiles) && names_distinct(profiles)
}

/// The list of profiles stays valid: whatever is created, saved and deleted, in
/// whatever order, there is a profile, every one has a name, and no two have the
/// same name in any case.
pub proof fn law_edits_keep_the_list_valid(
    profiles: Seq<ProfileView>,
    edits: Seq<(Seq<Seq<char>>, ProfileEdit)>,
)
    requires
        is_valid_list(profiles),
    ensures
        is_valid_list(edited_in_turn(profiles, edits)),
    decreases edits.len(),
{
    if edits.len() > 0 {
        let before = edited_in_turn(profiles, edits.drop_last());
        let (versions, edit) = edits.last();
        law_edits_keep_the_list_valid(profiles, edits.drop_last());
        match edit {
            ProfileEdit::Create { form, id } => {
                law_names_stay_distinct(before, versions, form, id, 0);
                law_profiles_stay_named(before, versions, form, id, 0);
            },
            ProfileEdit::Save { form, at } => {
                law_names_stay_distinct(before, versions, form, seq![], at as int);
                law_profiles_stay_named(before, versions, form, seq![], at as int);
            },
            ProfileEdit::Delete { at } => if deletion_refusal(before.len(), at as int) is None {
                let form = arbitrary::<ProfileForm>();
                law_names_stay_distinct(before, versions, form, seq![], at as int);
                law_profiles_stay_named(before, versions, form, seq![], at as int);
                law_a_profile_remains(before, at as int);
            },
        }
    }
}

/// What the fields of the editor show.
#[derive(Debug, Clone, PartialEq, Eq)]
pub struct EditorFields {
    /// The name.
    pub name: String,
    /// The position of the game version in the list of versions; none if no
    /// versions are known.
    pub version_index: Option<usize>,
    /// The loader.
    pub loader_index: u32,
    /// How the loader's version is selected.
    pub mode_index: u32,
    /// Whether the player can select it.
    pub mode_sensitive: bool,
    /// The loader's version.
    pub exact_version: String,
    /// Whether the player can change it.
    pub exact_sensitive: bool,
    /// Where the color comes from.
    pub color_mode_index: u32,
    /// The color.
    pub color_hex: String,
    /// Whether the player can change it.
    pub color_sensitive: bool,
    /// Whether a Java runtime may be downloaded.
    pub java_policy_index: u32,
    /// The Java executable.
    pub java_binary: String,
    /// The memory limit.
    pub memory: String,
    /// Extra JVM arguments.
    pub java_args: String,
}

/// What the fields of the editor show, as plain values.
pub struct FieldsView {
    pub name: Seq<char>,
    pub version_index: Option<int>,
    pub loader_index: u32,
    pub mode_index: u32,
    pub mode_sensitive: bool,
    pub exact_version: Seq<char>,
    pub exact_sensitive: bool,
    pub color_mode_index: u32,
    pub color_hex: Seq<char>,
    pub color_sensitive: bool,
    pub java_policy_index: u32,
    pub java_binary: Seq<char>,
    pub memory: Seq<char>,
    pub java_args: Seq<char>,
}

impl View for EditorFields {
    type V = FieldsView;

    open spec fn view(&self) -> FieldsView {
        FieldsView {
            name: self.name@,
            version_index: match self.version_index {
                Some(at) => Some(at as int),
                None => None,
            },
            loader_index: self.loader_index,
            mode_index: self.mode_index,
            mode_sensitive: self.mode_sensitive,
            exact_version: self.exact_version@,
            exact_sensitive: self.exact_sensitive,
            color_mode_index: self.color_mode_index,
            color_hex: self.color_hex@,
            color_sensitive: self.color_sensitive,
            java_policy_index: self.java_policy_index,
            java_binary: self.java_binary@,
            memory: self.memory@,
            java_args: self.java_args@,
        }
    }
}

/// A text that may be missing, as a field shows it.
pub open spec fn shown_text(value: Option<Seq<char>>, otherwise: Seq<char>) -> Seq<char> {
    match value {
        Some(s) => s,
        None => otherwise,
    }
}

/// The position of a game version in the list, or the first position.
pub open spec fn version_position(versions: Seq<Seq<char>>, version_id: Seq<char>) -> Option<int> {
    if versions.len() == 0 {
        None
    } else {
        match command::position_from(versions, version_id, 0) {
            Some(at) => Some(at),
            None => Some(0),
        }
    }
}

/// What the fields show for a profile after the list of profiles changed.
pub open spec fn fields_of(p: ProfileView, versions: Seq<Seq<char>>) -> FieldsView {
    let vanilla = p.loader == ProfileLoader::Vanilla;
    let custom = p.color_mode == ProfileColorMode::Custom;
    FieldsView {
        name: p.name,
        version_index: version_position(versions, p.version_id),
        loader_index: profile::loader_position(p.loader),
        mode_index: profile::mode_position(p.loader_version),
        mode_sensitive: !vanilla,
        exact_version: match p.loader_version {
            LoaderVersionView::Exact(version) => version,
            _ => ""@,
        },
        exact_sensitive: !vanilla && p.loader_version is Exact,
        color_mode_index: if custom {
            1
        } else {
            0
        },
        color_hex: if custom {
            shown_text(p.color_hex, "#7C5CFF"@)
        } else {
            ""@
        },
        color_sensitive: custom,
        java_policy_index: if p.java_auto_download {
            0
        } else {
            1
        },
        java_binary: shown_text(p.java_binary, ""@),
        memory: match p.java_memory_mb {
            Some(mb) => text::decimal(mb as nat),
            None => ""@,
        },
        java_args: shown_text(p.java_args, ""@),
    }
}

fn find_text(list: &Vec<String>, wanted: &str) -> (r: Option<usize>)
    ensures
        match command::position_from(text::texts(list@), wanted@, 0) {
            Some(at) => r matches Some(found) && found == at && found < list@.len(),
            None => r is None,
        },
{
    let ghost all = text::texts(list@);
    let mut i: usize = 0;
    while i < list.len()
        invariant
            i <= list@.len(),
            all == text::texts(list@),
            command::position_from(all, wanted@, 0) == command::position_from(
                all,
                wanted@,
                i as int,
            ),
        decreases list@.len() - i,
    {
        assert(all[i as int] == list@[i as int]@);
        if same_text(list[i].as_str(), wanted) {
            return Some(i);
        }
        i = i + 1;
    }
    None
}

/// What the fields show for the profile after the list of profiles changed.
pub fn editor_fields(profile: &LauncherProfile, versions: &Vec<String>) -> (r: EditorFields)
    ensures
        r@ == fields_of(profile@, text::texts(versions@)),
{
    assert(text::texts(versions@).len() == versions@.len());
    let version_index: Option<usize> = if versions.len() == 0 {
        None
    } else {
        match find_text(versions, profile.version_id.as_str()) {
            Some(at) => Some(at),
            None => Some(0),
        }
    };
    let vanilla = match profile.loader {
        ProfileLoader::Vanilla => true,
        _ => false,
    };
    let custom = match profile.color_mode {
        ProfileColorMode::Custom => true,
        ProfileColorMode::Auto => false,
    };
    let exact = match &profile.loader_version {
        ProfileLoaderVersion::Exact(_) => true,
        _ => false,
    };
    EditorFields {
        name: profile.name.clone(),
        version_index,
        loader_index: index_from_loader(&profile.loader),
        mode_index: loader_version_mode_index(&profile.loader_version),
        mode_sensitive: !vanilla,
        exact_version: match &profile.loader_version {
            ProfileLoaderVersion::Exact(version) => version.clone(),
            _ => "".to_owned(),
        },
        exact_sensitive: !vanilla && exact,
        color_mode_index: if custom {
            1
        } else {
            0
        },
        color_hex: if custom {
            clone_or(&profile.color_hex, "#7C5CFF")
        } else {
            "".to_owned()
        },
        color_sensitive: custom,
        java_policy_index: if profile.java_auto_download {
            0
        } else {
            1
        },
        java_binary: clone_or(&profile.java_binary, ""),
        memory: match profile.java_memory_mb {
            Some(mb) => decimal_text(mb as u128),
            None => "".to_owned(),
        },
        java_args: clone_or(&profile.java_args, ""),
    }
}

/// What the fields of the editor show when a profile is selected. The color stays
/// as it is.
#[derive(Debug, Clone, PartialEq, Eq)]
pub struct SelectedFields {
    /// The name.
    pub name: String,
    /// The position of the game version in the list of versions; none if no
    /// versions are known.
    pub version_index: Option<usize>,
    /// The loader.
    pub loader_index: u32,
    /// How the loader's version is selected.
    pub mode_index: u32,
    /// The loader's version.
    pub exact_version: String,
    /// Whether the player can change it.
    pub exact_sensitive: bool,
    /// Whether a Java runtime may be downloaded.
    pub java_policy_index: u32,
    /// The Java executable.
    pub java_binary: String,
    /// The memory limit.
    pub memory: String,
    /// Extra JVM arguments.
    pub java_args: String,
}

/// What the fields show when a profile is selected, as plain values.
pub struct SelectedView {
    pub name: Seq<char>,
    pub version_index: Option<int>,
    pub loader_index: u32,
    pub mode_index: u32,
    pub exact_version: Seq<char>,
    pub exact_sensitive: bool,
    pub java_policy_index: u32,
    pub java_binary: Seq<char>,
    pub memory: Seq<char>,
    pub java_args: Seq<char>,
}

impl View for SelectedFields {
    type V = SelectedView;

    open spec fn view(&self) -> SelectedView {
        SelectedView {
            name: self.name@,
            version_index: match self.version_index {
                Some(at) => Some(at as int),
                None => None,
            },
            loader_index: self.loader_index,
            mode_index: self.mode_index,
            exact_version: self.exact_version@,
            exact_sensitive: self.exact_sensitive,
            java_policy_index: self.java_policy_index,
            java_binary: self.java_binary@,
            memory: self.memory@,
            java_args: self.java_args@,
        }
    }
}

/// What the fields show when a profile is selected: what they show for it
/// otherwise, but a loader version that is given exactly can be changed whatever
/// the loader is.
pub open spec fn selected_fields_of(p: ProfileView, versions: Seq<Seq<char>>) -> SelectedView {
    let fields = fields_of(p, versions);
    SelectedView {
        name: fields.name,
        version_index: fields.version_index,
        loader_index: fields.loader_index,
        mode_index: fields.mode_index,
        exact_version: fields.exact_version,
        exact_sensitive: p.loader_version is Exact,
        java_policy_index: fields.java_policy_index,
        java_binary: fields.java_binary,
        memory: fields.memory,
        java_args: fields.java_args,
    }
}

/// What the fields show when the profile is selected.
pub fn selected_fields(profile: &LauncherProfile, versions: &Vec<String>) -> (r: SelectedFields)
    ensures
        r@ == selected_fields_of(profile@, text::texts(versions@)),
{
    let fields = editor_fields(profile, versions);
    let exact_sensitive = match &profile.loader_version {
        ProfileLoaderVersion::Exact(_) => true,
        _ => false,
    };
    SelectedFields {
        name: fields.name,
        version_index: fields.version_index,
        loader_index: fields.loader_index,
        mode_index: fields.mode_index,
        exact_version: fields.exact_version,
        exact_sensitive,
        java_policy_index: fields.java_policy_index,
        java_binary: fields.java_binary,
        memory: fields.memory,
        java_args: fields.java_args,
    }
}

/// The state of a field after another one changed.
#[derive(Debug, Clone, Copy, PartialEq, Eq, Structural)]
pub struct FieldChange {
    /// Whether the player can change the field.
    pub sensitive: bool,
    /// Whether the field is emptied.
    pub cleared: bool,
}

/// The loader version field after the way of selecting it changed: it can be
/// changed only for a loader whose version is given exactly.
pub fn exact_field_after_mode(loader_index: u32, mode_index: u32) -> (r: FieldChange)
    ensures
        r.sensitive == (loader_index != 0 && mode_index == 2),
        r.cleared == (mode_index != 2),
{
    FieldChange { sensitive: loader_index != 0 && mode_index == 2, cleared: mode_index != 2 }
}

/// The loader version field after the loader changed.
pub fn exact_field_after_loader(loader_index: u32, mode_index: u32) -> (r: FieldChange)
    ensures
        r.sensitive == (loader_index != 0 && mode_index == 2),
        r.cleared == (loader_index == 0),
{
    FieldChange { sensitive: loader_index != 0 && mode_index == 2, cleared: loader_index == 0 }
}

/// The color field after the source of the color changed.
pub fn color_field_after_mode(color_mode_index: u32) -> (r: FieldChange)
    ensures
        r.sensitive == (color_mode_index == 1),
        r.cleared == (color_mode_index != 1),
{
    FieldChange { sensitive: color_mode_index == 1, cleared: color_mode_index != 1 }
}

/// What the profile lists and the buttons show.
#[derive(Debug, Clone, PartialEq, Eq)]
pub struct ProfileModels {
    /// The entries of the profile lists.
    pub names: Vec<String>,
    /// The entry that is selected.
    pub selected: usize,
    /// The fields of the editor; none without a profile.
    pub fields: Option<EditorFields>,
    /// Whether a profile can be created.
    pub can_create: bool,
    /// Whether the selected profile can be saved, and its content managed.
    pub can_save: bool,
    /// Whether the selected profile can be deleted.
    pub can_delete: bool,
}

/// The profile that is selected: the one with the preferred name, else the first.
pub open spec fn selected_profile(profiles: Seq<ProfileView>, preferred: Option<Seq<char>>) -> int {
    let names = profiles.map_values(|p: ProfileView| p.name);
    match preferred {
        Some(name) => match command::position_from(names, name, 0) {
            Some(at) => at,
            None => 0,
        },
        None => 0,
    }
}

/// Fills the profile lists and the editor; the profile with the preferred name is
/// selected, else the first.
pub fn refresh_profile_models(
    profiles: &Vec<LauncherProfile>,
    versions: &Vec<String>,
    preferred: Option<&str>,
) -> (r: ProfileModels)
    ensures
        ({
            let views = profile::profile_views(profiles@);
            let selected = selected_profile(views, text::opt_str(preferred));
            &&& r.can_create == (versions@.len() > 0)
            &&& r.can_delete == (profiles@.len() > 1)
            &&& r.can_save == (profiles@.len() > 0)
            &&& if profiles@.len() == 0 {
                &&& text::texts(r.names@) == seq!["No profiles"@]
                &&& r.selected == 0
                &&& r.fields is None
            } else {
                &&& text::texts(r.names@) == views.map_values(|p: ProfileView| p.name)
                &&& r.selected == selected
                &&& r.fields matches Some(fields) && fields@ == fields_of(
                    views[selected],
                    text::texts(versions@),
                )
            }
        }),
{
    let ghost views = profile::profile_views(profiles@);
    let ghost all = views.map_values(|p: ProfileView| p.name);
    let can_create = versions.len() > 0;
    let mut names: Vec<String> = Vec::new();
    if profiles.len() == 0 {
        names.push("No profiles".to_owned());
        assert(text::texts(names@) =~= seq!["No profiles"@]);
        return ProfileModels {
            names,
            selected: 0,
            fields: None,
            can_create,
            can_save: false,
            can_delete: false,
        };
    }
    let mut i: usize = 0;
    assert(text::texts(names@) =~= all.take(0));
    while i < profiles.len()
        invariant
            i <= profiles@.len(),
            views == profile::profile_views(profiles@),
            all == views.map_values(|p: ProfileView| p.name),
            text::texts(names@) == all.take(i as int),
        decreases profiles@.len() - i,
    {
        let ghost before = text::texts(names@);
        assert(views[i as int] == profiles@[i as int]@);
        names.push(profiles[i].name.clone());
        assert(text::texts(names@) =~= before.push(all[i as int]));
        assert(all.take(i + 1) =~= all.take(i as int).push(all[i as int]));
        i = i + 1;
    }
    assert(all.take(all.len() as int) =~= all);
    assert(text::texts(names@).len() == names@.len());
    let selected: usize = match preferred {
        Some(name) => match find_text(&names, name) {
            Some(at) => at,
            None => 0,
        },
        None => 0,
    };
    assert(views[selected as int] == profiles@[selected as int]@);
    let fields = editor_fields(&profiles[selected], versions);
    ProfileModels {
        names,
        selected,
        fields: Some(fields),
        can_create,
        can_save: true,
        can_delete: profiles.len() > 1,
    }
}

/// Whether a text that may be missing is one that a field gives back: without
/// outer white space, and not blank.
pub open spec fn is_clean(value: Option<Seq<char>>) -> bool {
    value matches Some(s) ==> s.len() > 0 && text::trim(s) == s
}

/// Whether a profile is one that the editor makes.
pub open spec fn is_edited(p: ProfileView, versions: Seq<Seq<char>>) -> bool {
    &&& is_clean(Some(p.name))
    &&& versions.contains(p.version_id)
    &&& p.loader == ProfileLoader::Vanilla ==> p.loader_version == LoaderVersionView::LatestStable
    &&& p.loader_version matches LoaderVersionView::Exact(version) ==> is_clean(Some(version))
    &&& match p.color_mode {
        ProfileColorMode::Custom => p.color_hex matches Some(hex) && color::normalized_color(hex)
            == Some(hex),
        ProfileColorMode::Auto => p.color_hex is None,
    }
    &&& is_clean(p.java_binary)
    &&& is_clean(p.java_args)
}

/// Whether a form holds what fields show.
pub open spec fn holds_fields(
    form: ProfileForm,
    fields: FieldsView,
    versions: Seq<Seq<char>>,
) -> bool {
    &&& form.name@ == fields.name
    &&& text::opt_text(form.version) == match fields.version_index {
        Some(at) => Some(versions[at]),
        None => None,
    }
    &&& form.loader_index == fields.loader_index
    &&& form.mode_index == fields.mode_index
    &&& form.exact_version@ == fields.exact_version
    &&& form.color_mode_index == fields.color_mode_index
    &&& form.color_hex@ == fields.color_hex
    &&& form.java_policy_index == fields.java_policy_index
    &&& form.java_binary@ == fields.java_binary
    &&& form.memory@ == fields.memory
    &&& form.java_args@ == fields.java_args
}

/// Saving what the editor shows changes nothing: the form of a profile that the
/// editor made describes that profile.
pub proof fn law_unchanged_form_keeps_the_profile(
    p: ProfileView,
    versions: Seq<Seq<char>>,
    form: ProfileForm,
)
    requires
        is_edited(p, versions),
        holds_fields(form, fields_of(p, versions), versions),
    ensures
        form_profile(form, versions, p.id, p.name) == Ok::<ProfileView, EditError>(p),
{
    reveal_strlit("");
    assert(""@ =~= Seq::<char>::empty());
    command::lemma_position_from(versions, p.version_id, 0);
    let at = command::position_from(versions, p.version_id, 0);
    let i = choose|i: int| 0 <= i < versions.len() && versions[i] == p.version_id;
    assert(at is Some);
    assert(form_version(form, versions) == Some(p.version_id));
    profile::law_loader_index_round_trip(p.loader);
    assert(text::trim(Seq::<char>::empty()) =~= Seq::<char>::empty());
    if let Some(mb) = p.java_memory_mb {
        text::law_parse_undoes_decimal(mb as nat, u32::MAX as nat);
    }
    assert(form_loader_version(form) == Some(p.loader_version));
    assert(form_color(form) == Ok::<Option<Seq<char>>, EditError>(p.color_hex));
    assert(form_memory(form) == Ok::<Option<u32>, EditError>(p.java_memory_mb));
    assert(text::trimmed(form.java_binary@) == p.java_binary);
    assert(text::trimmed(form.java_args@) == p.java_args);
}

proof fn lemma_trimmed_is_clean(s: Seq<char>)
    ensures
        is_clean(text::trimmed(s)),
{
    let inner = text::trim(s);
    text::law_trim_leaves_no_outer_space(s);
}

/// What the editor makes, the editor can show: a form whose game version is in the
/// list describes a profile that is read back from its fields.
pub proof fn law_forms_describe_edited_profiles(
    form: ProfileForm,
    versions: Seq<Seq<char>>,
    id: Seq<char>,
    name: Seq<char>,
)
    requires
        is_clean(Some(name)),
        form.version matches Some(version) ==> versions.contains(version@),
    ensures
        form_profile(form, versions, id, name) matches Ok(p) ==> is_edited(p, versions),
{
    if let Ok(p) = form_profile(form, versions, id, name) {
        lemma_trimmed_is_clean(form.exact_version@);
        lemma_trimmed_is_clean(form.java_binary@);
        lemma_trimmed_is_clean(form.java_args@);
        color::law_normalizing_keeps_the_color(form.color_hex@);
        if form.version is None {
            assert(versions[0] == p.version_id);
        }
    }
}

/// What a form describes: each field of the profile is what the form says. Texts lose
/// their outer white space, and blank ones count as missing; without a loader the
/// loader version is the latest stable one.
pub proof fn law_fields_become_the_profile(
    form: ProfileForm,
    versions: Seq<Seq<char>>,
    id: Seq<char>,
    name: Seq<char>,
)
    ensures
        form_profile(form, versions, id, name) matches Ok(p) ==> {
            &&& p.id == id && p.name == name
            &&& form.version matches Some(version) ==> p.version_id == version@
            &&& form.version is None ==> versions.len() > 0 && p.version_id == versions[0]
            &&& p.loader == profile::loader_at(form.loader_index)
            &&& p.loader == ProfileLoader::Vanilla ==> p.loader_version
                == LoaderVersionView::LatestStable
            &&& p.loader != ProfileLoader::Vanilla ==> Some(p.loader_version)
                == profile::loader_version_of(form.mode_index, form.exact_version@)
            &&& p.color_mode == ProfileColorMode::Custom <==> form.color_mode_index == 1
            &&& form.color_mode_index == 1 ==> p.color_hex is Some && p.color_hex
                == color::normalized_color(form.color_hex@)
            &&& form.color_mode_index != 1 ==> p.color_hex is None
            &&& p.java_auto_download <==> form.java_policy_index == 0
            &&& p.java_memory_mb == profile::optional_u32(form.memory@)
            &&& p.java_binary is None <==> text::trim(form.java_binary@).len() == 0
            &&& p.java_binary matches Some(java) ==> java == text::trim(form.java_binary@)
            &&& p.java_args is None <==> text::trim(form.java_args@).len() == 0
            &&& p.java_args matches Some(args) ==> args == text::trim(form.java_args@)
        },
{
}

/// Why a form is refused: for the first of these reasons that holds, and for no other.
/// There is no game version; the exact loader version is missing; the player's color is
/// none; the memory limit is neither blank nor a number.
pub proof fn law_form_is_refused_for_a_reason(
    form: ProfileForm,
    versions: Seq<Seq<char>>,
    id: Seq<char>,
    name: Seq<char>,
)
    ensures
        ({
            let result = form_profile(form, versions, id, name);
            let no_version = form.version is None && versions.len() == 0;
            let no_exact = profile::loader_at(form.loader_index) != ProfileLoader::Vanilla
                && form.mode_index == 2 && text::trim(form.exact_version@).len() == 0;
            let no_color = form.color_mode_index == 1 && color::normalized_color(
                form.color_hex@,
            ) is None;
            let no_memory = text::trim(form.memory@).len() > 0 && profile::optional_u32(
                form.memory@,
            ) is None;
            &&& result is Ok <==> !no_version && !no_exact && !no_color && !no_memory
            &&& no_version ==> result == Err::<ProfileView, EditError>(EditError::NoVersionSelected)
            &&& !no_version && no_exact ==> result == Err::<ProfileView, EditError>(
                EditError::ExactVersionMissing,
            )
            &&& !no_version && !no_exact && no_color ==> result == Err::<ProfileView, EditError>(
                EditError::InvalidColor,
            )
            &&& !no_version && !no_exact && !no_color && no_memory ==> result == Err::<
                ProfileView,
                EditError,
            >(EditError::InvalidMemory)
        }),
{
    text::law_trim_takes_only_outer_space(Seq::empty(), Seq::empty(), Seq::empty());
    if text::trim(form.memory@).len() == 0 {
        text::law_number_is_spelled_by_digits(text::trim(form.memory@), u32::MAX as nat);
    }
}

/// When a profile is created: when game versions are known and no profile has its
/// name, in any case. It is called what the form says or, where the form says nothing,
/// by the number of the profiles after it came.
pub proof fn law_new_profile_has_its_own_name(
    profiles: Seq<ProfileView>,
    versions: Seq<Seq<char>>,
    form: ProfileForm,
    id: Seq<char>,
)
    ensures
        ({
            let entered = text::trim(form.name@);
            let name = if entered.len() > 0 {
                entered
            } else {
                "Profile "@ + text::decimal(profiles.len() + 1)
            };
            let used = exists|i: int|
                0 <= i < profiles.len() && text::ascii_lower((#[trigger] profiles[i]).name)
                    == text::ascii_lower(name);
            &&& versions.len() == 0 ==> created(profiles, versions, form, id) == Err::<
                ProfileView,
                EditError,
            >(EditError::NoVersions)
            &&& versions.len() > 0 && used ==> created(profiles, versions, form, id) == Err::<
                ProfileView,
                EditError,
            >(EditError::NameExists)
            &&& versions.len() > 0 && !used ==> created(profiles, versions, form, id)
                == form_profile(form, versions, id, name)
        }),
{
    let name = new_name(form, profiles.len());
    assert forall|i: int| 0 <= i < profiles.len() implies (text::ascii_lower(
        (#[trigger] profiles[i]).name,
    ) == text::ascii_lower(name)) == text::same_ignoring_ascii_case(profiles[i].name, name) by {
        text::law_case_is_ignored(profiles[i].name, name);
    }
}

/// When a profile is saved: when it is there, has a name and no other profile has the
/// same one, in any case. Its own name may stay.
pub proof fn law_saved_profile_has_its_own_name(
    profiles: Seq<ProfileView>,
    versions: Seq<Seq<char>>,
    form: ProfileForm,
    at: int,
)
    requires
        0 <= at,
    ensures
        ({
            let name = text::trim(form.name@);
            let used = exists|i: int|
                0 <= i < profiles.len() && i != at && text::ascii_lower(
                    (#[trigger] profiles[i]).name,
                ) == text::ascii_lower(name);
            let result = saved(profiles, versions, form, at);
            &&& at >= profiles.len() ==> result == Err::<ProfileView, EditError>(
                EditError::NoSelection,
            )
            &&& at < profiles.len() && name.len() == 0 ==> result == Err::<ProfileView, EditError>(
                EditError::NameEmpty,
            )
            &&& at < profiles.len() && name.len() > 0 && used ==> result == Err::<
                ProfileView,
                EditError,
            >(EditError::NameTaken)
            &&& at < profiles.len() && name.len() > 0 && !used ==> result == form_profile(
                form,
                versions,
                profiles[at].id,
                name,
            )
        }),
{
    let name = text::trim(form.name@);
    assert forall|i: int| 0 <= i < profiles.len() implies (text::ascii_lower(
        (#[trigger] profiles[i]).name,
    ) == text::ascii_lower(name)) == text::same_ignoring_ascii_case(profiles[i].name, name) by {
        text::law_case_is_ignored(profiles[i].name, name);
    }
}

/// Which profile can be deleted: any that is there, unless it is the only one.
pub proof fn law_only_profile_stays(count: nat, at: int)
    ensures
        deletion_refusal(count, at) is None <==> count >= 2 && at < count,
        count < 2 ==> deletion_refusal(count, at) == Some(EditError::LastProfile),
        count >= 2 && at >= count ==> deletion_refusal(count, at) == Some(EditError::NoSelection),
{
}

/// What the fields show: what the profile holds, and nothing for what it does not
/// hold. Only what applies can be changed: the loader version of a loader, the version
/// that is given exactly, the color that is the player's own.
pub proof fn law_fields_show_the_profile(p: ProfileView, versions: Seq<Seq<char>>)
    ensures
        ({
            let fields = fields_of(p, versions);
            let nothing = Seq::<char>::empty();
            &&& fields.name == p.name
            &&& fields.loader_index == profile::loader_position(p.loader)
            &&& fields.mode_index == profile::mode_position(p.loader_version)
            &&& fields.mode_sensitive <==> p.loader != ProfileLoader::Vanilla
            &&& p.loader_version matches LoaderVersionView::Exact(version) ==> fields.exact_version
                == version
            &&& !(p.loader_version is Exact) ==> fields.exact_version == nothing
            &&& fields.exact_sensitive <==> p.loader_version is Exact && p.loader
                != ProfileLoader::Vanilla
            &&& p.color_mode == ProfileColorMode::Custom ==> fields.color_mode_index == 1
                && fields.color_sensitive && fields.color_hex == match p.color_hex {
                Some(hex) => hex,
                None => "#7C5CFF"@,
            }
            &&& p.color_mode == ProfileColorMode::Auto ==> fields.color_mode_index == 0
                && !fields.color_sensitive && fields.color_hex == nothing
            &&& fields.java_policy_index == if p.java_auto_download {
                0u32
            } else {
                1u32
            }
            &&& p.java_binary matches Some(java) ==> fields.java_binary == java
            &&& p.java_binary is None ==> fields.java_binary == nothing
            &&& p.java_memory_mb matches Some(mb) ==> fields.memory == text::decimal(mb as nat)
            &&& p.java_memory_mb is None ==> fields.memory == nothing
            &&& p.java_args matches Some(args) ==> fields.java_args == args
            &&& p.java_args is None ==> fields.java_args == nothing
        }),
{
    reveal_strlit("");
    assert(""@ =~= Seq::<char>::empty());
}

/// Which game version the fields show: the first place where the version of the
/// profile stands, or the first version where it is not known.
pub proof fn law_shown_version_is_that_of_the_profile(
    p: ProfileView,
    versions: Seq<Seq<char>>,
)
    ensures
        ({
            let shown = fields_of(p, versions).version_index;
            &&& versions.len() == 0 ==> shown is None
            &&& versions.len() > 0 ==> (shown matches Some(at) && 0 <= at < versions.len() && if (
            versions.contains(p.version_id)) {
                versions[at] == p.version_id && forall|i: int|
                    0 <= i < at ==> #[trigger] versions[i] != p.version_id
            } else {
                at == 0
            })
        }),
{
    command::lemma_position_from(versions, p.version_id, 0);
    if versions.contains(p.version_id) {
        let i = choose|i: int| 0 <= i < versions.len() && versions[i] == p.version_id;
        assert(versions[i] == p.version_id);
    }
}

/// What the fields show when a profile is selected: what they show for it otherwise,
/// but for the color, and a version that is given exactly can be changed.
pub proof fn law_selecting_shows_the_profile(p: ProfileView, versions: Seq<Seq<char>>)
    ensures
        ({
            let selected = selected_fields_of(p, versions);
            let fields = fields_of(p, versions);
            &&& selected.name == fields.name
            &&& selected.version_index == fields.version_index
            &&& selected.loader_index == fields.loader_index
            &&& selected.mode_index == fields.mode_index
            &&& selected.exact_version == fields.exact_version
            &&& selected.exact_sensitive <==> p.loader_version is Exact
            &&& selected.java_policy_index == fields.java_policy_index
            &&& selected.java_binary == fields.java_binary
            &&& selected.memory == fields.memory
            &&& selected.java_args == fields.java_args
        }),
{
}

/// Which profile is selected: the first with the preferred name, else the first of
/// all.
pub proof fn law_preferred_profile_is_selected(
    profiles: Seq<ProfileView>,
    preferred: Option<Seq<char>>,
)
    ensures
        ({
            let at = selected_profile(profiles, preferred);
            &&& profiles.len() > 0 ==> 0 <= at < profiles.len()
            &&& preferred is None ==> at == 0
            &&& preferred matches Some(name) ==> {
                &&& (exists|i: int| 0 <= i < profiles.len() && (#[trigger] profiles[i]).name
                    == name) ==> profiles[at].name == name && forall|i: int|
                    0 <= i < at ==> (#[trigger] profiles[i]).name != name
                &&& (forall|i: int|
                    0 <= i < profiles.len() ==> (#[trigger] profiles[i]).name != name) ==> at == 0
            }
        }),
{
    let names = profiles.map_values(|p: ProfileView| p.name);
    if let Some(name) = preferred {
        command::lemma_position_from(names, name, 0);
        let at = selected_profile(profiles, preferred);
        assert forall|i: int| 0 <= i < profiles.len() implies names[i] == (
        #[trigger] profiles[i]).name by {}
        if exists|i: int| 0 <= i < profiles.len() && (#[trigger] profiles[i]).name == name {
            let i = choose|i: int| 0 <= i < profiles.len() && (#[trigger] profiles[i]).name == name;
            assert(names[i] == name);
            assert(names[at] == name);
            assert forall|j: int| 0 <= j < at implies (#[trigger] profiles[j]).name != name by {
                assert(names[j] == profiles[j].name);
            }
        }
    }
}

/// What is said about a refusal names what is wrong.
pub proof fn law_refusals_say_what_is_wrong(error: EditError)
    ensures
        error == EditError::NoVersions ==> refusal(error)
            == "No versions available for profile creation"@,
        error == EditError::NameExists ==> refusal(error) == "Profile name already exists"@,
        error == EditError::NoSelection ==> refusal(error) == "No profile selected"@,
        error == EditError::NameEmpty ==> refusal(error) == "Profile name cannot be empty"@,
        error == EditError::NameTaken ==> refusal(error)
            == "Another profile already uses this name"@,
        error == EditError::NoVersionSelected ==> refusal(error)
            == "Could not resolve selected version"@,
        error == EditError::ExactVersionMissing ==> refusal(error)
            == "Exact loader version is required in Exact mode"@,
        error == EditError::InvalidColor ==> refusal(error)
            == "Custom color must be hex like #7C5CFF"@,
        error == EditError::InvalidMemory ==> refusal(error)
            == "Memory limit must be an integer MB value"@,
        error == EditError::LastProfile ==> refusal(error) == "At least one profile is required"@,
{
}

} // verus!
