//! The content of a profile: where it lies, what is installed, and how files are
//! switched on and off.
//!
//! A file whose name ends in `.disabled` is switched off.

use vstd::prelude::*;
use vstd::string::*;

use crate::discovery;
use crate::discovery::DiscoveryKind;
use crate::path;
use crate::path::{has_extension, join_path};
use crate::sorting;
use crate::sorting::sort_by_name;
use crate::storage;
use crate::text;
use crate::text::{chars_of, concat2, has_suffix, strip_suffix};

verus! {

/// Whether a character stands in a file name as it is.
pub open spec fn is_safe_in_name(c: char) -> bool {
    ('a' <= c <= 'z') || ('A' <= c <= 'Z') || ('0' <= c <= '9') || c == '-' || c == '_' || c == '.'
}

/// A text as a file name: other characters become underscores.
pub open spec fn sanitized(input: Seq<char>) -> Seq<char> {
    input.map_values(
        |c: char|
            if is_safe_in_name(c) {
                c
            } else {
                '_'
            },
    )
}

/// The text as one component of a path.
pub fn sanitize_component_for_path(input: &str) -> (r: String)
    ensures
        r@ == sanitized(input@),
{
    let chars = chars_of(input);
    let mut out = String::new();
    let mut i: usize = 0;
    while i < chars.len()
        invariant
            chars@ == input@,
            i <= chars@.len(),
            out@ == sanitized(input@).take(i as int),
        decreases chars@.len() - i,
    {
        let c = chars[i];
        let safe = (c >= 'a' && c <= 'z') || (c >= 'A' && c <= 'Z') || (c >= '0' && c <= '9') || c
            == '-' || c == '_' || c == '.';
        if safe {
            out.push(c);
        } else {
            out.push('_');
        }
        assert(out@ =~= sanitized(input@).take(i + 1));
        i = i + 1;
    }
    assert(out@ =~= sanitized(input@));
    out
}

/// The directory of a profile in the game directory, by the component that it
/// has there.
pub open spec fn profile_directory(minecraft_root: Seq<char>, component: Seq<char>) -> Seq<char> {
    path::joined(path::joined(minecraft_root, "profiles"@), sanitized(component))
}

/// The game directory of a profile. Its identifier names it.
pub fn profile_game_directory(minecraft_root: &str, profile_id: &str) -> (r: String)
    ensures
        r@ == profile_directory(minecraft_root@, profile_id@),
{
    let profiles = join_path(minecraft_root, "profiles");
    let component = sanitize_component_for_path(profile_id);
    join_path(profiles.as_str(), component.as_str())
}

/// Where the game directory of a profile lay when its name named it.
pub fn named_game_directory(minecraft_root: &str, profile_name: &str) -> (r: String)
    ensures
        r@ == profile_directory(minecraft_root@, profile_name@),
{
    profile_game_directory(minecraft_root, profile_name)
}

/// Whether the directory that is named after the profile has to move to the one
/// that the identifier names: only if nothing is there yet.
pub fn moves_named_directory(identified_exists: bool, named_exists: bool) -> (r: bool)
    ensures
        r == (named_exists && !identified_exists),
{
    named_exists && !identified_exists
}

/// The game directory of a profile, once it is known how the move of the directory
/// named after the profile went, if one was due. A directory that cannot be moved
/// stays in use where it is.
pub fn settled_game_directory(
    minecraft_root: &str,
    profile_id: &str,
    profile_name: &str,
    moved: Option<bool>,
) -> (r: String)
    ensures
        r@ == if moved == Some(false) {
            profile_directory(minecraft_root@, profile_name@)
        } else {
            profile_directory(minecraft_root@, profile_id@)
        },
{
    match moved {
        Some(false) => named_game_directory(minecraft_root, profile_name),
        _ => profile_game_directory(minecraft_root, profile_id),
    }
}

/// The directory of a kind of content.
pub fn profile_content_dir(game_directory: &str, kind: DiscoveryKind) -> (r: String)
    ensures
        r@ == path::joined(game_directory@, discovery::kind_directory(kind)),
{
    join_path(game_directory, kind.install_subdir())
}

/// Whether a file is switched off.
pub open spec fn is_disabled(name: Seq<char>) -> bool {
    text::closes_with(name, ".disabled"@)
}

/// The name of a file when it is switched on.
pub open spec fn enabled_name(name: Seq<char>) -> Seq<char> {
    match text::before_suffix(name, ".disabled"@) {
        Some(rest) => rest,
        None => name,
    }
}

/// The name of a file when it is switched off.
pub open spec fn disabled_name(name: Seq<char>) -> Seq<char> {
    name + ".disabled"@
}

/// The name without the mark of a file that is switched off.
pub fn strip_disabled_suffix(name: &str) -> (r: String)
    ensures
        r@ == enabled_name(name@),
{
    match strip_suffix(name, ".disabled") {
        Some(rest) => rest,
        None => name.to_owned(),
    }
}

/// An installed file.
#[derive(Debug, Clone, PartialEq, Eq)]
pub struct InstalledContentEntry {
    /// Its name when it is switched on.
    pub file_name: String,
    /// The name that is shown.
    pub display_name: String,
    /// Whether it is switched on.
    pub enabled: bool,
}

/// An installed file as plain values.
pub struct EntryView {
    pub file_name: Seq<char>,
    pub display_name: Seq<char>,
    pub enabled: bool,
}

impl View for InstalledContentEntry {
    type V = EntryView;

    open spec fn view(&self) -> EntryView {
        EntryView {
            file_name: self.file_name@,
            display_name: self.display_name@,
            enabled: self.enabled,
        }
    }
}

/// Installed files as plain values.
pub open spec fn entry_views(entries: Seq<InstalledContentEntry>) -> Seq<EntryView> {
    entries.map_values(|entry: InstalledContentEntry| entry@)
}

/// What a file name says about an installed file.
pub open spec fn entry_of(name: Seq<char>) -> EntryView {
    EntryView {
        file_name: enabled_name(name),
        display_name: enabled_name(name),
        enabled: !is_disabled(name),
    }
}

fn content_entry(name: &str) -> (r: InstalledContentEntry)
    ensures
        r@ == entry_of(name@),
{
    let display_name = strip_disabled_suffix(name);
    InstalledContentEntry {
        file_name: display_name.clone(),
        display_name,
        enabled: !has_suffix(name, ".disabled"),
    }
}

/// What the files of a directory are listed as: sorted by name without regard to
/// case.
pub open spec fn listing(names: Seq<Seq<char>>) -> Seq<EntryView> {
    let shown = names.map_values(|name: Seq<char>| enabled_name(name));
    sorting::order_of(shown).map_values(|i: int| entry_of(names[i]))
}

/// Lists the files of a content directory, given their names: sorted by name
/// without regard to case.
pub fn list_profile_content_entries(names: &Vec<String>) -> (r: Vec<InstalledContentEntry>)
    ensures
        entry_views(r@) == listing(text::texts(names@)),
{
    let ghost all = text::texts(names@);
    let ghost shown = all.map_values(|name: Seq<char>| enabled_name(name));
    let mut display_names: Vec<String> = Vec::new();
    let mut i: usize = 0;
    assert(text::texts(display_names@) =~= shown.take(0));
    while i < names.len()
        invariant
            i <= names@.len(),
            all == text::texts(names@),
            shown == all.map_values(|name: Seq<char>| enabled_name(name)),
            text::texts(display_names@) == shown.take(i as int),
        decreases names@.len() - i,
    {
        let ghost before = text::texts(display_names@);
        assert(all[i as int] == names@[i as int]@);
        let shown_name = strip_disabled_suffix(names[i].as_str());
        let ghost added = shown_name@;
        display_names.push(shown_name);
        assert(text::texts(display_names@) =~= before.push(added));
        assert(shown.take(i + 1) =~= shown.take(i as int).push(added));
        i = i + 1;
    }
    assert(shown.take(shown.len() as int) =~= shown);
    assert(text::texts(display_names@).len() == display_names@.len());
    let order = sort_by_name(&display_names);
    let mut entries: Vec<InstalledContentEntry> = Vec::new();
    let ghost listed = sorting::positions(order@).map_values(|j: int| entry_of(all[j]));
    let mut k: usize = 0;
    assert(entry_views(entries@) =~= listed.take(0));
    while k < order.len()
        invariant
            k <= order@.len(),
            all == text::texts(names@),
            display_names@.len() == names@.len(),
            forall|j: int| 0 <= j < order@.len() ==> #[trigger] order@[j] < display_names@.len(),
            listed == sorting::positions(order@).map_values(|j: int| entry_of(all[j])),
            entry_views(entries@) == listed.take(k as int),
        decreases order@.len() - k,
    {
        let at = order[k];
        assert(all[at as int] == names@[at as int]@);
        let entry = content_entry(names[at].as_str());
        let ghost before = entry_views(entries@);
        let ghost added = entry@;
        entries.push(entry);
        assert(entry_views(entries@) =~= before.push(added));
        assert(listed[k as int] == added);
        assert(listed.take(k + 1) =~= listed.take(k as int).push(added));
        k = k + 1;
    }
    assert(listed.take(k as int) =~= listed);
    entries
}

/// How many of the files are switched on.
pub open spec fn enabled_count(names: Seq<Seq<char>>) -> nat
    decreases names.len(),
{
    if names.len() == 0 {
        0
    } else {
        enabled_count(names.drop_last()) + if is_disabled(names.last()) {
            0nat
        } else {
            1nat
        }
    }
}

/// Counts the files that are switched on.
pub fn count_enabled(names: &Vec<String>) -> (r: usize)
    ensures
        r == enabled_count(text::texts(names@)),
{
    let ghost all = text::texts(names@);
    let mut count: usize = 0;
    let mut i: usize = 0;
    while i < names.len()
        invariant
            i <= names@.len(),
            all == text::texts(names@),
            count <= i,
            count == enabled_count(all.take(i as int)),
        decreases names@.len() - i,
    {
        assert(all.take(i + 1).drop_last() =~= all.take(i as int));
        assert(all.take(i + 1).last() == names@[i as int]@);
        if !has_suffix(names[i].as_str(), ".disabled") {
            count = count + 1;
        }
        i = i + 1;
    }
    assert(all.take(all.len() as int) =~= all);
    count
}

/// Whether a file is a mod that the game loads.
pub open spec fn is_enabled_mod(name: Seq<char>) -> bool {
    !is_disabled(name) && path::name_has_extension(name, "jar"@)
}

/// The mods that the game loads, among the files of the directory.
pub fn enabled_mods(names: &Vec<String>) -> (r: Vec<String>)
    ensures
        text::texts(r@) == text::texts(names@).filter(|name: Seq<char>| is_enabled_mod(name)),
{
    let ghost all = text::texts(names@);
    let ghost loaded = |name: Seq<char>| is_enabled_mod(name);
    let mut kept: Vec<String> = Vec::new();
    let mut i: usize = 0;
    proof {
        reveal(Seq::filter);
        assert(text::texts(kept@) =~= all.take(0).filter(loaded));
    }
    while i < names.len()
        invariant
            i <= names@.len(),
            all == text::texts(names@),
            loaded == (|name: Seq<char>| is_enabled_mod(name)),
            text::texts(kept@) == all.take(i as int).filter(loaded),
        decreases names@.len() - i,
    {
        proof {
            reveal(Seq::filter);
            assert(all.take(i + 1).drop_last() =~= all.take(i as int));
        }
        let ghost before = text::texts(kept@);
        if !has_suffix(names[i].as_str(), ".disabled") && has_extension(names[i].as_str(), "jar") {
            kept.push(names[i].clone());
            assert(text::texts(kept@) =~= before.push(all[i as int]));
        }
        i = i + 1;
    }
    assert(all.take(all.len() as int) =~= all);
    kept
}

/// What has to be done to a file.
#[derive(Debug, Clone, PartialEq, Eq)]
pub enum FileChange {
    /// Nothing.
    Keep,
    /// Give it another path.
    Rename {
        /// The path that it has.
        from: String,
        /// The path that it gets.
        to: String,
    },
}

/// What has to be done to a file, as plain values.
pub enum ChangeView {
    Keep,
    Rename { from: Seq<char>, to: Seq<char> },
}

impl View for FileChange {
    type V = ChangeView;

    open spec fn view(&self) -> ChangeView {
        match *self {
            FileChange::Keep => ChangeView::Keep,
            FileChange::Rename { from, to } => ChangeView::Rename { from: from@, to: to@ },
        }
    }
}

/// What switching a file on or off takes: the file that is there in the other
/// state is renamed.
pub open spec fn switching(
    directory: Seq<char>,
    file_name: Seq<char>,
    enabled: bool,
    enabled_exists: bool,
    disabled_exists: bool,
) -> ChangeView {
    let on = path::joined(directory, file_name);
    let off = path::joined(directory, disabled_name(file_name));
    if enabled && disabled_exists {
        ChangeView::Rename { from: off, to: on }
    } else if !enabled && enabled_exists {
        ChangeView::Rename { from: on, to: off }
    } else {
        ChangeView::Keep
    }
}

/// The path of a file when it is switched on, and when it is switched off.
pub fn content_paths(directory: &str, file_name: &str) -> (r: (String, String))
    ensures
        r.0@ == path::joined(directory@, file_name@),
        r.1@ == path::joined(directory@, disabled_name(file_name@)),
{
    let disabled = concat2(file_name, ".disabled");
    (join_path(directory, file_name), join_path(directory, disabled.as_str()))
}

/// Switches a file on or off, given which of its two paths exist.
pub fn set_profile_content_enabled(
    directory: &str,
    file_name: &str,
    enabled: bool,
    enabled_exists: bool,
    disabled_exists: bool,
) -> (r: FileChange)
    ensures
        r@ == switching(directory@, file_name@, enabled, enabled_exists, disabled_exists),
{
    let (on, off) = content_paths(directory, file_name);
    if enabled {
        if disabled_exists {
            FileChange::Rename { from: off, to: on }
        } else {
            FileChange::Keep
        }
    } else if enabled_exists {
        FileChange::Rename { from: on, to: off }
    } else {
        FileChange::Keep
    }
}

/// The paths to delete so that the content is gone, switched on or off, given
/// which of them exist.
pub fn delete_profile_content(
    directory: &str,
    file_name: &str,
    enabled_exists: bool,
    disabled_exists: bool,
) -> (r: Vec<String>)
    ensures
        text::texts(r@) == (if enabled_exists {
            seq![path::joined(directory@, file_name@)]
        } else {
            Seq::empty()
        }) + (if disabled_exists {
            seq![path::joined(directory@, disabled_name(file_name@))]
        } else {
            Seq::empty()
        }),
{
    let (on, off) = content_paths(directory, file_name);
    let mut paths: Vec<String> = Vec::new();
    let ghost first = path::joined(directory@, file_name@);
    let ghost second = path::joined(directory@, disabled_name(file_name@));
    if enabled_exists {
        paths.push(on);
    }
    if disabled_exists {
        paths.push(off);
    }
    assert(text::texts(paths@) =~= (if enabled_exists {
        seq![first]
    } else {
        Seq::empty()
    }) + (if disabled_exists {
        seq![second]
    } else {
        Seq::empty()
    }));
    paths
}

/// Switching off keeps the file in the list under its name: a file that is
/// switched off is listed with the name that it had, as switched off.
pub proof fn law_switching_off_keeps_the_name(name: Seq<char>)
    ensures
        is_disabled(disabled_name(name)),
        enabled_name(disabled_name(name)) == name,
        entry_of(disabled_name(name)) == (EntryView {
            file_name: name,
            display_name: name,
            enabled: false,
        }),
{
    let off = disabled_name(name);
    let mark = ".disabled"@;
    assert(off.skip(off.len() - mark.len()) =~= mark);
    assert(off.take(off.len() - mark.len()) =~= name);
}

/// Switching on undoes switching off: the second renaming goes from where the
/// first one led back to where it came from.
pub proof fn law_switching_on_undoes_switching_off(directory: Seq<char>, file_name: Seq<char>)
    ensures
        ({
            let off = switching(directory, file_name, false, true, false);
            let on = switching(directory, file_name, true, false, true);
            off matches ChangeView::Rename { from, to } && on == ChangeView::Rename {
                from: to,
                to: from,
            }
        }),
{
}

/// A generated identifier names the directory of its profile as it is: none of
/// its characters is replaced.
pub proof fn law_identifier_is_a_directory_name(timestamp: u128, counter: u64)
    ensures
        sanitized(storage::profile_id(timestamp, counter)) == storage::profile_id(
            timestamp,
            counter,
        ),
{
    let id = storage::profile_id(timestamp, counter);
    reveal_strlit("profile-");
    reveal_strlit("-");
    lemma_hexadecimal_is_safe(timestamp as nat);
    lemma_hexadecimal_is_safe(counter as nat);
    assert forall|i: int| 0 <= i < id.len() implies is_safe_in_name(#[trigger] id[i]) by {
        let t = text::hexadecimal(timestamp as nat);
        let c = text::hexadecimal(counter as nat);
        if i < 8 {
            assert(id[i] == "profile-"@[i]);
        } else if i < 8 + t.len() {
            assert(id[i] == t[i - 8]);
        } else if i == 8 + t.len() {
            assert(id[i] == "-"@[0]);
        } else {
            assert(id[i] == c[i - 9 - t.len()]);
        }
    }
    assert(sanitized(id) =~= id);
}

proof fn lemma_hexadecimal_is_safe(n: nat)
    ensures
        forall|i: int|
            0 <= i < text::hexadecimal(n).len() ==> is_safe_in_name(
                #[trigger] text::hexadecimal(n)[i],
            ),
    decreases n,
{
    let digit = text::digit_char(n % 16);
    assert(is_safe_in_name(digit));
    let digits = text::hexadecimal(n);
    if n >= 16 {
        lemma_hexadecimal_is_safe(n / 16);
        let front = text::hexadecimal(n / 16);
        assert forall|i: int| 0 <= i < digits.len() implies is_safe_in_name(
            #[trigger] digits[i],
        ) by {
            if i < front.len() {
                assert(digits[i] == front[i]);
            }
        }
    } else {
        assert(n % 16 == n);
        assert(digits =~= seq![digit]);
    }
}

/// A file name never leaves its directory: it holds no separator.
pub proof fn law_file_names_hold_no_separator(input: Seq<char>)
    ensures
        !sanitized(input).contains('/'),
        !sanitized(input).contains('\\'),
        sanitized(input).len() == input.len(),
        sanitized(sanitized(input)) == sanitized(input),
{
    assert(sanitized(sanitized(input)) =~= sanitized(input));
}

/// Which characters a file name keeps: ASCII letters and digits, the hyphen, the
/// underscore and the dot. Every other one becomes an underscore.
pub proof fn law_plain_characters_are_kept(input: Seq<char>, i: int)
    requires
        0 <= i < input.len(),
    ensures
        sanitized(input).len() == input.len(),
        'a' <= input[i] <= 'z' || 'A' <= input[i] <= 'Z' || '0' <= input[i] <= '9' || input[i]
            == '-' || input[i] == '_' || input[i] == '.' ==> sanitized(input)[i] == input[i],
        !('a' <= input[i] <= 'z' || 'A' <= input[i] <= 'Z' || '0' <= input[i] <= '9' || input[i]
            == '-' || input[i] == '_' || input[i] == '.') ==> sanitized(input)[i] == '_',
{
}

/// Where a profile lies: in its own directory among the profiles of the game
/// directory. Profiles whose identifiers differ in characters that are kept do not
/// share one.
pub proof fn law_profile_has_its_own_directory(
    minecraft_root: Seq<char>,
    id: Seq<char>,
    other: Seq<char>,
)
    requires
        minecraft_root.len() > 0,
        minecraft_root.last() != '/',
        id.len() > 0 && other.len() > 0,
    ensures
        profile_directory(minecraft_root, id) == minecraft_root + "/profiles/"@ + sanitized(id),
        profile_directory(minecraft_root, id) == profile_directory(minecraft_root, other)
            ==> sanitized(id) == sanitized(other),
{
    reveal_strlit("profiles");
    reveal_strlit("/profiles/");
    assert(sanitized(id)[0] != '/' && sanitized(other)[0] != '/');
    let base = minecraft_root + "/profiles/"@;
    assert(profile_directory(minecraft_root, id) =~= base + sanitized(id));
    assert(profile_directory(minecraft_root, other) =~= base + sanitized(other));
    assert((base + sanitized(id)).skip(base.len() as int) =~= sanitized(id));
    assert((base + sanitized(other)).skip(base.len() as int) =~= sanitized(other));
}

/// The mark of a file that is switched off: its name ends in `.disabled`. Without the
/// mark the file is switched on and listed under its own name.
pub proof fn law_mark_of_a_switched_off_file(name: Seq<char>)
    ensures
        disabled_name(name) == name + ".disabled"@,
        is_disabled(name) <==> name.len() >= 9 && name.skip(name.len() - 9) == ".disabled"@,
        is_disabled(name) ==> enabled_name(name) + ".disabled"@ == name,
        !is_disabled(name) ==> enabled_name(name) == name,
        entry_of(name).enabled <==> !is_disabled(name),
        entry_of(name).file_name == enabled_name(name),
        entry_of(name).display_name == enabled_name(name),
{
    reveal_strlit(".disabled");
    if is_disabled(name) {
        assert(enabled_name(name) + ".disabled"@ =~= name);
    }
}

/// One more file is counted exactly where it is switched on.
pub proof fn law_files_that_are_on_are_counted(names: Seq<Seq<char>>, name: Seq<char>)
    ensures
        enabled_count(Seq::empty()) == 0,
        enabled_count(names.push(name + ".disabled"@)) == enabled_count(names),
        !text::closes_with(name, ".disabled"@) ==> enabled_count(names.push(name))
            == enabled_count(names) + 1,
{
    law_switching_off_keeps_the_name(name);
    assert(names.push(name).drop_last() =~= names);
    assert(names.push(name + ".disabled"@).drop_last() =~= names);
}

/// Which files the game loads as mods: those whose names end in `.jar`, behind at
/// least one other character. Switched off they are not loaded.
pub proof fn law_archives_are_loaded_as_mods(stem: Seq<char>, name: Seq<char>)
    ensures
        stem.len() > 0 ==> is_enabled_mod(stem + ".jar"@),
        is_enabled_mod(name) ==> name.len() > 4 && name.skip(name.len() - 4) == ".jar"@,
        !is_enabled_mod(name + ".disabled"@),
{
    reveal_strlit("jar");
    reveal_strlit(".jar");
    reveal_strlit(".disabled");
    assert(seq!['.'] + "jar"@ =~= ".jar"@);
    let whole = stem + ".jar"@;
    assert(whole.skip(whole.len() - 4) =~= ".jar"@);
    if text::closes_with(whole, ".disabled"@) {
        assert(whole.skip(whole.len() - 9)[8] == ".disabled"@[8]);
        assert(whole.last() == ".jar"@[3]);
    }
    law_switching_off_keeps_the_name(name);
}

/// How a file is switched: it is renamed from its path in the one state to its path
/// in the other, where it is there in the other state; else nothing is done.
pub proof fn law_switching_renames_the_file(
    directory: Seq<char>,
    file_name: Seq<char>,
    enabled_exists: bool,
    disabled_exists: bool,
)
    requires
        directory.len() > 0,
        directory.last() != '/',
        file_name.len() > 0,
        file_name[0] != '/',
    ensures
        ({
            let on = directory + seq!['/'] + file_name;
            let off = directory + seq!['/'] + file_name + ".disabled"@;
            &&& switching(directory, file_name, true, enabled_exists, true)
                == ChangeView::Rename { from: off, to: on }
            &&& switching(directory, file_name, true, enabled_exists, false) == ChangeView::Keep
            &&& switching(directory, file_name, false, true, disabled_exists)
                == ChangeView::Rename { from: on, to: off }
            &&& switching(directory, file_name, false, false, disabled_exists) == ChangeView::Keep
        }),
{
    let off = directory + seq!['/'] + file_name + ".disabled"@;
    assert(path::joined(directory, disabled_name(file_name)) =~= off);
}

/// Every file is listed once, under its name without the mark, sorted by name without
/// regard to case.
pub proof fn law_every_file_is_listed(names: Seq<Seq<char>>)
    ensures
        exists|order: Seq<int>|
            #![trigger order.len()]
            {
                &&& order.len() == names.len() == listing(names).len()
                &&& order.no_duplicates()
                &&& forall|k: int| 0 <= k < names.len() ==> 0 <= #[trigger] order[k] < names.len()
                &&& forall|k: int|
                    0 <= k < names.len() ==> (#[trigger] listing(names)[k]).enabled
                        == !is_disabled(names[order[k]]) && listing(names)[k].file_name
                        == enabled_name(names[order[k]]) && listing(names)[k].display_name
                        == enabled_name(names[order[k]])
                &&& forall|j: int, k: int|
                    0 <= j < k < names.len() ==> sorting::not_after(
                        sorting::lowercased((#[trigger] listing(names)[j]).display_name),
                        sorting::lowercased((#[trigger] listing(names)[k]).display_name),
                    )
            },
{
    let shown = names.map_values(|name: Seq<char>| enabled_name(name));
    let order = sorting::order_of(shown);
    sorting::law_order_is_sorted(shown);
    assert forall|k: int| 0 <= k < names.len() implies (#[trigger] listing(names)[k])
        == entry_of(names[order[k]]) && shown[order[k]] == enabled_name(names[order[k]]) by {
        assert(0 <= order[k] < names.len());
    }
    assert forall|j: int, k: int| 0 <= j < k < names.len() implies sorting::not_after(
        sorting::lowercased((#[trigger] listing(names)[j]).display_name),
        sorting::lowercased((#[trigger] listing(names)[k]).display_name),
    ) by {
        assert(sorting::not_after(
            sorting::lowercased(shown[order[j]]),
            sorting::lowercased(shown[order[k]]),
        ));
    }
    assert(order.len() == names.len());
}

} // verus!
