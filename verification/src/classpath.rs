//! Java classpath deduplication.
//!
//! Loader metadata can contribute several versions of one Maven artifact to a
//! classpath. Entries are identified by a key that leaves the version out, and
//! of the entries with one key the last is kept.

use vstd::prelude::*;
use vstd::string::*;

use crate::text;
use crate::text::{
    chars_of, find_chars, has_char, join_texts, keep_nonempty, replace_chars, split_text, strip_prefix,
    strip_suffix, text_between,
};

verus! {

/// The components of a path below the first `libraries` directory on it.
pub open spec fn library_components(path: Seq<char>) -> Option<Seq<Seq<char>>> {
    match text::find(path, "/libraries/"@) {
        Some(at) => Some(text::nonempty(text::split(path.skip(at + "/libraries/"@.len()), '/'))),
        None => None,
    }
}

/// The file name without the extension of a Java archive.
pub open spec fn archive_stem(file: Seq<char>) -> Seq<char> {
    match text::before_suffix(file, ".jar"@) {
        Some(stem) => stem,
        None => file,
    }
}

/// What follows `artifact-version-` in the name of an archive, or nothing.
pub open spec fn artifact_classifier(
    artifact: Seq<char>,
    version: Seq<char>,
    file: Seq<char>,
) -> Seq<char> {
    match text::after_prefix(archive_stem(file), artifact + "-"@ + version) {
        Some(rest) => match text::after_prefix(rest, "-"@) {
            Some(classifier) => classifier,
            None => Seq::empty(),
        },
        None => Seq::empty(),
    }
}

/// Group, artifact and classifier of a library laid out as
/// `group/artifact/version/file`.
pub open spec fn maven_key(components: Seq<Seq<char>>) -> Seq<char> {
    let n = components.len() as int;
    let artifact = components[n - 3];
    let classifier = artifact_classifier(artifact, components[n - 2], components[n - 1]);
    "maven:"@ + text::join(components.take(n - 3), "."@) + ":"@ + artifact + ":"@ + classifier
}

/// Whether an entry lies in a Maven layout below a `libraries` directory.
pub open spec fn is_maven_entry(entry: Seq<char>) -> bool {
    library_components(text::replace_char(entry, '\\', '/')) matches Some(components)
        && components.len() >= 4
}

/// What identifies a classpath entry: its Maven coordinates without the
/// version, or else its path with forward separators.
pub open spec fn entry_key(entry: Seq<char>) -> Seq<char> {
    let normalized = text::replace_char(entry, '\\', '/');
    if is_maven_entry(entry) {
        maven_key(library_components(normalized)->0)
    } else {
        "path:"@ + normalized
    }
}

/// The character between the entries of a classpath.
pub open spec fn entry_separator(classpath: Seq<char>) -> char {
    if classpath.contains(';') {
        ';'
    } else {
        ':'
    }
}

/// The entries of a classpath.
pub open spec fn classpath_entries(classpath: Seq<char>) -> Seq<Seq<char>> {
    text::nonempty(text::split(classpath, entry_separator(classpath)))
}

/// Whether no later entry has the key of entry `i`.
pub open spec fn is_last_of_key(entries: Seq<Seq<char>>, i: int) -> bool {
    forall|j: int| i < j < entries.len() ==> entry_key(#[trigger] entries[j]) != entry_key(
        entries[i],
    )
}

/// Those of the first `n` entries that no later entry replaces.
pub open spec fn kept_among(entries: Seq<Seq<char>>, n: int) -> Seq<Seq<char>>
    decreases n,
{
    if n <= 0 {
        Seq::empty()
    } else if is_last_of_key(entries, n - 1) {
        kept_among(entries, n - 1).push(entries[n - 1])
    } else {
        kept_among(entries, n - 1)
    }
}

/// The entries that no later entry replaces, in order.
pub open spec fn kept_entries(entries: Seq<Seq<char>>) -> Seq<Seq<char>> {
    kept_among(entries, entries.len() as int)
}

/// The classpath without replaced entries. One without entries stays as it is.
pub open spec fn deduplicated(classpath: Seq<char>) -> Seq<char> {
    let entries = classpath_entries(classpath);
    if entries.len() == 0 {
        classpath
    } else {
        text::join(kept_entries(entries), seq![entry_separator(classpath)])
    }
}

/// How many entries a deduplication takes out.
pub open spec fn replaced_count(classpath: Seq<char>) -> int {
    let entries = classpath_entries(classpath);
    entries.len() - kept_entries(entries).len()
}

proof fn lemma_kept_bounds(entries: Seq<Seq<char>>, n: int)
    requires
        0 <= n <= entries.len(),
    ensures
        kept_among(entries, n).len() <= n,
    decreases n,
{
    if n > 0 {
        lemma_kept_bounds(entries, n - 1);
    }
}

/// What identifies a classpath entry.
pub fn classpath_key(entry: &str) -> (r: String)
    ensures
        r@ == entry_key(entry@),
{
    let normalized = replace_chars(entry, '\\', '/');
    let path = chars_of(normalized.as_str());
    let marker = chars_of("/libraries/");
    let total = path.len();
    if let Some(at) = find_chars(&path, &marker) {
        let relative = text_between(&path, at + marker.len(), total);
        assert(relative@ =~= normalized@.skip(at + "/libraries/"@.len()));
        let mut parts = keep_nonempty(split_text(relative.as_str(), '/'));
        let ghost components = text::texts(parts@);
        let n = parts.len();
        if n >= 4 {
            let file = parts[n - 1].clone();
            let version = parts[n - 2].clone();
            let artifact = parts[n - 3].clone();
            parts.truncate(n - 3);
            assert(text::texts(parts@) =~= components.take(n - 3));
            let group = join_texts(&parts, ".");
            let stem = match strip_suffix(file.as_str(), ".jar") {
                Some(stem) => stem,
                None => file.clone(),
            };
            let mut prefix = artifact.clone();
            prefix.append("-");
            prefix.append(version.as_str());
            let classifier = match strip_prefix(stem.as_str(), prefix.as_str()) {
                Some(rest) => match strip_prefix(rest.as_str(), "-") {
                    Some(classifier) => classifier,
                    None => String::new(),
                },
                None => String::new(),
            };
            let mut key = "maven:".to_owned();
            key.append(group.as_str());
            key.append(":");
            key.append(artifact.as_str());
            key.append(":");
            key.append(classifier.as_str());
            return key;
        }
    }
    let mut key = "path:".to_owned();
    key.append(normalized.as_str());
    key
}

/// The keys of the entries, in order.
fn entry_keys(entries: &Vec<String>) -> (r: Vec<String>)
    ensures
        r@.len() == entries@.len(),
        forall|i: int| 0 <= i < r@.len() ==> (#[trigger] r@[i])@ == entry_key(entries@[i]@),
{
    let mut keys: Vec<String> = Vec::new();
    let mut i: usize = 0;
    while i < entries.len()
        invariant
            i <= entries@.len(),
            keys@.len() == i,
            forall|j: int| 0 <= j < i ==> (#[trigger] keys@[j])@ == entry_key(entries@[j]@),
        decreases entries@.len() - i,
    {
        keys.push(classpath_key(entries[i].as_str()));
        i = i + 1;
    }
    keys
}

/// The classpath without replaced entries, and how many were taken out.
pub fn deduplicate_classpath_string(classpath: &str) -> (r: (String, usize))
    ensures
        r.0@ == deduplicated(classpath@),
        r.1 == replaced_count(classpath@),
{
    let separator: char = if has_char(classpath, ';') {
        ';'
    } else {
        ':'
    };
    let entries = keep_nonempty(split_text(classpath, separator));
    let ghost all = classpath_entries(classpath@);
    assert(text::texts(entries@) == all);
    if entries.len() == 0 {
        return (classpath.to_owned(), 0);
    }
    let keys = entry_keys(&entries);
    let mut kept: Vec<String> = Vec::new();
    let mut i: usize = 0;
    assert(text::texts(kept@) =~= kept_among(all, 0));
    while i < entries.len()
        invariant
            i <= entries@.len(),
            all == text::texts(entries@),
            keys@.len() == entries@.len(),
            forall|j: int| 0 <= j < keys@.len() ==> (#[trigger] keys@[j])@ == entry_key(all[j]),
            text::texts(kept@) == kept_among(all, i as int),
        decreases entries@.len() - i,
    {
        let mut last = true;
        let mut j: usize = i + 1;
        while j < entries.len()
            invariant
                i < j <= entries@.len(),
                all == text::texts(entries@),
                keys@.len() == entries@.len(),
                forall|k: int| 0 <= k < keys@.len() ==> (#[trigger] keys@[k])@ == entry_key(all[k]),
                last == (forall|k: int|
                    i < k < j ==> entry_key(#[trigger] all[k]) != entry_key(all[i as int])),
            decreases entries@.len() - j,
        {
            if keys[j] == keys[i] {
                last = false;
                assert(entry_key(all[j as int]) == entry_key(all[i as int]));
            }
            j = j + 1;
        }
        let ghost before = text::texts(kept@);
        if last {
            kept.push(entries[i].clone());
            assert(text::texts(kept@) =~= before.push(all[i as int]));
        }
        i = i + 1;
    }
    proof {
        lemma_kept_bounds(all, all.len() as int);
    }
    assert(kept@.len() == text::texts(kept@).len());
    let removed: usize = entries.len() - kept.len();
    let mut glue = String::new();
    glue.push(separator);
    assert(glue@ =~= seq![entry_separator(classpath@)]);
    (join_texts(&kept, glue.as_str()), removed)
}

/// Whether no two entries have one key.
pub open spec fn keys_distinct(entries: Seq<Seq<char>>) -> bool {
    forall|i: int, j: int|
        0 <= i < j < entries.len() ==> entry_key(#[trigger] entries[i]) != entry_key(
            #[trigger] entries[j],
        )
}

/// Whether `entry` is one of the first `n` entries and the last with its key.
pub open spec fn is_last_among(entries: Seq<Seq<char>>, n: int, entry: Seq<char>) -> bool {
    exists|i: int| 0 <= i < n && entries[i] == entry && #[trigger] is_last_of_key(entries, i)
}

proof fn lemma_kept_from(entries: Seq<Seq<char>>, n: int)
    requires
        0 <= n <= entries.len(),
    ensures
        forall|k: int|
            0 <= k < kept_among(entries, n).len() ==> is_last_among(
                entries,
                n,
                #[trigger] kept_among(entries, n)[k],
            ),
        forall|i: int|
            0 <= i < n && #[trigger] is_last_of_key(entries, i) ==> kept_among(
                entries,
                n,
            ).contains(entries[i]),
        keys_distinct(kept_among(entries, n)),
    decreases n,
{
    if n > 0 {
        lemma_kept_from(entries, n - 1);
        let before = kept_among(entries, n - 1);
        let now = kept_among(entries, n);
        assert forall|k: int| 0 <= k < now.len() implies is_last_among(
            entries,
            n,
            #[trigger] now[k],
        ) by {
            if k < before.len() {
                assert(now[k] == before[k]);
                let i = choose|i: int|
                    0 <= i < n - 1 && entries[i] == before[k] && is_last_of_key(entries, i);
                assert(is_last_of_key(entries, i));
            } else {
                assert(is_last_of_key(entries, n - 1));
            }
        }
        assert forall|i: int| 0 <= i < n && #[trigger] is_last_of_key(
            entries,
            i,
        ) implies now.contains(entries[i]) by {
            if i < n - 1 {
                assert(before.contains(entries[i]));
                let k = choose|k: int| 0 <= k < before.len() && before[k] == entries[i];
                assert(now[k] == entries[i]);
            } else {
                assert(now[now.len() - 1] == entries[i]);
            }
        }
        assert forall|a: int, b: int| 0 <= a < b < now.len() implies entry_key(#[trigger] now[a])
            != entry_key(#[trigger] now[b]) by {
            assert(now[a] == before[a]);
            if b < before.len() {
                assert(now[b] == before[b]);
            } else {
                let i = choose|i: int|
                    0 <= i < n - 1 && entries[i] == before[a] && is_last_of_key(entries, i);
                assert(entry_key(entries[n - 1]) != entry_key(entries[i]));
            }
        }
    }
}

/// The last occurrence wins: of the entries with one key, the last one is kept
/// and no other; so no two entries that are kept have one key.
pub proof fn law_last_occurrence_wins(entries: Seq<Seq<char>>)
    ensures
        keys_distinct(kept_entries(entries)),
        forall|i: int|
            0 <= i < entries.len() && #[trigger] is_last_of_key(entries, i)
                ==> kept_entries(entries).contains(entries[i]),
        forall|k: int|
            0 <= k < kept_entries(entries).len() ==> is_last_among(
                entries,
                entries.len() as int,
                #[trigger] kept_entries(entries)[k],
            ),
{
    lemma_kept_from(entries, entries.len() as int);
}

proof fn lemma_last_with_key(entries: Seq<Seq<char>>, i: int) -> (last: int)
    requires
        0 <= i < entries.len(),
    ensures
        i <= last < entries.len(),
        entry_key(entries[last]) == entry_key(entries[i]),
        is_last_of_key(entries, last),
    decreases entries.len() - i,
{
    if is_last_of_key(entries, i) {
        i
    } else {
        let j = choose|j: int|
            i < j < entries.len() && entry_key(#[trigger] entries[j]) == entry_key(entries[i]);
        lemma_last_with_key(entries, j)
    }
}

/// Deduplication loses no artifact: the key of every entry is the key of an
/// entry that is kept.
pub proof fn law_every_key_survives(entries: Seq<Seq<char>>, i: int)
    requires
        0 <= i < entries.len(),
    ensures
        exists|k: int|
            0 <= k < kept_entries(entries).len() && entry_key(
                #[trigger] kept_entries(entries)[k],
            ) == entry_key(entries[i]),
{
    let last = lemma_last_with_key(entries, i);
    law_last_occurrence_wins(entries);
    let kept = kept_entries(entries);
    assert(kept.contains(entries[last]));
    let k = choose|k: int| 0 <= k < kept.len() && kept[k] == entries[last];
    assert(entry_key(kept[k]) == entry_key(entries[i]));
}

proof fn lemma_distinct_kept(entries: Seq<Seq<char>>, n: int)
    requires
        0 <= n <= entries.len(),
        keys_distinct(entries),
    ensures
        kept_among(entries, n) == entries.take(n),
    decreases n,
{
    if n > 0 {
        lemma_distinct_kept(entries, n - 1);
        assert(is_last_of_key(entries, n - 1));
        assert(entries.take(n) =~= entries.take(n - 1).push(entries[n - 1]));
    } else {
        assert(entries.take(0) =~= kept_among(entries, 0));
    }
}

/// A second deduplication of the entries that were kept takes nothing out.
pub proof fn law_deduplication_is_idempotent(entries: Seq<Seq<char>>)
    ensures
        kept_entries(kept_entries(entries)) == kept_entries(entries),
{
    law_last_occurrence_wins(entries);
    let kept = kept_entries(entries);
    lemma_distinct_kept(kept, kept.len() as int);
    assert(kept.take(kept.len() as int) =~= kept);
}

/// Entries outside a Maven layout have one key exactly where their paths agree
/// once backward separators are read as forward ones.
pub proof fn law_plain_paths_are_their_own_key(a: Seq<char>, b: Seq<char>)
    requires
        !is_maven_entry(a),
        !is_maven_entry(b),
    ensures
        (entry_key(a) == entry_key(b)) == (text::replace_char(a, '\\', '/') == text::replace_char(
            b,
            '\\',
            '/',
        )),
{
    let x = text::replace_char(a, '\\', '/');
    let y = text::replace_char(b, '\\', '/');
    let head = "path:"@;
    assert((head + x).skip(head.len() as int) =~= x);
    assert((head + y).skip(head.len() as int) =~= y);
}

/// Two archives of one artifact share a key whatever their versions are, if
/// each is named after its own version and both have the same classifier.
pub proof fn law_versions_share_a_key(
    group: Seq<Seq<char>>,
    artifact: Seq<char>,
    version_a: Seq<char>,
    version_b: Seq<char>,
    classifier: Seq<char>,
)
    ensures
        ({
            let name_a = artifact + "-"@ + version_a + "-"@ + classifier + ".jar"@;
            let name_b = artifact + "-"@ + version_b + "-"@ + classifier + ".jar"@;
            maven_key(group.push(artifact).push(version_a).push(name_a)) == maven_key(
                group.push(artifact).push(version_b).push(name_b),
            )
        }),
        ({
            let plain_a = artifact + "-"@ + version_a + ".jar"@;
            let plain_b = artifact + "-"@ + version_b + ".jar"@;
            maven_key(group.push(artifact).push(version_a).push(plain_a)) == maven_key(
                group.push(artifact).push(version_b).push(plain_b),
            )
        }),
{
    lemma_named_key(group, artifact, version_a, classifier);
    lemma_named_key(group, artifact, version_b, classifier);
}

proof fn lemma_named_key(
    group: Seq<Seq<char>>,
    artifact: Seq<char>,
    version: Seq<char>,
    classifier: Seq<char>,
)
    ensures
        maven_key(
            group.push(artifact).push(version).push(
                artifact + "-"@ + version + "-"@ + classifier + ".jar"@,
            ),
        ) == "maven:"@ + text::join(group, "."@) + ":"@ + artifact + ":"@ + classifier,
        maven_key(
            group.push(artifact).push(version).push(artifact + "-"@ + version + ".jar"@),
        ) == "maven:"@ + text::join(group, "."@) + ":"@ + artifact + ":"@ + Seq::<char>::empty(),
{
    let prefix = artifact + "-"@ + version;
    let named = prefix + "-"@ + classifier;
    let plain = prefix + ".jar"@;
    assert((named + ".jar"@).skip(named.len() as int) =~= ".jar"@);
    assert((named + ".jar"@).take(named.len() as int) =~= named);
    assert(plain.skip(prefix.len() as int) =~= ".jar"@);
    assert(plain.take(prefix.len() as int) =~= prefix);
    assert(named.take(prefix.len() as int) =~= prefix);
    assert(named.skip(prefix.len() as int) =~= "-"@ + classifier);
    assert(("-"@ + classifier).take("-"@.len() as int) =~= "-"@);
    assert(("-"@ + classifier).skip("-"@.len() as int) =~= classifier);
    assert(prefix.take(prefix.len() as int) =~= prefix);
    assert(prefix.skip(prefix.len() as int) =~= Seq::<char>::empty());
    reveal_strlit("-");
    let a = group.push(artifact).push(version).push(named + ".jar"@);
    let b = group.push(artifact).push(version).push(plain);
    assert(a.take(a.len() - 3) =~= group);
    assert(b.take(b.len() - 3) =~= group);
}

/// What a deduplication gives back consists of the kept entries: splitting it
/// at the separator of the given classpath gives exactly these.
pub proof fn law_result_holds_the_kept_entries(classpath: Seq<char>)
    requires
        classpath_entries(classpath).len() > 0,
    ensures
        text::split(deduplicated(classpath), entry_separator(classpath)) == kept_entries(
            classpath_entries(classpath),
        ),
{
    let separator = entry_separator(classpath);
    let pieces = text::split(classpath, separator);
    let entries = classpath_entries(classpath);
    let kept = kept_entries(entries);
    text::law_split_is_free_of_separator(classpath, separator);
    law_every_key_survives(entries, 0);
    law_last_occurrence_wins(entries);
    assert forall|k: int| 0 <= k < kept.len() implies !(#[trigger] kept[k]).contains(
        separator,
    ) by {
        assert(is_last_among(entries, entries.len() as int, kept[k]));
        let i = choose|i: int|
            0 <= i < entries.len() && entries[i] == kept[k] && is_last_of_key(entries, i);
        text::lemma_nonempty_members(pieces);
        assert(pieces.contains(text::nonempty(pieces)[i]));
        let at = choose|at: int| 0 <= at < pieces.len() && pieces[at] == entries[i];
        assert(!pieces[at].contains(separator));
    }
    text::law_split_undoes_join(kept, separator);
}

/// The file name of an archive in a Maven repository.
pub open spec fn archive_name(
    artifact: Seq<char>,
    version: Seq<char>,
    classifier: Option<Seq<char>>,
) -> Seq<char> {
    match classifier {
        Some(c) => artifact + seq!['-'] + version + seq!['-'] + c + seq!['.', 'j', 'a', 'r'],
        None => artifact + seq!['-'] + version + seq!['.', 'j', 'a', 'r'],
    }
}

/// The directories and the file of an archive in a Maven repository.
pub open spec fn archive_place(
    group: Seq<Seq<char>>,
    artifact: Seq<char>,
    version: Seq<char>,
    classifier: Option<Seq<char>>,
) -> Seq<Seq<char>> {
    group.push(artifact).push(version).push(archive_name(artifact, version, classifier))
}

/// The path of an archive below a `libraries` directory.
pub open spec fn archive_path(
    root: Seq<char>,
    group: Seq<Seq<char>>,
    artifact: Seq<char>,
    version: Seq<char>,
    classifier: Option<Seq<char>>,
) -> Seq<char> {
    root + "/libraries/"@ + text::join(
        archive_place(group, artifact, version, classifier),
        seq!['/'],
    )
}

/// Whether texts can be the names of directories: they are not empty and hold no
/// separator.
pub open spec fn are_components(names: Seq<Seq<char>>) -> bool {
    forall|i: int|
        0 <= i < names.len() ==> (#[trigger] names[i]).len() > 0 && !names[i].contains('/')
            && !names[i].contains('\\')
}

/// Whether a text is the first that reads `/libraries/` on a path that continues it.
pub open spec fn leads_to_libraries(root: Seq<char>, path: Seq<char>) -> bool {
    &&& !path.contains('\\')
    &&& forall|at: int|
        0 <= at < root.len() && at + 11 <= path.len() ==> #[trigger] path.subrange(at, at + 11)
            != "/libraries/"@
}

proof fn lemma_keep_all(pieces: Seq<Seq<char>>)
    requires
        forall|i: int| 0 <= i < pieces.len() ==> (#[trigger] pieces[i]).len() > 0,
    ensures
        text::nonempty(pieces) == pieces,
    decreases pieces.len(),
{
    reveal(Seq::filter);
    if pieces.len() > 0 {
        assert forall|i: int| 0 <= i < pieces.drop_last().len() implies (
        #[trigger] pieces.drop_last()[i]).len() > 0 by {
            assert(pieces.drop_last()[i] == pieces[i]);
        }
        lemma_keep_all(pieces.drop_last());
        assert(pieces.last().len() > 0) by {
            assert(pieces[pieces.len() - 1].len() > 0);
        }
        assert(pieces.drop_last().push(pieces.last()) =~= pieces);
    } else {
        assert(text::nonempty(pieces) =~= pieces);
    }
}

proof fn lemma_archive_components(
    group: Seq<Seq<char>>,
    artifact: Seq<char>,
    version: Seq<char>,
    classifier: Option<Seq<char>>,
)
    requires
        are_components(group),
        are_components(seq![artifact, version]),
        classifier matches Some(c) ==> are_components(seq![c]),
    ensures
        are_components(archive_place(group, artifact, version, classifier)),
{
    let name = archive_name(artifact, version, classifier);
    let place = archive_place(group, artifact, version, classifier);
    let two = seq![artifact, version];
    assert(two[0] == artifact && two[1] == version);
    assert(!artifact.contains('/') && !version.contains('/'));
    assert(!artifact.contains('\\') && !version.contains('\\'));
    assert forall|i: int| 0 <= i < name.len() implies name[i] != '/' && name[i] != '\\' by {
        let a = artifact.len() as int;
        let v = version.len() as int;
        if i < a {
            assert(name[i] == artifact[i]);
            assert(artifact.contains(artifact[i]));
        } else if i == a {
            assert(name[i] == '-');
        } else if i < a + 1 + v {
            assert(name[i] == version[i - a - 1]);
            assert(version.contains(version[i - a - 1]));
        } else {
            match classifier {
                Some(c) => {
                    assert(seq![c][0] == c);
                    let n = c.len() as int;
                    if i == a + 1 + v {
                        assert(name[i] == '-');
                    } else if i < a + v + 2 + n {
                        assert(name[i] == c[i - a - v - 2]);
                        assert(c.contains(c[i - a - v - 2]));
                    } else {
                        assert(name[i] == seq!['.', 'j', 'a', 'r'][i - a - v - 2 - n]);
                    }
                },
                None => {
                    assert(name[i] == seq!['.', 'j', 'a', 'r'][i - a - 1 - v]);
                },
            }
        }
    }
    assert forall|i: int| 0 <= i < place.len() implies (#[trigger] place[i]).len() > 0
        && !place[i].contains('/') && !place[i].contains('\\') by {
        if i < group.len() {
            assert(place[i] == group[i]);
        } else if i == group.len() {
            assert(place[i] == artifact);
        } else if i == group.len() + 1 {
            assert(place[i] == version);
        } else {
            assert(place[i] == name);
        }
    }
}

/// What identifies an archive of a Maven repository: its group, its artifact and its
/// classifier, whatever its version is, however deep its group lies and wherever the
/// `libraries` directory is.
pub proof fn law_archives_are_known_by_their_coordinates(
    root: Seq<char>,
    group: Seq<Seq<char>>,
    artifact: Seq<char>,
    version: Seq<char>,
    classifier: Option<Seq<char>>,
)
    requires
        group.len() >= 1,
        are_components(group),
        are_components(seq![artifact, version]),
        classifier matches Some(c) ==> are_components(seq![c]),
        leads_to_libraries(root, archive_path(root, group, artifact, version, classifier)),
    ensures
        entry_key(archive_path(root, group, artifact, version, classifier)) == "maven:"@
            + text::join(group, seq!['.']) + seq![':'] + artifact + seq![':'] + match classifier {
            Some(c) => c,
            None => seq![],
        },
{
    let path = archive_path(root, group, artifact, version, classifier);
    let place = archive_place(group, artifact, version, classifier);
    let rest = text::join(place, seq!['/']);
    let marker = "/libraries/"@;
    reveal_strlit("/libraries/");
    reveal_strlit(".");
    reveal_strlit(":");
    reveal_strlit("-");
    reveal_strlit(".jar");
    let normalized = text::replace_char(path, '\\', '/');
    assert forall|i: int| 0 <= i < path.len() implies normalized[i] == path[i] by {
        assert(path.contains(path[i]));
    }
    assert(normalized =~= path);
    let at = root.len() as int;
    assert(path.subrange(at, at + 11) =~= marker);
    assert(text::occurs_at(path, marker, at));
    text::lemma_find_from(path, marker, 0);
    assert(text::find(path, marker) == Some(at)) by {
        let found = text::find(path, marker);
        assert(found is Some);
        let f = found->0;
        if f < at {
            assert(path.subrange(f, f + 11) == marker);
            assert(false);
        }
        if f > at {
            assert(!text::occurs_at(path, marker, at));
        }
    }
    assert(path.skip(at + marker.len()) =~= rest);
    lemma_archive_components(group, artifact, version, classifier);
    assert(text::free_of(place, '/'));
    text::law_split_undoes_join(place, '/');
    lemma_keep_all(place);
    assert(library_components(normalized) == Some(place));
    assert("."@ =~= seq!['.']);
    assert(":"@ =~= seq![':']);
    assert("-"@ =~= seq!['-']);
    assert(".jar"@ =~= seq!['.', 'j', 'a', 'r']);
    match classifier {
        Some(c) => {
            lemma_named_key(group, artifact, version, c);
        },
        None => {
            lemma_named_key(group, artifact, version, Seq::empty());
        },
    }
}

/// Of two versions of one artifact only the later one stays: their entries have one
/// key, so that the earlier one is replaced, whatever lies between them.
pub proof fn law_later_version_replaces_the_earlier(
    entries: Seq<Seq<char>>,
    i: int,
    j: int,
    roots: (Seq<char>, Seq<char>),
    group: Seq<Seq<char>>,
    artifact: Seq<char>,
    versions: (Seq<char>, Seq<char>),
    classifier: Option<Seq<char>>,
)
    requires
        0 <= i < j < entries.len(),
        entries[i] == archive_path(roots.0, group, artifact, versions.0, classifier),
        entries[j] == archive_path(roots.1, group, artifact, versions.1, classifier),
        entries[i] != entries[j],
        leads_to_libraries(roots.0, entries[i]),
        leads_to_libraries(roots.1, entries[j]),
        group.len() >= 1,
        are_components(group),
        are_components(seq![artifact, versions.0]),
        are_components(seq![artifact, versions.1]),
        classifier matches Some(c) ==> are_components(seq![c]),
        forall|k: int| i < k < entries.len() ==> #[trigger] entries[k] != entries[i],
    ensures
        !kept_entries(entries).contains(entries[i]),
        j == entries.len() - 1 ==> kept_entries(entries).contains(entries[j]),
{
    law_archives_are_known_by_their_coordinates(
        roots.0,
        group,
        artifact,
        versions.0,
        classifier,
    );
    law_archives_are_known_by_their_coordinates(
        roots.1,
        group,
        artifact,
        versions.1,
        classifier,
    );
    assert(entry_key(entries[j]) == entry_key(entries[i]));
    let kept = kept_entries(entries);
    law_last_occurrence_wins(entries);
    if j == entries.len() - 1 {
        assert(is_last_of_key(entries, j));
    }
    if kept.contains(entries[i]) {
        let k = choose|k: int| 0 <= k < kept.len() && kept[k] == entries[i];
        assert(is_last_among(entries, entries.len() as int, kept[k]));
        let at = choose|at: int|
            0 <= at < entries.len() && entries[at] == kept[k] && is_last_of_key(entries, at);
        assert(at <= i);
        assert(entry_key(entries[j]) != entry_key(entries[at]));
    }
}

proof fn lemma_kept_with_one_more(entries: Seq<Seq<char>>, entry: Seq<char>, n: int)
    requires
        0 <= n <= entries.len(),
    ensures
        kept_among(entries.push(entry), n) == kept_among(entries, n).filter(
            |kept: Seq<char>| entry_key(kept) != entry_key(entry),
        ),
    decreases n,
{
    reveal(Seq::filter);
    let stays = |kept: Seq<char>| entry_key(kept) != entry_key(entry);
    let longer = entries.push(entry);
    if n > 0 {
        lemma_kept_with_one_more(entries, entry, n - 1);
        let last = entries[n - 1];
        assert(longer[n - 1] == last);
        assert(longer[entries.len() as int] == entry);
        if is_last_of_key(longer, n - 1) {
            assert(entry_key(longer[entries.len() as int]) != entry_key(last));
            assert forall|j: int| n - 1 < j < entries.len() implies entry_key(
                #[trigger] entries[j],
            ) != entry_key(last) by {
                assert(longer[j] == entries[j]);
            }
        }
        if is_last_of_key(entries, n - 1) {
            let before = kept_among(entries, n - 1);
            assert(before.push(last).drop_last() =~= before);
            if stays(last) {
                assert forall|j: int| n - 1 < j < longer.len() implies entry_key(
                    #[trigger] longer[j],
                ) != entry_key(longer[n - 1]) by {
                    if j < entries.len() {
                        assert(longer[j] == entries[j]);
                    }
                }
            }
        }
    } else {
        assert(kept_among(entries, 0).filter(stays) =~= Seq::empty());
    }
}

/// How deduplication goes on: another entry takes the place of the one that has its
/// key, if there is one, and stands last; all others stay, in their order.
pub proof fn law_new_entry_takes_the_place_of_its_key(entries: Seq<Seq<char>>, entry: Seq<char>)
    ensures
        kept_entries(Seq::empty()) == Seq::<Seq<char>>::empty(),
        kept_entries(entries.push(entry)) == kept_entries(entries).filter(
            |kept: Seq<char>| entry_key(kept) != entry_key(entry),
        ).push(entry),
{
    lemma_kept_with_one_more(entries, entry, entries.len() as int);
    let longer = entries.push(entry);
    assert(is_last_of_key(longer, longer.len() - 1));
}

/// What a classpath consists of: entries between colons, or between semicolons where
/// there is one. Deduplication keeps the separator, and counts what it takes out.
pub proof fn law_classpath_is_a_list_of_entries(entries: Seq<Seq<char>>, separator: char)
    requires
        entries.len() > 0,
        separator == ':' || separator == ';',
        separator == ';' ==> entries.len() > 1,
        forall|i: int|
            0 <= i < entries.len() ==> (#[trigger] entries[i]).len() > 0 && !entries[i].contains(
                separator,
            ) && !entries[i].contains(';'),
    ensures
        deduplicated(text::join(entries, seq![separator])) == text::join(
            kept_entries(entries),
            seq![separator],
        ),
        replaced_count(text::join(entries, seq![separator])) == entries.len() - kept_entries(
            entries,
        ).len(),
{
    let classpath = text::join(entries, seq![separator]);
    lemma_joined_contains(entries, separator, ';');
    assert(text::free_of(entries, separator));
    text::law_split_undoes_join(entries, separator);
    lemma_keep_all(entries);
    assert(entry_separator(classpath) == separator);
}

proof fn lemma_joined_contains(entries: Seq<Seq<char>>, separator: char, wanted: char)
    requires
        forall|i: int| 0 <= i < entries.len() ==> !(#[trigger] entries[i]).contains(wanted),
    ensures
        text::join(entries, seq![separator]).contains(wanted) == (separator == wanted
            && entries.len() > 1),
    decreases entries.len(),
{
    let whole = text::join(entries, seq![separator]);
    if entries.len() == 1 {
        assert(!entries[0].contains(wanted));
    } else if entries.len() > 1 {
        let front = entries.drop_last();
        assert forall|i: int| 0 <= i < front.len() implies !(#[trigger] front[i]).contains(
            wanted,
        ) by {
            assert(front[i] == entries[i]);
        }
        lemma_joined_contains(front, separator, wanted);
        let head = text::join(front, seq![separator]);
        let last = entries.last();
        assert(!entries[entries.len() - 1].contains(wanted));
        assert(whole[head.len() as int] == separator);
        if whole.contains(wanted) {
            let i = choose|i: int| 0 <= i < whole.len() && whole[i] == wanted;
            if i < head.len() {
                assert(head[i] == wanted);
                assert(head.contains(wanted));
            } else if i > head.len() {
                assert(last[i - head.len() - 1] == wanted);
                assert(last.contains(wanted));
            }
        }
    } else {
        assert(whole =~= Seq::empty());
    }
}

} // verus!
