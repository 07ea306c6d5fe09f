//! Libraries that are named by Maven coordinates alone.

use vstd::prelude::*;
use vstd::string::*;

use crate::command;
use crate::command::{clone_or, LibraryEntry};
use crate::path;
use crate::path::join_path;
use crate::text;
use crate::text::{concat2, concat3, has_suffix, replace_chars, split_text};

verus! {

/// The file of an artifact.
pub open spec fn artifact_file(
    artifact: Seq<char>,
    version: Seq<char>,
    classifier: Option<Seq<char>>,
) -> Seq<char> {
    artifact + "-"@ + version + match classifier {
        Some(c) => "-"@ + c,
        None => Seq::empty(),
    } + ".jar"@
}

/// The path of an artifact in a repository, by the parts of its coordinates.
pub open spec fn artifact_path(parts: Seq<Seq<char>>) -> Seq<char> {
    let group = text::replace_char(parts[0], '.', '/');
    let file = artifact_file(
        parts[1],
        parts[2],
        if parts.len() == 4 {
            Some(parts[3])
        } else {
            None
        },
    );
    path::joined(path::joined(path::joined(group, parts[1]), parts[2]), file)
}

/// The path of the artifact that coordinates name: `group:artifact:version`, with
/// a classifier or without.
pub open spec fn relative_path(name: Seq<char>) -> Option<Seq<char>> {
    let parts = text::split(name, ':');
    if parts.len() == 3 || parts.len() == 4 {
        Some(artifact_path(parts))
    } else {
        None
    }
}

/// The path of an artifact in a repository; none if the name is no coordinates.
pub fn maven_artifact_relative_path(name: &str) -> (r: Option<String>)
    ensures
        text::opt_text(r) == relative_path(name@),
{
    let parts = split_text(name, ':');
    let ghost all = text::texts(parts@);
    assert(all == text::split(name@, ':'));
    assert(all.len() == parts@.len());
    if parts.len() != 3 && parts.len() != 4 {
        return None;
    }
    assert(all[0] == parts@[0]@ && all[1] == parts@[1]@ && all[2] == parts@[2]@);
    let mut file = concat3(parts[1].as_str(), "-", parts[2].as_str());
    if parts.len() == 4 {
        assert(all[3] == parts@[3]@);
        let classifier = concat2("-", parts[3].as_str());
        file.append(classifier.as_str());
    } else {
        assert(file@ =~= file@ + Seq::<char>::empty());
    }
    file.append(".jar");
    let group = replace_chars(parts[0].as_str(), '.', '/');
    let directory = join_path(group.as_str(), parts[1].as_str());
    let directory = join_path(directory.as_str(), parts[2].as_str());
    Some(join_path(directory.as_str(), file.as_str()))
}

/// A library that is taken from a repository.
#[derive(Debug, Clone, PartialEq, Eq)]
pub struct FallbackLibrary {
    /// The library's coordinates.
    pub name: String,
    /// The path that it is written to.
    pub destination: String,
    /// Where it is downloaded from.
    pub url: String,
}

/// A library that is taken from a repository, as plain values.
pub struct FallbackView {
    pub name: Seq<char>,
    pub destination: Seq<char>,
    pub url: Seq<char>,
}

impl View for FallbackLibrary {
    type V = FallbackView;

    open spec fn view(&self) -> FallbackView {
        FallbackView { name: self.name@, destination: self.destination@, url: self.url@ }
    }
}

/// Libraries as plain values.
pub open spec fn fallback_views(libraries: Seq<FallbackLibrary>) -> Seq<FallbackView> {
    libraries.map_values(|library: FallbackLibrary| library@)
}

/// The repository of a library, with a slash at the end.
pub open spec fn repository(library: LibraryEntry) -> Seq<char> {
    let base = command::text_or(library.url, "https://libraries.minecraft.net/"@);
    if text::closes_with(base, "/"@) {
        base
    } else {
        base + "/"@
    }
}

/// What is fetched for a library: nothing if the metadata says where it comes
/// from, if it stands for native libraries, or if its name is no coordinates.
pub open spec fn fallback_of(library: LibraryEntry, minecraft_dir: Seq<char>) -> Option<
    FallbackView,
> {
    match relative_path(library.name@) {
        Some(relative) => if library.has_artifact || library.has_natives {
            None
        } else {
            Some(
                FallbackView {
                    name: library.name@,
                    destination: path::joined(path::joined(minecraft_dir, "libraries"@), relative),
                    url: repository(library) + relative,
                },
            )
        },
        None => None,
    }
}

/// What is fetched for the first `n` libraries.
pub open spec fn fallback_list(
    libraries: Seq<LibraryEntry>,
    minecraft_dir: Seq<char>,
    n: int,
) -> Seq<FallbackView>
    decreases n,
{
    if n <= 0 {
        Seq::empty()
    } else {
        match fallback_of(libraries[n - 1], minecraft_dir) {
            Some(library) => fallback_list(libraries, minecraft_dir, n - 1).push(library),
            None => fallback_list(libraries, minecraft_dir, n - 1),
        }
    }
}

fn fallback_library(library: &LibraryEntry, minecraft_dir: &str) -> (r: Option<FallbackLibrary>)
    ensures
        match fallback_of(*library, minecraft_dir@) {
            Some(view) => r matches Some(found) && found@ == view,
            None => r is None,
        },
{
    if library.has_artifact || library.has_natives {
        return None;
    }
    let relative = match maven_artifact_relative_path(library.name.as_str()) {
        Some(relative) => relative,
        None => {
            return None;
        },
    };
    let directory = join_path(minecraft_dir, "libraries");
    let destination = join_path(directory.as_str(), relative.as_str());
    let mut url = clone_or(&library.url, "https://libraries.minecraft.net/");
    if !has_suffix(url.as_str(), "/") {
        url.append("/");
    }
    url.append(relative.as_str());
    Some(FallbackLibrary { name: library.name.clone(), destination, url })
}

/// The libraries that have to be there and that only a repository has, in the
/// order of the metadata. Those that are not there yet are to be downloaded.
pub fn ensure_maven_fallback_libraries_present(
    libraries: &Vec<LibraryEntry>,
    minecraft_dir: &str,
) -> (r: Vec<FallbackLibrary>)
    ensures
        fallback_views(r@) == fallback_list(
            libraries@,
            minecraft_dir@,
            libraries@.len() as int,
        ),
{
    let mut found: Vec<FallbackLibrary> = Vec::new();
    let mut i: usize = 0;
    assert(fallback_views(found@) =~= Seq::empty());
    while i < libraries.len()
        invariant
            i <= libraries@.len(),
            fallback_views(found@) == fallback_list(libraries@, minecraft_dir@, i as int),
        decreases libraries@.len() - i,
    {
        let ghost before = found@;
        if let Some(library) = fallback_library(&libraries[i], minecraft_dir) {
            let ghost added = library;
            found.push(library);
            assert(fallback_views(found@) =~= fallback_views(before).push(added@));
        }
        i = i + 1;
    }
    found
}

/// What is said when a library is downloaded.
pub fn missing_library_line(name: &str) -> (r: String)
    ensures
        r@ == "Downloading missing library: "@ + name@,
{
    concat2("Downloading missing library: ", name)
}

proof fn lemma_fallback_members(
    libraries: Seq<LibraryEntry>,
    minecraft_dir: Seq<char>,
    n: int,
    k: int,
) -> (i: int)
    requires
        n <= libraries.len(),
        0 <= k < fallback_list(libraries, minecraft_dir, n).len(),
    ensures
        0 <= i < n,
        fallback_of(libraries[i], minecraft_dir) == Some(
            fallback_list(libraries, minecraft_dir, n)[k],
        ),
    decreases n,
{
    let shorter = fallback_list(libraries, minecraft_dir, n - 1);
    if k < shorter.len() {
        lemma_fallback_members(libraries, minecraft_dir, n - 1, k)
    } else {
        n - 1
    }
}

/// Libraries whose download the metadata describes are never fetched in another
/// way: everything that is fetched belongs to a library of the version that has
/// neither a described download nor native libraries.
pub proof fn law_only_undescribed_libraries_are_fetched(
    libraries: Seq<LibraryEntry>,
    minecraft_dir: Seq<char>,
    k: int,
)
    requires
        0 <= k < fallback_list(libraries, minecraft_dir, libraries.len() as int).len(),
    ensures
        exists|i: int|
            0 <= i < libraries.len() && !libraries[i].has_artifact && !libraries[i].has_natives
                && (#[trigger] libraries[i]).name@ == fallback_list(
                libraries,
                minecraft_dir,
                libraries.len() as int,
            )[k].name,
{
    let i = lemma_fallback_members(libraries, minecraft_dir, libraries.len() as int, k);
    assert(libraries[i].name@ == fallback_list(
        libraries,
        minecraft_dir,
        libraries.len() as int,
    )[k].name);
}

proof fn lemma_four(a: Seq<char>, b: Seq<char>, c: Seq<char>, d: Option<Seq<char>>)
    requires
        !a.contains(':') && !b.contains(':') && !c.contains(':'),
        d matches Some(d) ==> !d.contains(':'),
    ensures
        text::split(
            match d {
                Some(d) => a + seq![':'] + b + seq![':'] + c + seq![':'] + d,
                None => a + seq![':'] + b + seq![':'] + c,
            },
            ':',
        ) == match d {
            Some(d) => seq![a, b, c, d],
            None => seq![a, b, c],
        },
{
    let glue = seq![':'];
    let three = seq![a, b, c];
    reveal_with_fuel(text::join, 5);
    assert(three.drop_last() =~= seq![a, b]);
    assert(seq![a, b].drop_last() =~= seq![a]);
    assert(text::join(three, glue) =~= a + glue + b + glue + c);
    match d {
        Some(d) => {
            let four = seq![a, b, c, d];
            assert(four.drop_last() =~= three);
            assert(text::join(four, glue) =~= a + glue + b + glue + c + glue + d);
            assert(text::free_of(four, ':'));
            text::law_split_undoes_join(four, ':');
        },
        None => {
            assert(text::free_of(three, ':'));
            text::law_split_undoes_join(three, ':');
        },
    }
}

/// Where an artifact lies in a repository: in the directories of its group, then of
/// its name and of its version, in a file named after name, version and classifier.
pub proof fn law_artifact_lies_where_its_coordinates_say(
    group: Seq<char>,
    artifact: Seq<char>,
    version: Seq<char>,
    classifier: Option<Seq<char>>,
)
    requires
        group.len() > 0 && artifact.len() > 0 && version.len() > 0,
        !group.contains(':') && !artifact.contains(':') && !version.contains(':'),
        !artifact.contains('/') && !version.contains('/'),
        group.last() != '.' && group.last() != '/',
        classifier matches Some(c) ==> !c.contains(':'),
    ensures
        ({
            let name = match classifier {
                Some(c) => group + seq![':'] + artifact + seq![':'] + version + seq![':'] + c,
                None => group + seq![':'] + artifact + seq![':'] + version,
            };
            let file = artifact + seq!['-'] + version + match classifier {
                Some(c) => seq!['-'] + c,
                None => seq![],
            } + seq!['.', 'j', 'a', 'r'];
            let directory = text::replace_char(group, '.', '/');
            relative_path(name) == Some(
                directory + seq!['/'] + artifact + seq!['/'] + version + seq!['/'] + file,
            )
        }),
{
    lemma_four(group, artifact, version, classifier);
    reveal_strlit("-");
    reveal_strlit(".jar");
    assert("-"@ =~= seq!['-']);
    assert(".jar"@ =~= seq!['.', 'j', 'a', 'r']);
    let directory = text::replace_char(group, '.', '/');
    assert(directory.last() == group.last());
    assert(artifact.contains(artifact[0]));
    assert(version.contains(version[0]));
    assert(artifact.contains(artifact.last()));
    assert(version.contains(version.last()));
    let file = artifact + seq!['-'] + version + match classifier {
        Some(c) => seq!['-'] + c,
        None => seq![],
    } + seq!['.', 'j', 'a', 'r'];
    assert(file[0] == artifact[0]);
    let first = path::joined(directory, artifact);
    assert(first =~= directory + seq!['/'] + artifact);
    assert(first.last() == artifact.last());
    let second = path::joined(first, version);
    assert(second =~= directory + seq!['/'] + artifact + seq!['/'] + version);
    assert(second.last() == version.last());
    assert(path::joined(second, file) =~= directory + seq!['/'] + artifact + seq!['/'] + version
        + seq!['/'] + file);
}

/// Names that are no coordinates have no place: those with less than three parts or
/// with more than four.
pub proof fn law_coordinates_have_three_or_four_parts(parts: Seq<Seq<char>>)
    requires
        parts.len() > 0,
        text::free_of(parts, ':'),
    ensures
        relative_path(text::join(parts, seq![':'])) is Some <==> parts.len() == 3 || parts.len()
            == 4,
{
    text::law_split_undoes_join(parts, ':');
}

/// What is fetched for a library: its artifact, from its own repository or from the
/// game's, into the libraries of the installation. Nothing is fetched for a library
/// whose download is described, for native libraries and for names that are no
/// coordinates.
pub proof fn law_library_is_fetched_from_its_repository(
    library: LibraryEntry,
    minecraft_dir: Seq<char>,
)
    requires
        minecraft_dir.len() > 0,
        minecraft_dir.last() != '/',
    ensures
        fallback_of(library, minecraft_dir) is Some <==> relative_path(library.name@) is Some
            && !library.has_artifact && !library.has_natives,
        fallback_of(library, minecraft_dir) matches Some(fetched) ==> {
            let relative = relative_path(library.name@)->0;
            &&& fetched.name == library.name@
            &&& relative.len() > 0 && relative[0] != '/' ==> fetched.destination == minecraft_dir
                + "/libraries/"@ + relative
            &&& library.url is None ==> fetched.url == "https://libraries.minecraft.net/"@
                + relative
            &&& library.url matches Some(url) ==> {
                &&& url@.len() > 0 && url@.last() == '/' ==> fetched.url == url@ + relative
                &&& url@.len() > 0 && url@.last() != '/' ==> fetched.url == url@ + seq!['/']
                    + relative
            }
        },
{
    reveal_strlit("/");
    reveal_strlit("libraries");
    reveal_strlit("/libraries/");
    reveal_strlit("https://libraries.minecraft.net/");
    assert("/"@ =~= seq!['/']);
    if let Some(fetched) = fallback_of(library, minecraft_dir) {
        let relative = relative_path(library.name@)->0;
        if relative.len() > 0 && relative[0] != '/' {
            assert(fetched.destination =~= minecraft_dir + "/libraries/"@ + relative);
        }
        let base = command::text_or(library.url, "https://libraries.minecraft.net/"@);
        if base.len() > 0 {
            let end = base.skip(base.len() - 1);
            assert(end[0] == base.last());
            assert(base.last() == '/' ==> end =~= "/"@);
        }
    }
}

/// Every library that needs it is fetched, in the order of the metadata: one more
/// library adds what is fetched for it at the end.
pub proof fn law_libraries_are_fetched_in_order(
    libraries: Seq<LibraryEntry>,
    library: LibraryEntry,
    minecraft_dir: Seq<char>,
)
    ensures
        fallback_list(libraries, minecraft_dir, 0).len() == 0,
        fallback_list(libraries.push(library), minecraft_dir, (libraries.len() + 1) as int)
            == match fallback_of(library, minecraft_dir) {
            Some(fetched) => fallback_list(
                libraries,
                minecraft_dir,
                libraries.len() as int,
            ).push(fetched),
            None => fallback_list(libraries, minecraft_dir, libraries.len() as int),
        },
{
    lemma_fallback_prefix(libraries, library, minecraft_dir, libraries.len() as int);
}

proof fn lemma_fallback_prefix(
    libraries: Seq<LibraryEntry>,
    library: LibraryEntry,
    minecraft_dir: Seq<char>,
    n: int,
)
    requires
        0 <= n <= libraries.len(),
    ensures
        fallback_list(libraries.push(library), minecraft_dir, n) == fallback_list(
            libraries,
            minecraft_dir,
            n,
        ),
    decreases n,
{
    if n > 0 {
        lemma_fallback_prefix(libraries, library, minecraft_dir, n - 1);
        assert(libraries.push(library)[n - 1] == libraries[n - 1]);
    }
}

} // verus!
