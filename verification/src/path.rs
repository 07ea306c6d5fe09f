//! Paths as text whose components are separated by `/`.
//!
//! A path names a file by its last component. Repeated separators, a trailing
//! separator and the component `.` do not change which file that is; the
//! component `..` names no file.

use vstd::prelude::*;
use vstd::string::*;

use crate::text;
use crate::text::{chars_of, same_text, split_text, text_between};

verus! {

/// The path without trailing separators and trailing `.` components. A lone
/// separator and a lone `.` stay.
pub open spec fn tidy(path: Seq<char>) -> Seq<char>
    decreases path.len(),
{
    if path.len() >= 2 && path.last() == '/' {
        tidy(path.drop_last())
    } else if path.len() >= 2 && path.last() == '.' && path[path.len() - 2] == '/' {
        tidy(path.drop_last())
    } else {
        path
    }
}

/// Where the last component begins: after the last separator.
pub open spec fn base_start(path: Seq<char>) -> int
    decreases path.len(),
{
    if path.len() == 0 {
        0
    } else if path.last() == '/' {
        path.len() as int
    } else {
        base_start(path.drop_last())
    }
}

/// Whether a component names a file.
pub open spec fn is_file_component(component: Seq<char>) -> bool {
    component.len() > 0 && component != seq!['.'] && component != seq!['.', '.']
}

/// The name of the file that a path leads to.
pub open spec fn name_part(path: Seq<char>) -> Option<Seq<char>> {
    let tidied = tidy(path);
    let last = tidied.skip(base_start(tidied));
    if is_file_component(last) {
        Some(last)
    } else {
        None
    }
}

/// The path of the directory that holds the last component.
pub open spec fn directory_part(path: Seq<char>) -> Seq<char> {
    let tidied = tidy(path);
    tidy(tidied.take(base_start(tidied)))
}

/// The directory of the last component; none for the root and the empty path.
pub open spec fn parent_part(path: Seq<char>) -> Option<Seq<char>> {
    if tidy(path).len() == 0 || tidy(path) == seq!['/'] {
        None
    } else {
        Some(directory_part(path))
    }
}

/// `part` taken relative to `base`; an absolute `part` stands for itself.
pub open spec fn joined(base: Seq<char>, part: Seq<char>) -> Seq<char> {
    if part.len() > 0 && part[0] == '/' {
        part
    } else if base.len() == 0 || base.last() == '/' {
        base + part
    } else {
        base + seq!['/'] + part
    }
}

/// The path with its file name, if it has one, replaced by `name`.
pub open spec fn sibling(path: Seq<char>, name: Seq<char>) -> Seq<char> {
    if name_part(path) is Some {
        joined(directory_part(path), name)
    } else {
        joined(path, name)
    }
}

/// Whether a path begins at the root.
pub open spec fn is_absolute(path: Seq<char>) -> bool {
    path.len() > 0 && path[0] == '/'
}

/// Whether a piece between separators behind the first one says where a path leads.
pub open spec fn is_significant(piece: Seq<char>) -> bool {
    piece.len() > 0 && piece != seq!['.']
}

/// The components of a path: repeated separators, a trailing one and the component
/// `.` behind the first place are left out.
pub open spec fn components(path: Seq<char>) -> Seq<Seq<char>> {
    let pieces = text::split(path, '/');
    seq![pieces[0]] + pieces.skip(1).filter(|piece: Seq<char>| is_significant(piece))
}

/// Whether two paths have the same components.
pub open spec fn same_path(a: Seq<char>, b: Seq<char>) -> bool {
    is_absolute(a) == is_absolute(b) && components(a) == components(b)
}

/// Whether a file name ends in a dot and `extension` after at least one other
/// character.
pub open spec fn name_has_extension(name: Seq<char>, extension: Seq<char>) -> bool {
    let tail = seq!['.'] + extension;
    name.len() > tail.len() && text::closes_with(name, tail)
}

/// How much of the first `end` characters is left once they are tidied.
fn tidy_end(text: &Vec<char>, end: usize) -> (r: usize)
    requires
        end <= text@.len(),
    ensures
        r <= end,
        text@.take(r as int) == tidy(text@.take(end as int)),
{
    let mut to: usize = end;
    while to >= 2 && (text[to - 1] == '/' || (text[to - 1] == '.' && text[to - 2] == '/'))
        invariant
            to <= end <= text@.len(),
            tidy(text@.take(end as int)) == tidy(text@.take(to as int)),
        decreases to,
    {
        assert(text@.take(to as int).drop_last() =~= text@.take(to - 1));
        to = to - 1;
    }
    to
}

/// Where the last component of the first `end` characters begins.
fn last_component(text: &Vec<char>, end: usize) -> (r: usize)
    requires
        end <= text@.len(),
    ensures
        r <= end,
        r == base_start(text@.take(end as int)),
{
    let mut at: usize = end;
    while at > 0 && text[at - 1] != '/'
        invariant
            at <= end <= text@.len(),
            base_start(text@.take(end as int)) == base_start(text@.take(at as int)),
        decreases at,
    {
        assert(text@.take(at as int).drop_last() =~= text@.take(at - 1));
        at = at - 1;
    }
    at
}

/// The name of the file that the path leads to.
pub fn file_name(path: &str) -> (r: Option<String>)
    ensures
        text::opt_text(r) == name_part(path@),
{
    let text = chars_of(path);
    assert(text@.take(text@.len() as int) =~= path@);
    let end = tidy_end(&text, text.len());
    let start = last_component(&text, end);
    let ghost tidied = tidy(path@);
    assert(text@.subrange(start as int, end as int) =~= tidied.skip(start as int));
    let ghost last = tidied.skip(start as int);
    let len: usize = end - start;
    let special = len == 0 || (len == 1 && text[start] == '.') || (len == 2 && text[start] == '.'
        && text[start + 1] == '.');
    if special {
        assert(len == 1 ==> last =~= seq!['.']);
        assert(len == 2 ==> last =~= seq!['.', '.']);
        None
    } else {
        assert(last == seq!['.'] ==> len == 1 && last[0] == '.');
        assert(last == seq!['.', '.'] ==> len == 2 && last[0] == '.' && last[1] == '.');
        Some(text_between(&text, start, end))
    }
}

/// The path of the directory that holds the last component.
fn directory(path: &str) -> (r: String)
    ensures
        r@ == directory_part(path@),
{
    let text = chars_of(path);
    assert(text@.take(text@.len() as int) =~= path@);
    let end = tidy_end(&text, text.len());
    let start = last_component(&text, end);
    assert(tidy(path@).take(start as int) =~= text@.take(start as int));
    let to = tidy_end(&text, start);
    let r = text_between(&text, 0, to);
    assert(r@ =~= text@.take(to as int));
    r
}

/// The directory of the last component; none for the root and the empty path.
pub fn parent(path: &str) -> (r: Option<String>)
    ensures
        text::opt_text(r) == parent_part(path@),
{
    let text = chars_of(path);
    assert(text@.take(text@.len() as int) =~= path@);
    let end = tidy_end(&text, text.len());
    let ghost tidied = tidy(path@);
    assert(end == tidied.len());
    if end == 0 || (end == 1 && text[0] == '/') {
        assert(end == 1 ==> tidied =~= seq!['/']);
        None
    } else {
        assert(tidied == seq!['/'] ==> end == 1 && tidied[0] == '/' && text@[0] == tidied[0]);
        Some(directory(path))
    }
}

/// `part` taken relative to `base`; an absolute `part` stands for itself.
pub fn join_path(base: &str, part: &str) -> (r: String)
    ensures
        r@ == joined(base@, part@),
{
    let tail = chars_of(part);
    if tail.len() > 0 && tail[0] == '/' {
        return part.to_owned();
    }
    let head = chars_of(base);
    let mut out = base.to_owned();
    if head.len() > 0 && head[head.len() - 1] != '/' {
        out.push('/');
        assert(out@ =~= base@ + seq!['/']);
    }
    out.append(part);
    out
}

/// The path with its file name, if it has one, replaced by `name`.
pub fn with_file_name(path: &str, name: &str) -> (r: String)
    ensures
        r@ == sibling(path@, name@),
{
    if file_name(path).is_some() {
        let base = directory(path);
        join_path(base.as_str(), name)
    } else {
        join_path(path, name)
    }
}

/// Whether a file name ends in a dot and `extension` after at least one other
/// character.
pub fn has_extension(name: &str, extension: &str) -> (r: bool)
    ensures
        r == name_has_extension(name@, extension@),
{
    let mut tail = String::new();
    tail.push('.');
    assert(tail@ =~= seq!['.']);
    tail.append(extension);
    chars_of(name).len() > chars_of(tail.as_str()).len() && text::has_suffix(
        name,
        tail.as_str(),
    )
}

/// The components of the path.
fn path_components(path: &str) -> (r: Vec<String>)
    ensures
        text::texts(r@) == components(path@),
{
    let pieces = split_text(path, '/');
    let ghost all = text::split(path@, '/');
    let ghost rest = all.skip(1);
    let ghost stays = |piece: Seq<char>| is_significant(piece);
    proof {
        text::law_split_is_free_of_separator(path@, '/');
        assert(text::texts(pieces@).len() == pieces@.len());
        assert(text::texts(pieces@)[0] == pieces@[0]@);
        reveal(Seq::filter);
    }
    let mut found: Vec<String> = Vec::new();
    found.push(pieces[0].clone());
    assert(text::texts(found@) =~= seq![all[0]] + rest.take(0).filter(stays));
    let mut i: usize = 1;
    while i < pieces.len()
        invariant
            1 <= i <= pieces@.len(),
            text::texts(pieces@) == all,
            all.len() == pieces@.len(),
            rest == all.skip(1),
            stays == (|piece: Seq<char>| is_significant(piece)),
            text::texts(found@) == seq![all[0]] + rest.take(i - 1).filter(stays),
        decreases pieces@.len() - i,
    {
        let piece = pieces[i].as_str();
        proof {
            assert(text::texts(pieces@)[i as int] == pieces@[i as int]@);
            assert(rest.take(i as int).drop_last() =~= rest.take(i - 1));
            assert(rest.take(i as int).last() == all[i as int]);
            reveal(Seq::filter);
            reveal_strlit(".");
            assert("."@ =~= seq!['.']);
        }
        let ghost before = text::texts(found@);
        if !piece.is_empty() && !same_text(piece, ".") {
            found.push(pieces[i].clone());
            assert(text::texts(found@) =~= before.push(all[i as int]));
            assert(text::texts(found@) =~= seq![all[0]] + rest.take(i as int).filter(stays));
        }
        i = i + 1;
    }
    assert(rest.take(rest.len() as int) =~= rest);
    found
}

/// Whether two paths have the same components.
pub fn is_same_path(a: &str, b: &str) -> (r: bool)
    ensures
        r == same_path(a@, b@),
{
    let first = chars_of(a);
    let second = chars_of(b);
    let rooted = first.len() > 0 && first[0] == '/';
    let other_rooted = second.len() > 0 && second[0] == '/';
    if rooted != other_rooted {
        return false;
    }
    let ours = path_components(a);
    let theirs = path_components(b);
    assert(text::texts(ours@).len() == ours@.len());
    assert(text::texts(theirs@).len() == theirs@.len());
    if ours.len() != theirs.len() {
        return false;
    }
    let mut i: usize = 0;
    while i < ours.len()
        invariant
            i <= ours@.len(),
            ours@.len() == theirs@.len(),
            text::texts(ours@) == components(a@),
            text::texts(theirs@) == components(b@),
            forall|j: int| 0 <= j < i ==> components(a@)[j] == #[trigger] components(b@)[j],
        decreases ours@.len() - i,
    {
        assert(text::texts(ours@)[i as int] == ours@[i as int]@);
        assert(text::texts(theirs@)[i as int] == theirs@[i as int]@);
        if !same_text(ours[i].as_str(), theirs[i].as_str()) {
            return false;
        }
        i = i + 1;
    }
    assert(components(a@) =~= components(b@));
    true
}

proof fn lemma_tidy_fixed(path: Seq<char>)
    ensures
        tidy(tidy(path)) == tidy(path),
        tidy(path).len() <= path.len(),
        tidy(path).len() > 0 && tidy(path).last() == '/' ==> tidy(path).len() == 1,
    decreases path.len(),
{
    if path.len() >= 2 && (path.last() == '/' || (path.last() == '.' && path[path.len() - 2]
        == '/')) {
        lemma_tidy_fixed(path.drop_last());
    }
}

proof fn lemma_base_start_of_join(head: Seq<char>, name: Seq<char>)
    requires
        !name.contains('/'),
        head.len() == 0 || head.last() == '/',
    ensures
        base_start(head + name) == head.len(),
    decreases name.len(),
{
    let whole = head + name;
    if name.len() == 0 {
        assert(whole =~= head);
    } else {
        assert(whole.last() == name.last());
        assert(name.last() == name[name.len() - 1]);
        assert(whole.drop_last() =~= head + name.drop_last());
        assert forall|c: char| name.drop_last().contains(c) implies name.contains(c) by {
            let i = choose|i: int| 0 <= i < name.drop_last().len() && name.drop_last()[i] == c;
            assert(name[i] == c);
        }
        lemma_base_start_of_join(head, name.drop_last());
    }
}

proof fn lemma_after_base_start(path: Seq<char>)
    ensures
        0 <= base_start(path) <= path.len(),
        forall|i: int| base_start(path) <= i < path.len() ==> path[i] != '/',
    decreases path.len(),
{
    if path.len() > 0 && path.last() != '/' {
        lemma_after_base_start(path.drop_last());
        assert forall|i: int| base_start(path) <= i < path.len() implies path[i] != '/' by {
            if i < path.len() - 1 {
                assert(path.drop_last()[i] == path[i]);
            }
        }
    }
}

/// A file name holds no separator.
pub proof fn lemma_name_has_no_separator(path: Seq<char>)
    ensures
        name_part(path) matches Some(name) ==> !name.contains('/'),
{
    let tidied = tidy(path);
    lemma_after_base_start(tidied);
    let last = tidied.skip(base_start(tidied));
    if last.contains('/') {
        let i = choose|i: int| 0 <= i < last.len() && last[i] == '/';
        assert(tidied[base_start(tidied) + i] == '/');
    }
}

/// A file next to another one: a name that holds no separator and is neither
/// `.` nor `..` becomes the file name of the sibling path, which lies in the
/// same directory.
pub proof fn law_sibling_stays_in_directory(path: Seq<char>, name: Seq<char>)
    requires
        name_part(path) is Some,
        is_file_component(name),
        !name.contains('/'),
    ensures
        name_part(sibling(path, name)) == Some(name),
        directory_part(sibling(path, name)) == directory_part(path),
{
    let dir = directory_part(path);
    let tidied = tidy(path);
    lemma_tidy_fixed(tidied.take(base_start(tidied)));
    assert(name[0] != '/') by {
        assert(name.contains(name[0]));
    }
    let head = if dir.len() == 0 || dir.last() == '/' {
        dir
    } else {
        dir + seq!['/']
    };
    let whole = sibling(path, name);
    assert(whole =~= head + name);
    lemma_base_start_of_join(head, name);
    assert(whole.last() == name.last());
    assert(name.contains(name.last()));
    if whole.len() >= 2 && whole.last() == '.' && whole[whole.len() - 2] == '/' {
        if name.len() >= 2 {
            assert(whole[whole.len() - 2] == name[name.len() - 2]);
            assert(name.contains(name[name.len() - 2]));
        } else {
            assert(name =~= seq!['.']);
        }
        assert(false);
    }
    assert(tidy(whole) == whole);
    assert(whole.skip(head.len() as int) =~= name);
    assert(whole.take(head.len() as int) =~= head);
    if head != dir {
        assert(head.drop_last() =~= dir);
        assert(tidy(head) == tidy(dir));
    }
}

/// Where a path leads: a file in a directory has its name and lies in that
/// directory.
pub proof fn law_path_of_a_file(directory: Seq<char>, name: Seq<char>)
    requires
        directory.len() > 0,
        directory.last() != '/',
        tidy(directory) == directory,
        is_file_component(name),
        !name.contains('/'),
    ensures
        name_part(directory + seq!['/'] + name) == Some(name),
        directory_part(directory + seq!['/'] + name) == directory,
        parent_part(directory + seq!['/'] + name) == Some(directory),
{
    let head = directory + seq!['/'];
    let whole = head + name;
    lemma_base_start_of_join(head, name);
    assert(name.contains(name.last()));
    assert(whole.last() == name.last());
    if whole.len() >= 2 && whole.last() == '.' && whole[whole.len() - 2] == '/' {
        if name.len() >= 2 {
            assert(whole[whole.len() - 2] == name[name.len() - 2]);
            assert(name.contains(name[name.len() - 2]));
        } else {
            assert(name =~= seq!['.']);
        }
        assert(false);
    }
    assert(tidy(whole) == whole);
    assert(whole.skip(head.len() as int) =~= name);
    assert(whole.take(head.len() as int) =~= head);
    assert(head.drop_last() =~= directory);
    assert(tidy(head) == tidy(directory));
    assert(whole != seq!['/']) by {
        assert(whole.len() >= 2);
    }
}

/// How paths are joined: with one separator between them, whether the first ends in
/// one or not; an absolute second path stands for itself.
pub proof fn law_joined_paths(base: Seq<char>, part: Seq<char>)
    requires
        part.len() > 0,
    ensures
        part[0] == '/' ==> joined(base, part) == part,
        part[0] != '/' && base.len() > 0 && base.last() != '/' ==> joined(base, part) == base
            + seq!['/'] + part,
        part[0] != '/' && (base.len() == 0 || base.last() == '/') ==> joined(base, part) == base
            + part,
{
}

/// What a path without a separator is: a name, in no named directory; and what ends
/// in a separator or in the component `.` leads where the path without it leads.
pub proof fn law_trailing_parts_do_not_matter(path: Seq<char>)
    requires
        path.len() > 0,
        path.last() != '/',
    ensures
        name_part(path + seq!['/']) == name_part(path),
        directory_part(path + seq!['/']) == directory_part(path),
        name_part(path + seq!['/', '.']) == name_part(path),
        directory_part(path + seq!['/', '.']) == directory_part(path),
        is_file_component(path) && !path.contains('/') ==> name_part(path) == Some(path)
            && directory_part(path) == Seq::<char>::empty(),
        path == seq!['.', '.'] ==> name_part(path) is None,
{
    let slash = path + seq!['/'];
    let dot = path + seq!['/', '.'];
    assert(slash.drop_last() =~= path);
    assert(dot.drop_last() =~= slash);
    assert(dot[dot.len() - 2] == '/');
    assert(tidy(slash) == tidy(path));
    assert(tidy(dot) == tidy(slash));
    if !path.contains('/') {
        let nothing = Seq::<char>::empty();
        assert(nothing + path =~= path);
        lemma_base_start_of_join(nothing, path);
        if path.len() >= 2 && path.last() == '.' && path[path.len() - 2] == '/' {
            assert(path.contains(path[path.len() - 2]));
        }
        assert(tidy(path) == path);
        assert(path.skip(0) =~= path);
        assert(path.take(0) =~= nothing);
    }
}

/// Whether two paths are one: they are, where the one repeats a separator or names
/// the current directory on the way; and paths of other files are not.
pub proof fn law_same_path_ignores_detours(first: Seq<char>, rest: Seq<Seq<char>>, at: int)
    requires
        !first.contains('/'),
        rest.len() > 0,
        forall|i: int|
            0 <= i < rest.len() ==> !(#[trigger] rest[i]).contains('/') && is_significant(rest[i]),
        0 <= at <= rest.len(),
    ensures
        ({
            let path = text::join(seq![first] + rest, seq!['/']);
            let repeated = text::join(
                seq![first] + rest.take(at) + seq![Seq::<char>::empty()] + rest.skip(at),
                seq!['/'],
            );
            let dotted = text::join(
                seq![first] + rest.take(at) + seq![seq!['.']] + rest.skip(at),
                seq!['/'],
            );
            &&& same_path(path, path)
            &&& components(path) == seq![first] + rest
            &&& components(repeated) == seq![first] + rest
            &&& components(dotted) == seq![first] + rest
        }),
{
    let nothing = Seq::<char>::empty();
    let dot = seq!['.'];
    let plain = seq![first] + rest;
    lemma_components_of(first, rest);
    let a = rest.take(at) + seq![nothing] + rest.skip(at);
    let b = rest.take(at) + seq![dot] + rest.skip(at);
    assert(seq![first] + rest.take(at) + seq![nothing] + rest.skip(at) =~= seq![first] + a);
    assert(seq![first] + rest.take(at) + seq![dot] + rest.skip(at) =~= seq![first] + b);
    assert(!nothing.contains('/'));
    assert(!dot.contains('/'));
    assert forall|i: int| 0 <= i < a.len() implies !(#[trigger] a[i]).contains('/') by {
        if i < at {
            assert(a[i] == rest[i]);
        } else if i > at {
            assert(a[i] == rest[i - 1]);
        }
    }
    assert forall|i: int| 0 <= i < b.len() implies !(#[trigger] b[i]).contains('/') by {
        if i < at {
            assert(b[i] == rest[i]);
        } else if i > at {
            assert(b[i] == rest[i - 1]);
        }
    }
    lemma_components_of(first, a);
    lemma_components_of(first, b);
    let stays = |piece: Seq<char>| is_significant(piece);
    assert forall|i: int| 0 <= i < rest.take(at).len() implies stays(
        #[trigger] rest.take(at)[i],
    ) by {
        assert(rest.take(at)[i] == rest[i]);
    }
    assert forall|i: int| 0 <= i < rest.skip(at).len() implies stays(
        #[trigger] rest.skip(at)[i],
    ) by {
        assert(rest.skip(at)[i] == rest[at + i]);
    }
    assert forall|i: int| 0 <= i < rest.len() implies stays(#[trigger] rest[i]) by {}
    lemma_filter_around(rest.take(at), nothing, rest.skip(at), stays);
    lemma_filter_around(rest.take(at), dot, rest.skip(at), stays);
    lemma_filter_all(rest, stays);
    assert(rest.take(at) + rest.skip(at) =~= rest);
}

proof fn lemma_components_of(first: Seq<char>, rest: Seq<Seq<char>>)
    requires
        !first.contains('/'),
        forall|i: int| 0 <= i < rest.len() ==> !(#[trigger] rest[i]).contains('/'),
    ensures
        components(text::join(seq![first] + rest, seq!['/'])) == seq![first] + rest.filter(
            |piece: Seq<char>| is_significant(piece),
        ),
{
    let all = seq![first] + rest;
    assert forall|i: int| 0 <= i < all.len() implies !(#[trigger] all[i]).contains('/') by {
        if i > 0 {
            assert(all[i] == rest[i - 1]);
        }
    }
    assert(text::free_of(all, '/'));
    text::law_split_undoes_join(all, '/');
    assert(all.skip(1) =~= rest);
}

proof fn lemma_filter_all(items: Seq<Seq<char>>, keep: spec_fn(Seq<char>) -> bool)
    requires
        forall|i: int| 0 <= i < items.len() ==> keep(#[trigger] items[i]),
    ensures
        items.filter(keep) == items,
    decreases items.len(),
{
    reveal(Seq::filter);
    if items.len() > 0 {
        assert forall|i: int| 0 <= i < items.drop_last().len() implies keep(
            #[trigger] items.drop_last()[i],
        ) by {
            assert(items.drop_last()[i] == items[i]);
        }
        lemma_filter_all(items.drop_last(), keep);
        assert(keep(items[items.len() - 1]));
        assert(items.drop_last().push(items.last()) =~= items);
    } else {
        assert(items.filter(keep) =~= items);
    }
}

proof fn lemma_filter_around(
    first: Seq<Seq<char>>,
    gone: Seq<char>,
    second: Seq<Seq<char>>,
    keep: spec_fn(Seq<char>) -> bool,
)
    requires
        !keep(gone),
        forall|i: int| 0 <= i < first.len() ==> keep(#[trigger] first[i]),
        forall|i: int| 0 <= i < second.len() ==> keep(#[trigger] second[i]),
    ensures
        (first + seq![gone] + second).filter(keep) == first + second,
    decreases second.len(),
{
    reveal(Seq::filter);
    let whole = first + seq![gone] + second;
    if second.len() == 0 {
        assert(whole.drop_last() =~= first);
        assert(whole.last() == gone);
        lemma_filter_all(first, keep);
        assert(first + second =~= first);
    } else {
        let shorter = second.drop_last();
        assert forall|i: int| 0 <= i < shorter.len() implies keep(#[trigger] shorter[i]) by {
            assert(shorter[i] == second[i]);
        }
        lemma_filter_around(first, gone, shorter, keep);
        assert(whole.drop_last() =~= first + seq![gone] + shorter);
        assert(whole.last() == second.last());
        assert(keep(second[second.len() - 1]));
        assert((first + shorter).push(second.last()) =~= first + second);
    }
}

/// Whether two paths without detours are one: exactly where they are written alike.
pub proof fn law_other_files_have_other_paths(a: Seq<Seq<char>>, b: Seq<Seq<char>>)
    requires
        a.len() > 1,
        b.len() > 1,
        forall|i: int|
            0 <= i < a.len() ==> !(#[trigger] a[i]).contains('/') && is_significant(a[i]),
        forall|i: int|
            0 <= i < b.len() ==> !(#[trigger] b[i]).contains('/') && is_significant(b[i]),
    ensures
        same_path(text::join(a, seq!['/']), text::join(b, seq!['/'])) <==> a == b,
{
    let rest_a = a.skip(1);
    let rest_b = b.skip(1);
    assert(seq![a[0]] + rest_a =~= a);
    assert(seq![b[0]] + rest_b =~= b);
    assert forall|i: int| 0 <= i < rest_a.len() implies !(#[trigger] rest_a[i]).contains('/')
        && is_significant(rest_a[i]) by {
        assert(rest_a[i] == a[i + 1]);
    }
    assert forall|i: int| 0 <= i < rest_b.len() implies !(#[trigger] rest_b[i]).contains('/')
        && is_significant(rest_b[i]) by {
        assert(rest_b[i] == b[i + 1]);
    }
    law_same_path_ignores_detours(a[0], rest_a, 0);
    law_same_path_ignores_detours(b[0], rest_b, 0);
}

/// Which pieces say where a path leads: all but the empty one and the dot. A file is
/// named by any but these and the two dots.
pub proof fn law_dots_name_no_file(piece: Seq<char>)
    ensures
        is_significant(piece) <==> piece.len() > 0 && piece != seq!['.'],
        is_file_component(piece) <==> piece.len() > 0 && piece != seq!['.'] && piece
            != seq!['.', '.'],
{
}

/// A file has an extension where its name ends in a dot and the extension, behind at
/// least one other character.
pub proof fn law_extension_follows_a_dot(stem: Seq<char>, extension: Seq<char>, name: Seq<char>)
    ensures
        stem.len() > 0 ==> name_has_extension(stem + seq!['.'] + extension, extension),
        !name_has_extension(seq!['.'] + extension, extension),
        name_has_extension(name, extension) ==> name.len() > extension.len() + 1 && name[name.len()
            - extension.len() - 1] == '.' && name.skip(name.len() - extension.len()) == extension,
{
    let tail = seq!['.'] + extension;
    let whole = stem + seq!['.'] + extension;
    assert(whole.skip(whole.len() - tail.len()) =~= tail);
    if name_has_extension(name, extension) {
        let end = name.skip(name.len() - tail.len());
        assert(end[0] == '.');
        assert(name.skip(name.len() - extension.len()) =~= end.skip(1));
        assert(tail.skip(1) =~= extension);
    }
}

/// How the file name of a path is replaced: the new one stands in the directory of the
/// old one. A path without a file name gets it behind itself.
pub proof fn law_new_name_stands_in_the_directory(path: Seq<char>, name: Seq<char>)
    ensures
        name_part(path) is Some ==> sibling(path, name) == joined(directory_part(path), name),
        name_part(path) is None ==> sibling(path, name) == joined(path, name),
        is_absolute(path) <==> path.len() > 0 && path[0] == '/',
{
}

} // verus!
