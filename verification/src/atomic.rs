//! Writes that are complete or leave no trace.
//!
//! Contents are written to a file next to their destination and moved into place
//! once they are complete, so that an interrupted write is never mistaken for a
//! complete file. Where a move replaces an existing file, the old contents stay
//! until the new ones are in place. Where it does not, the old file is removed
//! just before the move.

use vstd::prelude::*;
use vstd::string::*;

use crate::path;
use crate::path::{file_name, parent, with_file_name};

verus! {

/// A hidden name made of another one: a dot, the name and a suffix.
pub open spec fn hidden_name(name: Seq<char>, suffix: Seq<char>) -> Seq<char> {
    "."@ + name + suffix
}

/// The path of a hidden file next to `destination`; `fallback` takes the place
/// of a name that `destination` does not have.
pub open spec fn hidden_sibling(
    destination: Seq<char>,
    fallback: Seq<char>,
    suffix: Seq<char>,
) -> Seq<char> {
    let name = match path::name_part(destination) {
        Some(name) => name,
        None => fallback,
    };
    path::sibling(destination, hidden_name(name, suffix))
}

/// The hidden name made of `name`, or of `fallback` if there is no name.
pub fn hidden_file_name(name: Option<&str>, fallback: &str, suffix: &str) -> (r: String)
    ensures
        r@ == hidden_name(
            match name {
                Some(name) => name@,
                None => fallback@,
            },
            suffix@,
        ),
{
    let mut hidden = ".".to_owned();
    match name {
        Some(name) => {
            hidden.append(name);
        },
        None => {
            hidden.append(fallback);
        },
    }
    hidden.append(suffix);
    hidden
}

/// The path of the hidden file next to `destination`.
pub fn hidden_path(destination: &str, fallback: &str, suffix: &str) -> (r: String)
    ensures
        r@ == hidden_sibling(destination@, fallback@, suffix@),
{
    let hidden = match file_name(destination) {
        Some(name) => hidden_file_name(Some(name.as_str()), fallback, suffix),
        None => hidden_file_name(None, fallback, suffix),
    };
    with_file_name(destination, hidden.as_str())
}

/// The sibling path used for an atomic write.
pub fn temporary_path(path: &str) -> (r: String)
    ensures
        r@ == hidden_sibling(path@, "launcher-file"@, ".lucent-tmp"@),
{
    hidden_path(path, "launcher-file", ".lucent-tmp")
}

/// A temporary file lies in the directory of its destination and has another
/// name; destinations with different names have different temporary files.
pub proof fn law_temporary_file_is_a_distinct_sibling(
    destination: Seq<char>,
    other: Seq<char>,
    fallback: Seq<char>,
    suffix: Seq<char>,
)
    requires
        path::name_part(destination) is Some,
        path::name_part(other) is Some,
        suffix.len() > 1,
        !suffix.contains('/'),
    ensures
        ({
            let temporary = hidden_sibling(destination, fallback, suffix);
            &&& path::directory_part(temporary) == path::directory_part(destination)
            &&& path::name_part(temporary) != path::name_part(destination)
            &&& path::name_part(destination) != path::name_part(other) ==> path::name_part(
                temporary,
            ) != path::name_part(hidden_sibling(other, fallback, suffix))
        }),
{
    lemma_hidden_name(destination, suffix);
    lemma_hidden_name(other, suffix);
    let a = path::name_part(destination)->0;
    let b = path::name_part(other)->0;
    path::law_sibling_stays_in_directory(destination, hidden_name(a, suffix));
    path::law_sibling_stays_in_directory(other, hidden_name(b, suffix));
    reveal_strlit(".");
    let x = hidden_name(a, suffix);
    let y = hidden_name(b, suffix);
    assert(x.subrange(1, x.len() - suffix.len()) =~= a);
    assert(y.subrange(1, y.len() - suffix.len()) =~= b);
}

proof fn lemma_hidden_name(destination: Seq<char>, suffix: Seq<char>)
    requires
        path::name_part(destination) is Some,
        suffix.len() > 1,
        !suffix.contains('/'),
    ensures
        path::is_file_component(hidden_name(path::name_part(destination)->0, suffix)),
        !hidden_name(path::name_part(destination)->0, suffix).contains('/'),
{
    reveal_strlit(".");
    let name = path::name_part(destination)->0;
    let hidden = hidden_name(name, suffix);
    path::lemma_name_has_no_separator(destination);
    if hidden.contains('/') {
        let i = choose|i: int| 0 <= i < hidden.len() && hidden[i] == '/';
        if i == 0 {
        } else if i < 1 + name.len() {
            assert(name[i - 1] == '/');
        } else {
            assert(suffix[i - 1 - name.len()] == '/');
        }
        assert(false);
    }
}

/// What a write asks for.
#[derive(Debug, Clone, PartialEq, Eq)]
pub enum WriteAction {
    /// Create this directory.
    CreateDirectory(String),
    /// Write the contents to this file.
    WriteTemporary(String),
    /// See whether the destination exists.
    CheckDestination,
    /// Remove the destination.
    RemoveDestination,
    /// Move this file to the destination.
    Publish(String),
    /// Remove this file, whether that works or not.
    RemoveTemporary(String),
}

/// What a write asks for, as plain values.
pub enum WriteActionView {
    CreateDirectory(Seq<char>),
    WriteTemporary(Seq<char>),
    CheckDestination,
    RemoveDestination,
    Publish(Seq<char>),
    RemoveTemporary(Seq<char>),
}

impl View for WriteAction {
    type V = WriteActionView;

    open spec fn view(&self) -> WriteActionView {
        match *self {
            WriteAction::CreateDirectory(path) => WriteActionView::CreateDirectory(path@),
            WriteAction::WriteTemporary(path) => WriteActionView::WriteTemporary(path@),
            WriteAction::CheckDestination => WriteActionView::CheckDestination,
            WriteAction::RemoveDestination => WriteActionView::RemoveDestination,
            WriteAction::Publish(path) => WriteActionView::Publish(path@),
            WriteAction::RemoveTemporary(path) => WriteActionView::RemoveTemporary(path@),
        }
    }
}

/// What is asked for, as plain values.
pub open spec fn asked(action: Option<WriteAction>) -> Option<WriteActionView> {
    match action {
        Some(action) => Some(action@),
        None => None,
    }
}

/// How an action went.
#[derive(Debug, Clone, Copy, PartialEq, Eq, Structural)]
pub enum WriteReply {
    /// It is done.
    Done,
    /// Whether the destination exists.
    Exists(bool),
    /// It failed.
    Failed,
}

/// What a write waits for.
#[derive(Debug, Clone, Copy, PartialEq, Eq, Structural)]
pub enum WriteStage {
    /// The directory.
    Preparing,
    /// The temporary file.
    Writing,
    /// Whether the destination exists.
    Checking,
    /// The removal of the destination.
    Clearing,
    /// The move to the destination.
    Publishing,
    /// Nothing: the contents are in place.
    Completed,
    /// Nothing: the write failed.
    Aborted,
}

/// The temporary file of a destination.
pub open spec fn temporary_of(path: Seq<char>) -> Seq<char> {
    hidden_sibling(path, "launcher-file"@, ".lucent-tmp"@)
}

/// How a write begins.
pub open spec fn write_start(path: Seq<char>) -> (WriteStage, WriteActionView) {
    match path::parent_part(path) {
        Some(directory) => (
            WriteStage::Preparing,
            WriteActionView::CreateDirectory(directory),
        ),
        None => (WriteStage::Writing, WriteActionView::WriteTemporary(temporary_of(path))),
    }
}

/// What a reply leads to; `replaces` tells whether a move replaces an existing
/// file. A reply that the write does not wait for changes nothing. The destination
/// is removed only where it cannot be replaced, after the temporary file is
/// written, and the temporary file goes when anything fails.
pub open spec fn write_step(
    path: Seq<char>,
    replaces: bool,
    stage: WriteStage,
    reply: WriteReply,
) -> (WriteStage, Option<WriteActionView>) {
    let temporary = temporary_of(path);
    match (stage, reply) {
        (WriteStage::Preparing, WriteReply::Done) => (
            WriteStage::Writing,
            Some(WriteActionView::WriteTemporary(temporary)),
        ),
        (WriteStage::Preparing, WriteReply::Failed) => (WriteStage::Aborted, None),
        (WriteStage::Writing, WriteReply::Done) => if replaces {
            (WriteStage::Publishing, Some(WriteActionView::Publish(temporary)))
        } else {
            (WriteStage::Checking, Some(WriteActionView::CheckDestination))
        },
        (WriteStage::Checking, WriteReply::Exists(true)) => (
            WriteStage::Clearing,
            Some(WriteActionView::RemoveDestination),
        ),
        (WriteStage::Checking, WriteReply::Exists(false)) => (
            WriteStage::Publishing,
            Some(WriteActionView::Publish(temporary)),
        ),
        (WriteStage::Clearing, WriteReply::Done) => (
            WriteStage::Publishing,
            Some(WriteActionView::Publish(temporary)),
        ),
        (WriteStage::Publishing, WriteReply::Done) => (WriteStage::Completed, None),
        (WriteStage::Writing, WriteReply::Failed) => (
            WriteStage::Aborted,
            Some(WriteActionView::RemoveTemporary(temporary)),
        ),
        (WriteStage::Clearing, WriteReply::Failed) => (
            WriteStage::Aborted,
            Some(WriteActionView::RemoveTemporary(temporary)),
        ),
        (WriteStage::Publishing, WriteReply::Failed) => (
            WriteStage::Aborted,
            Some(WriteActionView::RemoveTemporary(temporary)),
        ),
        _ => (stage, None),
    }
}

/// A write of contents to a file.
#[derive(Debug)]
pub struct WriteRun {
    path: String,
    replaces: bool,
    stage: WriteStage,
}

/// Begins a write of contents to the file at `path`: they are written next to it
/// and moved into place. `replaces` tells whether a move replaces an existing file
/// on this platform.
pub fn write_bytes(path: &str, replaces: bool) -> (r: (WriteRun, WriteAction))
    ensures
        r.0.path() == path@,
        r.0.replaces() == replaces,
        (r.0.stage(), r.1@) == write_start(path@),
{
    match parent(path) {
        Some(directory) => (
            WriteRun { path: path.to_owned(), replaces, stage: WriteStage::Preparing },
            WriteAction::CreateDirectory(directory),
        ),
        None => (
            WriteRun { path: path.to_owned(), replaces, stage: WriteStage::Writing },
            WriteAction::WriteTemporary(temporary_path(path)),
        ),
    }
}

impl WriteRun {
    /// The destination.
    pub closed spec fn path(&self) -> Seq<char> {
        self.path@
    }

    /// Whether a move replaces an existing file.
    pub closed spec fn replaces(&self) -> bool {
        self.replaces
    }

    /// What the write waits for.
    pub closed spec fn stage(&self) -> WriteStage {
        self.stage
    }

    /// Whether the contents are in place.
    pub fn is_complete(&self) -> (r: bool)
        ensures
            r == (self.stage() == WriteStage::Completed),
    {
        match self.stage {
            WriteStage::Completed => true,
            _ => false,
        }
    }

    /// Takes in how an action went, and says what to do next.
    pub fn step(&mut self, reply: WriteReply) -> (r: Option<WriteAction>)
        ensures
            (final(self).stage(), asked(r)) == write_step(
                old(self).path(),
                old(self).replaces(),
                old(self).stage(),
                reply,
            ),
            final(self).path() == old(self).path(),
            final(self).replaces() == old(self).replaces(),
    {
        match (self.stage, reply) {
            (WriteStage::Preparing, WriteReply::Done) => {
                self.stage = WriteStage::Writing;
                Some(WriteAction::WriteTemporary(temporary_path(self.path.as_str())))
            },
            (WriteStage::Preparing, WriteReply::Failed) => {
                self.stage = WriteStage::Aborted;
                None
            },
            (WriteStage::Writing, WriteReply::Done) => if self.replaces {
                self.stage = WriteStage::Publishing;
                Some(WriteAction::Publish(temporary_path(self.path.as_str())))
            } else {
                self.stage = WriteStage::Checking;
                Some(WriteAction::CheckDestination)
            },
            (WriteStage::Checking, WriteReply::Exists(exists)) => if exists {
                self.stage = WriteStage::Clearing;
                Some(WriteAction::RemoveDestination)
            } else {
                self.stage = WriteStage::Publishing;
                Some(WriteAction::Publish(temporary_path(self.path.as_str())))
            },
            (WriteStage::Clearing, WriteReply::Done) => {
                self.stage = WriteStage::Publishing;
                Some(WriteAction::Publish(temporary_path(self.path.as_str())))
            },
            (WriteStage::Publishing, WriteReply::Done) => {
                self.stage = WriteStage::Completed;
                None
            },
            (WriteStage::Writing, WriteReply::Failed) => {
                self.stage = WriteStage::Aborted;
                Some(WriteAction::RemoveTemporary(temporary_path(self.path.as_str())))
            },
            (WriteStage::Clearing, WriteReply::Failed) => {
                self.stage = WriteStage::Aborted;
                Some(WriteAction::RemoveTemporary(temporary_path(self.path.as_str())))
            },
            (WriteStage::Publishing, WriteReply::Failed) => {
                self.stage = WriteStage::Aborted;
                Some(WriteAction::RemoveTemporary(temporary_path(self.path.as_str())))
            },
            _ => None,
        }
    }
}

/// The destination is touched only once the new contents are complete: it is
/// removed or replaced only after the temporary file was written, and removed only
/// where it cannot be replaced.
pub proof fn law_destination_is_touched_last(
    path: Seq<char>,
    replaces: bool,
    stage: WriteStage,
    reply: WriteReply,
)
    requires
        replaces ==> stage != WriteStage::Checking && stage != WriteStage::Clearing,
    ensures
        ({
            let (next, action) = write_step(path, replaces, stage, reply);
            &&& replaces ==> next != WriteStage::Checking && next != WriteStage::Clearing
            &&& action matches Some(WriteActionView::RemoveDestination) ==> !replaces && stage
                == WriteStage::Checking
            &&& action matches Some(WriteActionView::Publish(_)) ==> (stage == WriteStage::Writing
                && reply == WriteReply::Done) || stage == WriteStage::Checking || stage
                == WriteStage::Clearing
            &&& next == WriteStage::Checking && stage != WriteStage::Checking ==> stage
                == WriteStage::Writing && reply == WriteReply::Done
        }),
{
}

/// No temporary file is left behind: a write that fails once it has begun to write
/// removes it.
pub proof fn law_failed_write_leaves_nothing(path: Seq<char>, replaces: bool, stage: WriteStage)
    requires
        stage == WriteStage::Writing || stage == WriteStage::Clearing || stage
            == WriteStage::Publishing,
    ensures
        write_step(path, replaces, stage, WriteReply::Failed) == (
            WriteStage::Aborted,
            Some(WriteActionView::RemoveTemporary(temporary_of(path))),
        ),
{
}

/// The contents of the destination and of the temporary file.
pub struct WriteFiles {
    pub destination: Option<Seq<u8>>,
    pub temporary: Option<Seq<u8>>,
}

/// Whether a reply tells how the action that a write of `bytes` waits for went, and
/// the files changed as it did. A removal that failed and a move that failed change
/// nothing; what a failed write leaves in the temporary file is open.
pub open spec fn is_truthful(
    stage: WriteStage,
    reply: WriteReply,
    bytes: Seq<u8>,
    before: WriteFiles,
    after: WriteFiles,
) -> bool {
    match (stage, reply) {
        (WriteStage::Writing, WriteReply::Done) => after == WriteFiles {
            temporary: Some(bytes),
            ..before
        },
        (WriteStage::Writing, WriteReply::Failed) => after.destination == before.destination,
        (WriteStage::Checking, WriteReply::Exists(exists)) => after == before && exists
            == before.destination is Some,
        (WriteStage::Clearing, WriteReply::Done) => after == WriteFiles {
            destination: None,
            ..before
        },
        (WriteStage::Publishing, WriteReply::Done) => after == WriteFiles {
            destination: before.temporary,
            temporary: None,
        },
        _ => after == before,
    }
}

/// Whether a write of `bytes` over a file with the contents `old` has kept its
/// promise so far: the new contents are whole or not there, and where a move
/// replaces an existing file, the old ones stay until then.
pub open spec fn keeps_promise(
    replaces: bool,
    stage: WriteStage,
    old: Option<Seq<u8>>,
    bytes: Seq<u8>,
    files: WriteFiles,
) -> bool {
    match stage {
        WriteStage::Completed => files.destination == Some(bytes),
        WriteStage::Checking => !replaces && files == WriteFiles {
            destination: old,
            temporary: Some(bytes),
        },
        WriteStage::Clearing => !replaces && files == WriteFiles {
            destination: old,
            temporary: Some(bytes),
        },
        WriteStage::Publishing => files.temporary == Some(bytes) && (files.destination == old || (
        !replaces && files.destination is None)),
        WriteStage::Aborted => files.destination == old || (!replaces && files.destination is None),
        _ => files.destination == old,
    }
}

/// A write is whole or not at all: the destination holds the new contents once the
/// write is complete. Where a move replaces an existing file, it holds the old ones
/// until then, and keeps them if anything fails, the move among it. Elsewhere a move
/// that fails may leave no file, but never a part of one.
pub proof fn law_write_is_whole_or_not_at_all(
    path: Seq<char>,
    replaces: bool,
    stage: WriteStage,
    reply: WriteReply,
    old: Option<Seq<u8>>,
    bytes: Seq<u8>,
    before: WriteFiles,
    after: WriteFiles,
)
    requires
        keeps_promise(replaces, stage, old, bytes, before),
        is_truthful(stage, reply, bytes, before, after),
    ensures
        keeps_promise(replaces, write_step(path, replaces, stage, reply).0, old, bytes, after),
        before.destination == old ==> keeps_promise(
            replaces,
            write_start(path).0,
            old,
            bytes,
            before,
        ),
        replaces && stage == WriteStage::Publishing && reply == WriteReply::Failed
            ==> after.destination == old,
{
}

/// The hidden file of a destination: in the same directory, named by a dot, the name
/// and the suffix.
pub proof fn law_hidden_file_is_named_after_its_destination(
    directory: Seq<char>,
    name: Seq<char>,
    fallback: Seq<char>,
    suffix: Seq<char>,
)
    requires
        directory.len() > 0,
        directory.last() != '/',
        path::tidy(directory) == directory,
        path::is_file_component(name),
        !name.contains('/'),
    ensures
        hidden_sibling(directory + seq!['/'] + name, fallback, suffix) == directory + seq!['/', '.']
            + name + suffix,
        temporary_of(directory + seq!['/'] + name) == directory + seq!['/', '.'] + name
            + ".lucent-tmp"@,
{
    reveal_strlit(".");
    path::law_path_of_a_file(directory, name);
    let whole = directory + seq!['/'] + name;
    let hidden = seq!['.'] + name + suffix;
    assert("."@ + name + suffix =~= hidden);
    assert(directory + seq!['/'] + hidden =~= directory + seq!['/', '.'] + name + suffix);
    let temporary = seq!['.'] + name + ".lucent-tmp"@;
    assert("."@ + name + ".lucent-tmp"@ =~= temporary);
    assert(directory + seq!['/'] + temporary =~= directory + seq!['/', '.'] + name
        + ".lucent-tmp"@);
}

/// A write goes on where it can: the directory, the temporary file, where nothing is
/// replaced the removal of what stands there, and the move. Only the move completes it.
pub proof fn law_no_stage_of_a_write_is_left_out(
    path: Seq<char>,
    replaces: bool,
    stage: WriteStage,
    reply: WriteReply,
)
    ensures
        ({
            let (next, action) = write_step(path, replaces, stage, reply);
            let done = reply == WriteReply::Done;
            &&& stage == WriteStage::Preparing && done ==> next == WriteStage::Writing
            &&& stage == WriteStage::Writing && done && replaces ==> next == WriteStage::Publishing
            &&& stage == WriteStage::Writing && done && !replaces ==> next == WriteStage::Checking
            &&& stage == WriteStage::Checking && reply == WriteReply::Exists(true) ==> next
                == WriteStage::Clearing
            &&& stage == WriteStage::Checking && reply == WriteReply::Exists(false) ==> next
                == WriteStage::Publishing
            &&& stage == WriteStage::Clearing && done ==> next == WriteStage::Publishing
            &&& next == WriteStage::Completed && stage != next ==> stage == WriteStage::Publishing
                && done
            &&& stage == WriteStage::Publishing && done ==> next == WriteStage::Completed
            &&& reply == WriteReply::Failed && (stage == WriteStage::Preparing || stage
                == WriteStage::Writing || stage == WriteStage::Clearing || stage
                == WriteStage::Publishing) ==> next == WriteStage::Aborted
            &&& next == stage ==> action is None
            &&& next != stage ==> action == match next {
                WriteStage::Writing => Some(WriteActionView::WriteTemporary(temporary_of(path))),
                WriteStage::Checking => Some(WriteActionView::CheckDestination),
                WriteStage::Clearing => Some(WriteActionView::RemoveDestination),
                WriteStage::Publishing => Some(WriteActionView::Publish(temporary_of(path))),
                WriteStage::Aborted => if stage == WriteStage::Preparing {
                    None
                } else {
                    Some(WriteActionView::RemoveTemporary(temporary_of(path)))
                },
                _ => None,
            }
        }),
        path::parent_part(path) matches Some(directory) ==> write_start(path) == (
            WriteStage::Preparing,
            WriteActionView::CreateDirectory(directory),
        ),
        path::parent_part(path) is None ==> write_start(path) == (
            WriteStage::Writing,
            WriteActionView::WriteTemporary(temporary_of(path)),
        ),
{
}

} // verus!
