//! Repair of a profile's mods before a launch.
//!
//! Every enabled mod is looked up at the content service by its digest. A mod
//! that does not work in the profile is replaced by a version of it that does.
//! Where there is none, the mod is switched off, once all replacements are in
//! place.

use vstd::prelude::*;
use vstd::string::*;

use crate::address;
use crate::address::RequestView;
use crate::checksum;
use crate::checksum::sha1_hex;
use crate::content;
use crate::content::enabled_mods;
use crate::modrinth;
use crate::modrinth::{
    apply_modrinth_update_to_mod_path, find_compatible_version, is_modrinth_version_compatible,
    project_versions_url, update_for_hash_url, version_by_hash_url, ContentDownload,
    ContentDownloadView, ModrinthVersion,
};
use crate::path;
use crate::path::{file_name, join_path, with_file_name};
use crate::profile;
use crate::profile::LauncherProfile;
use crate::text;
use crate::text::{concat2, concat3, concat5, decimal_text};

verus! {

/// What a repair did.
#[derive(Debug, Clone, PartialEq, Eq)]
pub struct ModRepairSummary {
    /// How many mods were looked at.
    pub checked: usize,
    /// How many were replaced.
    pub updated: usize,
    /// How many were switched off.
    pub disabled: usize,
    /// How many are not known to the service.
    pub unknown: usize,
    /// The files of those that were switched off.
    pub disabled_mods: Vec<String>,
}

/// What a repair did, as plain values.
pub struct SummaryView {
    pub checked: int,
    pub updated: int,
    pub disabled: int,
    pub unknown: int,
    pub disabled_mods: Seq<Seq<char>>,
}

impl View for ModRepairSummary {
    type V = SummaryView;

    open spec fn view(&self) -> SummaryView {
        SummaryView {
            checked: self.checked as int,
            updated: self.updated as int,
            disabled: self.disabled as int,
            unknown: self.unknown as int,
            disabled_mods: text::texts(self.disabled_mods@),
        }
    }
}

/// What a repair asks for.
#[derive(Debug)]
pub enum RepairAction {
    /// A line for the log.
    Log(String),
    /// Read the mod at this path.
    ReadMod(String),
    /// Look up the version that a mod is.
    LookUpVersion(url::Url),
    /// Look up a version that works in place of a mod.
    LookUpUpdate(url::Url),
    /// List the versions of a project.
    ListVersions(url::Url),
    /// Download a file, and remove another one if it says so.
    Replace {
        /// What is downloaded.
        download: ContentDownload,
        /// What is removed.
        remove: Option<String>,
    },
    /// Give a file another path.
    Rename {
        /// The path that it has.
        from: String,
        /// The path that it gets.
        to: String,
    },
}

/// What a repair asks for, as plain values.
pub enum RepairActionView {
    Log(Seq<char>),
    ReadMod(Seq<char>),
    LookUpVersion(RequestView),
    LookUpUpdate(RequestView),
    ListVersions(RequestView),
    Replace { download: ContentDownloadView, remove: Option<Seq<char>> },
    Rename { from: Seq<char>, to: Seq<char> },
}

impl View for RepairAction {
    type V = RepairActionView;

    open spec fn view(&self) -> RepairActionView {
        match *self {
            RepairAction::Log(line) => RepairActionView::Log(line@),
            RepairAction::ReadMod(path) => RepairActionView::ReadMod(path@),
            RepairAction::LookUpVersion(url) => RepairActionView::LookUpVersion(
                address::requested(url),
            ),
            RepairAction::LookUpUpdate(url) => RepairActionView::LookUpUpdate(
                address::requested(url),
            ),
            RepairAction::ListVersions(url) => RepairActionView::ListVersions(
                address::requested(url),
            ),
            RepairAction::Replace { download, remove } => RepairActionView::Replace {
                download: download@,
                remove: text::opt_text(remove),
            },
            RepairAction::Rename { from, to } => RepairActionView::Rename { from: from@, to: to@ },
        }
    }
}

/// Actions as plain values.
pub open spec fn action_views(actions: Seq<RepairAction>) -> Seq<RepairActionView> {
    actions.map_values(|action: RepairAction| action@)
}

fn emit(actions: &mut Vec<RepairAction>, action: RepairAction)
    ensures
        action_views(final(actions)@) == action_views(old(actions)@).push(action@),
{
    let ghost before = actions@;
    let ghost added = action;
    actions.push(action);
    assert(action_views(actions@) =~= action_views(before).push(added@));
}

/// How an action went.
#[derive(Debug)]
pub enum RepairReply {
    /// The contents of a mod.
    Contents(Vec<u8>),
    /// The version that was found, if one was.
    Version(Option<ModrinthVersion>),
    /// The versions of a project.
    Versions(Vec<ModrinthVersion>),
    /// The files are changed.
    Done,
    /// The action failed.
    Failed(String),
}

/// What a repair waits for.
#[derive(Debug, Clone, Copy, PartialEq, Eq, Structural)]
pub enum RepairStage {
    /// The contents of a mod.
    Reading,
    /// The version that the mod is.
    LookingUp,
    /// A version that works in its place.
    Updating,
    /// The versions of its project.
    Searching,
    /// The replacement of the mod.
    Replacing,
    /// The renaming of a mod that is switched off.
    Disabling,
    /// Nothing: the repair is over.
    Over,
}

/// What a repair works on.
pub struct RepairJob {
    pub profile: LauncherProfile,
    pub directory: Seq<char>,
    pub mods: Seq<Seq<char>>,
}

/// The state of a repair as plain values.
pub struct RepairView {
    pub stage: RepairStage,
    /// The mod that is being looked at.
    pub at: int,
    /// Its digest.
    pub hash: Seq<char>,
    /// Its project.
    pub project_id: Option<Seq<char>>,
    /// The file that replaces it.
    pub target: Seq<char>,
    /// The mods that are to be switched off.
    pub pending: Seq<Seq<char>>,
    pub summary: SummaryView,
    /// Why the repair failed.
    pub error: Option<Seq<char>>,
}

/// The path of a mod.
pub open spec fn mod_path(job: RepairJob, at: int) -> Seq<char> {
    path::joined(job.directory, job.mods[at])
}

/// The path of a mod once it is switched off.
pub open spec fn disabled_path(path: Seq<char>) -> Option<Seq<char>> {
    match path::name_part(path) {
        Some(name) => Some(path::sibling(path, content::disabled_name(name))),
        None => None,
    }
}

/// The name of the file at a path, as it is shown.
pub open spec fn shown_name(path: Seq<char>) -> Seq<char> {
    match path::name_part(path) {
        Some(name) => name,
        None => "<unknown>"@,
    }
}

/// A repair that ends with a failure.
pub open spec fn failing(v: RepairView, error: Seq<char>) -> (RepairView, Seq<RepairActionView>) {
    (RepairView { stage: RepairStage::Over, error: Some(error), ..v }, seq![])
}

/// The turn to the mod at `k` among those that are to be switched off.
pub open spec fn disable_from(v: RepairView, k: int) -> (RepairView, Seq<RepairActionView>) {
    if k < v.pending.len() {
        match disabled_path(v.pending[k]) {
            Some(to) => (
                RepairView { stage: RepairStage::Disabling, ..v },
                seq![RepairActionView::Rename { from: v.pending[k], to }],
            ),
            None => failing(v, "failed resolving filename for '"@ + v.pending[k] + "'"@),
        }
    } else {
        (RepairView { stage: RepairStage::Over, ..v }, seq![])
    }
}

/// The turn to the mod at `at`.
pub open spec fn turn_to(job: RepairJob, v: RepairView, at: int) -> (
    RepairView,
    Seq<RepairActionView>,
) {
    let v = RepairView { at, ..v };
    if at < job.mods.len() {
        (
            RepairView {
                stage: RepairStage::Reading,
                summary: SummaryView { checked: at + 1, ..v.summary },
                ..v
            },
            seq![RepairActionView::ReadMod(mod_path(job, at))],
        )
    } else {
        disable_from(v, 0)
    }
}

/// The turn to the next mod, after a line for the log.
pub open spec fn next_after_log(job: RepairJob, v: RepairView, line: Seq<char>) -> (
    RepairView,
    Seq<RepairActionView>,
) {
    let (v, actions) = turn_to(job, v, v.at + 1);
    (v, seq![RepairActionView::Log(line)] + actions)
}

/// A mod for which there is no replacement: it is switched off later.
pub open spec fn give_up(job: RepairJob, v: RepairView) -> (RepairView, Seq<RepairActionView>) {
    next_after_log(
        job,
        RepairView { pending: v.pending.push(mod_path(job, v.at)), ..v },
        "Auto-repair: no compatible replacement found for '"@ + job.mods[v.at]
            + "'; will disable after retrieval phase"@,
    )
}

/// A mod for which there is a replacement.
pub open spec fn replace(job: RepairJob, v: RepairView, update: ModrinthVersion) -> (
    RepairView,
    Seq<RepairActionView>,
) {
    let existing = mod_path(job, v.at);
    match modrinth::replacement(update, existing) {
        Ok((download, removes)) => (
            RepairView { stage: RepairStage::Replacing, target: download.target, ..v },
            seq![
                RepairActionView::Replace {
                    download,
                    remove: if removes {
                        Some(existing)
                    } else {
                        None
                    },
                },
            ],
        ),
        Err(error) => failing(v, modrinth::update_error_text(error, existing)),
    }
}

/// What follows the contents of a mod.
pub open spec fn after_contents(v: RepairView, bytes: Seq<u8>) -> (
    RepairView,
    Seq<RepairActionView>,
) {
    let hash = checksum::sha1_digest(bytes);
    (
        RepairView { stage: RepairStage::LookingUp, hash, ..v },
        seq![
            RepairActionView::LookUpVersion(
                address::request_for(
                    modrinth::version_file_text(hash),
                    seq![("algorithm"@, "sha1"@)],
                ),
            ),
        ],
    )
}

/// What follows the lookup of the version that a mod is.
pub open spec fn after_lookup(job: RepairJob, v: RepairView, found: Option<ModrinthVersion>) -> (
    RepairView,
    Seq<RepairActionView>,
) {
    let name = job.mods[v.at];
    match found {
        None => next_after_log(
            job,
            RepairView {
                summary: SummaryView { unknown: v.summary.unknown + 1, ..v.summary },
                ..v
            },
            "Auto-repair: '"@ + name + "' not found on Modrinth hash index; leaving enabled"@,
        ),
        Some(version) => if modrinth::is_compatible(version, job.profile) {
            next_after_log(job, v, "Auto-repair: '"@ + name + "' is compatible"@)
        } else {
            (
                RepairView {
                    stage: RepairStage::Updating,
                    project_id: text::opt_text(version.project_id),
                    ..v
                },
                seq![
                    RepairActionView::Log(
                        "Auto-repair: '"@ + name
                            + "' is incompatible, searching same-mod compatible replacement..."@,
                    ),
                    RepairActionView::LookUpUpdate(
                        address::request_for(
                            modrinth::version_file_text(v.hash) + "/update"@,
                            modrinth::update_pairs(job.profile),
                        ),
                    ),
                ],
            )
        },
    }
}

/// What follows the lookup of a version in place of a mod.
pub open spec fn after_update(job: RepairJob, v: RepairView, found: Option<ModrinthVersion>) -> (
    RepairView,
    Seq<RepairActionView>,
) {
    match (found, v.project_id) {
        (Some(update), _) => replace(job, v, update),
        (None, Some(id)) => if modrinth::has_versions_address(id) {
            (
                RepairView { stage: RepairStage::Searching, ..v },
                seq![
                    RepairActionView::ListVersions(
                        address::request_for(modrinth::project_versions_text(id), seq![]),
                    ),
                ],
            )
        } else {
            give_up(job, v)
        },
        (None, None) => give_up(job, v),
    }
}

/// What follows the versions of a mod's project.
pub open spec fn after_versions(job: RepairJob, v: RepairView, versions: Seq<ModrinthVersion>) -> (
    RepairView,
    Seq<RepairActionView>,
) {
    match modrinth::first_compatible(versions, job.profile, 0) {
        Some(at) => replace(job, v, versions[at]),
        None => give_up(job, v),
    }
}

/// What follows the replacement of a mod.
pub open spec fn after_replacement(job: RepairJob, v: RepairView) -> (
    RepairView,
    Seq<RepairActionView>,
) {
    next_after_log(
        job,
        RepairView {
            summary: SummaryView { updated: v.summary.updated + 1, ..v.summary },
            ..v
        },
        "Auto-repair: replaced '"@ + job.mods[v.at] + "' with compatible '"@ + shown_name(v.target)
            + "'"@,
    )
}

/// What follows the renaming of a mod that is switched off.
pub open spec fn after_disabling(v: RepairView) -> (RepairView, Seq<RepairActionView>) {
    let k = v.summary.disabled;
    let name = match disabled_path(v.pending[k]) {
        Some(to) => shown_name(to),
        None => shown_name(v.pending[k]),
    };
    let (v, actions) = disable_from(
        RepairView {
            summary: SummaryView {
                disabled: k + 1,
                disabled_mods: v.summary.disabled_mods.push(name),
                ..v.summary
            },
            ..v
        },
        k + 1,
    );
    (
        v,
        seq![RepairActionView::Log("Auto-repair: disabled incompatible mod '"@ + name + "'"@)]
            + actions,
    )
}

/// What a reply leads to. A reply that the repair does not wait for changes
/// nothing. A failure ends the repair, except that of the search among the
/// versions of a project, which finds nothing then.
pub open spec fn repair_step(job: RepairJob, v: RepairView, reply: RepairReply) -> (
    RepairView,
    Seq<RepairActionView>,
) {
    match (v.stage, reply) {
        (RepairStage::Over, _) => (v, seq![]),
        (RepairStage::Searching, RepairReply::Failed(_)) => give_up(job, v),
        (_, RepairReply::Failed(error)) => failing(v, error@),
        (RepairStage::Reading, RepairReply::Contents(bytes)) => after_contents(v, bytes@),
        (RepairStage::LookingUp, RepairReply::Version(found)) => after_lookup(job, v, found),
        (RepairStage::Updating, RepairReply::Version(found)) => after_update(job, v, found),
        (RepairStage::Searching, RepairReply::Versions(versions)) => after_versions(
            job,
            v,
            versions@,
        ),
        (RepairStage::Replacing, RepairReply::Done) => after_replacement(job, v),
        (RepairStage::Disabling, RepairReply::Done) => after_disabling(v),
        _ => (v, seq![]),
    }
}

/// The state of a repair before anything is done.
pub open spec fn untouched() -> RepairView {
    RepairView {
        stage: RepairStage::Over,
        at: 0,
        hash: seq![],
        project_id: None,
        target: seq![],
        pending: seq![],
        summary: SummaryView {
            checked: 0,
            updated: 0,
            disabled: 0,
            unknown: 0,
            disabled_mods: seq![],
        },
        error: None,
    }
}

/// How a repair begins. Without an enabled mod it is over at once.
pub open spec fn repair_start(job: RepairJob) -> (RepairView, Seq<RepairActionView>) {
    if job.mods.len() == 0 {
        (untouched(), seq![])
    } else {
        let (v, actions) = turn_to(job, untouched(), 0);
        (
            v,
            seq![
                RepairActionView::Log(
                    "Auto-repair: checking "@ + text::decimal(job.mods.len())
                        + " enabled mod(s) for compatibility (MC "@ + job.profile.version_id@
                        + ", loader "@ + profile::loader_name(job.profile.loader) + ")"@,
                ),
            ] + actions,
        )
    }
}

/// What holds of every state of a repair.
pub open spec fn repair_invariant(job: RepairJob, v: RepairView) -> bool {
    let s = v.summary;
    &&& 0 <= v.at <= job.mods.len()
    &&& v.stage != RepairStage::Over ==> v.error is None
    &&& v.stage != RepairStage::Over && v.stage != RepairStage::Disabling ==> v.at < job.mods.len()
        && s.disabled == 0
    &&& v.stage == RepairStage::Disabling ==> v.at == job.mods.len() && s.disabled
        < v.pending.len() && disabled_path(v.pending[s.disabled]) is Some
    &&& v.error is None && v.stage == RepairStage::Over ==> v.at == job.mods.len() && s.disabled
        == v.pending.len()
    &&& 0 <= s.updated && 0 <= s.unknown && 0 <= s.disabled
    &&& s.checked == if v.at < job.mods.len() {
        v.at + 1
    } else {
        v.at
    }
    &&& s.updated + s.unknown + v.pending.len() <= v.at
    &&& s.disabled == s.disabled_mods.len()
    &&& s.disabled <= v.pending.len()
}

/// A repair of a profile's mods.
#[derive(Debug)]
pub struct RepairRun {
    profile: LauncherProfile,
    directory: String,
    mods: Vec<String>,
    stage: RepairStage,
    at: usize,
    hash: String,
    project_id: Option<String>,
    target: String,
    pending: Vec<String>,
    summary: ModRepairSummary,
    error: Option<String>,
}

impl View for RepairRun {
    type V = RepairView;

    closed spec fn view(&self) -> RepairView {
        RepairView {
            stage: self.stage,
            at: self.at as int,
            hash: self.hash@,
            project_id: text::opt_text(self.project_id),
            target: self.target@,
            pending: text::texts(self.pending@),
            summary: self.summary@,
            error: text::opt_text(self.error),
        }
    }
}

/// The path of a mod once it is switched off; none if the path names no file.
pub fn disable_mod_file(path: &str) -> (r: Option<String>)
    ensures
        text::opt_text(r) == disabled_path(path@),
{
    match file_name(path) {
        Some(name) => {
            let disabled = concat2(name.as_str(), ".disabled");
            Some(with_file_name(path, disabled.as_str()))
        },
        None => None,
    }
}

fn name_to_show(path: &str) -> (r: String)
    ensures
        r@ == shown_name(path@),
{
    match file_name(path) {
        Some(name) => name,
        None => "<unknown>".to_owned(),
    }
}

impl RepairRun {
    /// What the repair works on.
    pub closed spec fn job(&self) -> RepairJob {
        RepairJob {
            profile: self.profile,
            directory: self.directory@,
            mods: text::texts(self.mods@),
        }
    }

    /// Whether the state is one that a repair can have.
    pub closed spec fn wf(&self) -> bool {
        &&& repair_invariant(self.job(), self@)
        &&& self.stage == RepairStage::LookingUp || self.stage == RepairStage::Updating
            ==> self.hash@.len() == 40 && address::all_plain_in_path(self.hash@)
    }

    /// Begins the repair of a profile's mods, given the names of the files in its
    /// mod directory.
    pub fn start(profile: LauncherProfile, directory: String, names: &Vec<String>) -> (r: (
        RepairRun,
        Vec<RepairAction>,
    ))
        ensures
            r.0.job() == (RepairJob {
                profile,
                directory: directory@,
                mods: text::texts(names@).filter(|name: Seq<char>| content::is_enabled_mod(name)),
            }),
            (r.0@, action_views(r.1@)) == repair_start(r.0.job()),
            r.0.wf(),
    {
        let mods = enabled_mods(names);
        let mut run = RepairRun {
            profile,
            directory,
            mods,
            stage: RepairStage::Over,
            at: 0,
            hash: String::new(),
            project_id: None,
            target: String::new(),
            pending: Vec::new(),
            summary: ModRepairSummary {
                checked: 0,
                updated: 0,
                disabled: 0,
                unknown: 0,
                disabled_mods: Vec::new(),
            },
            error: None,
        };
        assert(run.hash@ =~= seq![]);
        assert(run.target@ =~= seq![]);
        assert(text::texts(run.pending@) =~= seq![]);
        assert(text::texts(run.summary.disabled_mods@) =~= seq![]);
        assert(run@ == untouched());
        let mut actions: Vec<RepairAction> = Vec::new();
        assert(action_views(actions@) =~= seq![]);
        if run.mods.len() > 0 {
            let count = decimal_text(run.mods.len() as u128);
            let mut line = concat5(
                "Auto-repair: checking ",
                count.as_str(),
                " enabled mod(s) for compatibility (MC ",
                run.profile.version_id.as_str(),
                ", loader ",
            );
            line.append(run.profile.loader_label());
            line.append(")");
            emit(&mut actions, RepairAction::Log(line));
            run.turn(0, &mut actions);
            assert(action_views(actions@) =~= repair_start(run.job()).1);
        }
        (run, actions)
    }

    /// Fails.
    fn fail(&mut self, error: String)
        requires
            repair_invariant(old(self).job(), old(self)@),
        ensures
            final(self).job() == old(self).job(),
            final(self)@ == failing(old(self)@, error@).0,
            repair_invariant(final(self).job(), final(self)@),
            final(self).stage == RepairStage::Over,
    {
        self.stage = RepairStage::Over;
        self.error = Some(error);
    }

    fn disable(&mut self, actions: &mut Vec<RepairAction>)
        requires
            old(self).at == old(self).mods@.len(),
            old(self).error is None,
            old(self)@.summary.disabled <= old(self)@.pending.len(),
            repair_invariant(
                old(self).job(),
                (RepairView { stage: RepairStage::Over, error: Some(seq![]), ..old(self)@ }),
            ),
        ensures
            final(self).job() == old(self).job(),
            final(self)@ == disable_from(old(self)@, old(self)@.summary.disabled).0,
            action_views(final(actions)@) == action_views(old(actions)@) + disable_from(
                old(self)@,
                old(self)@.summary.disabled,
            ).1,
            final(self).wf(),
    {
        let ghost before = self@;
        let ghost k = self.summary.disabled as int;
        let ghost earlier = action_views(actions@);
        assert(text::texts(self.pending@).len() == self.pending@.len());
        if self.summary.disabled < self.pending.len() {
            let from = self.pending[self.summary.disabled].clone();
            assert(from@ == before.pending[k]);
            match disable_mod_file(from.as_str()) {
                Some(to) => {
                    self.stage = RepairStage::Disabling;
                    emit(actions, RepairAction::Rename { from, to });
                    assert(action_views(actions@) =~= earlier + disable_from(before, k).1);
                },
                None => {
                    let error = concat3("failed resolving filename for '", from.as_str(), "'");
                    self.stage = RepairStage::Over;
                    self.error = Some(error);
                    assert(action_views(actions@) =~= earlier + disable_from(before, k).1);
                },
            }
        } else {
            self.stage = RepairStage::Over;
            assert(action_views(actions@) =~= earlier + disable_from(before, k).1);
        }
    }

    fn turn(&mut self, at: usize, actions: &mut Vec<RepairAction>)
        requires
            at <= old(self).mods@.len(),
            old(self).error is None,
            old(self)@.summary.disabled == 0,
            old(self)@.summary.disabled_mods.len() == 0,
            0 <= old(self)@.summary.updated,
            0 <= old(self)@.summary.unknown,
            old(self)@.summary.updated + old(self)@.summary.unknown + old(self)@.pending.len()
                <= at,
            at == old(self).mods@.len() ==> old(self)@.summary.checked == at,
        ensures
            final(self).job() == old(self).job(),
            final(self)@ == turn_to(old(self).job(), old(self)@, at as int).0,
            action_views(final(actions)@) == action_views(old(actions)@) + turn_to(
                old(self).job(),
                old(self)@,
                at as int,
            ).1,
            final(self).wf(),
    {
        let ghost before = self@;
        let ghost job = self.job();
        let ghost earlier = action_views(actions@);
        self.at = at;
        if at < self.mods.len() {
            self.stage = RepairStage::Reading;
            self.summary.checked = at + 1;
            let path = join_path(self.directory.as_str(), self.mods[at].as_str());
            assert(path@ == mod_path(job, at as int));
            emit(actions, RepairAction::ReadMod(path));
            assert(action_views(actions@) =~= earlier + turn_to(job, before, at as int).1);
        } else {
            self.disable(actions);
        }
    }

    fn current_path(&self) -> (r: String)
        requires
            self.at < self.mods@.len(),
        ensures
            r@ == mod_path(self.job(), self@.at),
    {
        join_path(self.directory.as_str(), self.mods[self.at].as_str())
    }

    fn next_mod(&mut self, line: String, actions: &mut Vec<RepairAction>)
        requires
            old(self).at < old(self).mods@.len(),
            old(self).error is None,
            old(self)@.summary.disabled == 0,
            old(self)@.summary.disabled_mods.len() == 0,
            0 <= old(self)@.summary.updated,
            0 <= old(self)@.summary.unknown,
            old(self)@.summary.updated + old(self)@.summary.unknown + old(self)@.pending.len()
                <= old(self).at + 1,
            old(self)@.summary.checked == old(self).at + 1,
            action_views(old(actions)@) == Seq::<RepairActionView>::empty(),
        ensures
            final(self).job() == old(self).job(),
            (final(self)@, action_views(final(actions)@)) == next_after_log(
                old(self).job(),
                old(self)@,
                line@,
            ),
            final(self).wf(),
    {
        let ghost before = self@;
        let ghost job = self.job();
        emit(actions, RepairAction::Log(line));
        let next: usize = self.at + 1;
        self.turn(next, actions);
        assert(action_views(actions@) =~= next_after_log(job, before, line@).1);
    }

    fn give_up(&mut self, actions: &mut Vec<RepairAction>)
        requires
            old(self).wf(),
            old(self).error is None,
            old(self).stage != RepairStage::Over && old(self).stage != RepairStage::Disabling,
            action_views(old(actions)@) == Seq::<RepairActionView>::empty(),
        ensures
            final(self).job() == old(self).job(),
            (final(self)@, action_views(final(actions)@)) == give_up(old(self).job(), old(self)@),
            final(self).wf(),
    {
        let ghost before = self@;
        let path = self.current_path();
        let ghost added = path@;
        let line = concat3(
            "Auto-repair: no compatible replacement found for '",
            self.mods[self.at].as_str(),
            "'; will disable after retrieval phase",
        );
        self.pending.push(path);
        assert(text::texts(self.pending@) =~= before.pending.push(added));
        self.next_mod(line, actions);
    }

    fn replace(&mut self, update: &ModrinthVersion, actions: &mut Vec<RepairAction>)
        requires
            old(self).wf(),
            old(self).error is None,
            old(self).stage != RepairStage::Over && old(self).stage != RepairStage::Disabling,
            action_views(old(actions)@) == Seq::<RepairActionView>::empty(),
        ensures
            final(self).job() == old(self).job(),
            (final(self)@, action_views(final(actions)@)) == replace(
                old(self).job(),
                old(self)@,
                *update,
            ),
            final(self).wf(),
    {
        let existing = self.current_path();
        match apply_modrinth_update_to_mod_path(update, existing.as_str()) {
            Ok((download, removes)) => {
                self.stage = RepairStage::Replacing;
                self.target = download.target.clone();
                let remove = if removes {
                    Some(existing)
                } else {
                    None
                };
                emit(actions, RepairAction::Replace { download, remove });
            },
            Err(error) => {
                let message = error.message(existing.as_str());
                self.fail(message);
            },
        }
    }

    fn contents_read(&mut self, bytes: &Vec<u8>, actions: &mut Vec<RepairAction>)
        requires
            old(self).wf(),
            old(self).error is None,
            old(self).stage == RepairStage::Reading,
            action_views(old(actions)@) == Seq::<RepairActionView>::empty(),
        ensures
            final(self).job() == old(self).job(),
            (final(self)@, action_views(final(actions)@)) == after_contents(old(self)@, bytes@),
            final(self).wf(),
    {
        let hash = sha1_hex(bytes.as_slice());
        assert forall|i: int| 0 <= i < hash@.len() implies address::is_plain_in_path(
            #[trigger] hash@[i],
        ) by {
            assert(checksum::is_lower_hex(hash@[i]));
        }
        match version_by_hash_url(hash.as_str()) {
            Ok(url) => {
                self.stage = RepairStage::LookingUp;
                self.hash = hash;
                emit(actions, RepairAction::LookUpVersion(url));
            },
            Err(_) => {},
        }
    }

    fn version_looked_up(
        &mut self,
        found: Option<ModrinthVersion>,
        actions: &mut Vec<RepairAction>,
    )
        requires
            old(self).wf(),
            old(self).error is None,
            old(self).stage == RepairStage::LookingUp,
            action_views(old(actions)@) == Seq::<RepairActionView>::empty(),
        ensures
            final(self).job() == old(self).job(),
            (final(self)@, action_views(final(actions)@)) == after_lookup(
                old(self).job(),
                old(self)@,
                found,
            ),
            final(self).wf(),
    {
        match found {
            None => {
                self.summary.unknown = self.summary.unknown + 1;
                let line = concat3(
                    "Auto-repair: '",
                    self.mods[self.at].as_str(),
                    "' not found on Modrinth hash index; leaving enabled",
                );
                self.next_mod(line, actions);
            },
            Some(version) => {
                if is_modrinth_version_compatible(&version, &self.profile) {
                    let line = concat3(
                        "Auto-repair: '",
                        self.mods[self.at].as_str(),
                        "' is compatible",
                    );
                    self.next_mod(line, actions);
                    return;
                }
                let line = concat3(
                    "Auto-repair: '",
                    self.mods[self.at].as_str(),
                    "' is incompatible, searching same-mod compatible replacement...",
                );
                match update_for_hash_url(self.hash.as_str(), &self.profile) {
                    Ok(url) => {
                        self.stage = RepairStage::Updating;
                        self.project_id = version.project_id;
                        emit(actions, RepairAction::Log(line));
                        emit(actions, RepairAction::LookUpUpdate(url));
                    },
                    Err(_) => {},
                }
            },
        }
    }

    fn update_looked_up(&mut self, found: Option<ModrinthVersion>, actions: &mut Vec<RepairAction>)
        requires
            old(self).wf(),
            old(self).error is None,
            old(self).stage == RepairStage::Updating,
            action_views(old(actions)@) == Seq::<RepairActionView>::empty(),
        ensures
            final(self).job() == old(self).job(),
            (final(self)@, action_views(final(actions)@)) == after_update(
                old(self).job(),
                old(self)@,
                found,
            ),
            final(self).wf(),
    {
        if let Some(update) = found {
            self.replace(&update, actions);
            return;
        }
        let mut request: Option<url::Url> = None;
        if let Some(id) = &self.project_id {
            if let Ok(url) = project_versions_url(id.as_str()) {
                request = Some(url);
            }
        }
        match request {
            Some(url) => {
                self.stage = RepairStage::Searching;
                emit(actions, RepairAction::ListVersions(url));
            },
            None => {
                self.give_up(actions);
            },
        }
    }

    fn versions_listed(&mut self, versions: &Vec<ModrinthVersion>, actions: &mut Vec<RepairAction>)
        requires
            old(self).wf(),
            old(self).error is None,
            old(self).stage == RepairStage::Searching,
            action_views(old(actions)@) == Seq::<RepairActionView>::empty(),
        ensures
            final(self).job() == old(self).job(),
            (final(self)@, action_views(final(actions)@)) == after_versions(
                old(self).job(),
                old(self)@,
                versions@,
            ),
            final(self).wf(),
    {
        match find_compatible_version(versions, &self.profile) {
            Some(at) => {
                self.replace(&versions[at], actions);
            },
            None => {
                self.give_up(actions);
            },
        }
    }

    fn replaced(&mut self, actions: &mut Vec<RepairAction>)
        requires
            old(self).wf(),
            old(self).error is None,
            old(self).stage == RepairStage::Replacing,
            action_views(old(actions)@) == Seq::<RepairActionView>::empty(),
        ensures
            final(self).job() == old(self).job(),
            (final(self)@, action_views(final(actions)@)) == after_replacement(
                old(self).job(),
                old(self)@,
            ),
            final(self).wf(),
    {
        self.summary.updated = self.summary.updated + 1;
        let name = name_to_show(self.target.as_str());
        let line = concat5(
            "Auto-repair: replaced '",
            self.mods[self.at].as_str(),
            "' with compatible '",
            name.as_str(),
            "'",
        );
        self.next_mod(line, actions);
    }

    fn switched_off(&mut self, actions: &mut Vec<RepairAction>)
        requires
            old(self).wf(),
            old(self).error is None,
            old(self).stage == RepairStage::Disabling,
            action_views(old(actions)@) == Seq::<RepairActionView>::empty(),
        ensures
            final(self).job() == old(self).job(),
            (final(self)@, action_views(final(actions)@)) == after_disabling(old(self)@),
            final(self).wf(),
    {
        let ghost before = self@;
        let ghost k = before.summary.disabled;
        assert(text::texts(self.pending@)[k] == self.pending@[k]@);
        let name = match disable_mod_file(self.pending[self.summary.disabled].as_str()) {
            Some(to) => name_to_show(to.as_str()),
            None => name_to_show(self.pending[self.summary.disabled].as_str()),
        };
        let line = concat3("Auto-repair: disabled incompatible mod '", name.as_str(), "'");
        let ghost shown = name@;
        self.summary.disabled = self.summary.disabled + 1;
        self.summary.disabled_mods.push(name);
        assert(text::texts(self.summary.disabled_mods@) =~= before.summary.disabled_mods.push(
            shown,
        ));
        emit(actions, RepairAction::Log(line));
        self.disable(actions);
        assert(action_views(actions@) =~= after_disabling(before).1);
    }

    /// Takes in how an action went, and says what to do next.
    pub fn step(&mut self, reply: RepairReply) -> (r: Vec<RepairAction>)
        requires
            old(self).wf(),
        ensures
            (final(self)@, action_views(r@)) == repair_step(old(self).job(), old(self)@, reply),
            final(self).job() == old(self).job(),
            final(self).wf(),
    {
        let mut actions: Vec<RepairAction> = Vec::new();
        assert(action_views(actions@) =~= seq![]);
        match (self.stage, reply) {
            (RepairStage::Over, _) => {},
            (RepairStage::Searching, RepairReply::Failed(_)) => {
                self.give_up(&mut actions);
            },
            (_, RepairReply::Failed(error)) => {
                self.fail(error);
            },
            (RepairStage::Reading, RepairReply::Contents(bytes)) => {
                self.contents_read(&bytes, &mut actions);
            },
            (RepairStage::LookingUp, RepairReply::Version(found)) => {
                self.version_looked_up(found, &mut actions);
            },
            (RepairStage::Updating, RepairReply::Version(found)) => {
                self.update_looked_up(found, &mut actions);
            },
            (RepairStage::Searching, RepairReply::Versions(versions)) => {
                self.versions_listed(&versions, &mut actions);
            },
            (RepairStage::Replacing, RepairReply::Done) => {
                self.replaced(&mut actions);
            },
            (RepairStage::Disabling, RepairReply::Done) => {
                self.switched_off(&mut actions);
            },
            _ => {},
        }
        actions
    }

    /// What the repair did, once it is over, or why it failed.
    pub fn outcome(self) -> (r: Option<Result<ModRepairSummary, String>>)
        ensures
            match (self@.stage, self@.error) {
                (RepairStage::Over, Some(error)) => r matches Some(Err(e)) && e@ == error,
                (RepairStage::Over, None) => r matches Some(Ok(summary)) && summary@
                    == self@.summary,
                _ => r is None,
            },
    {
        match self.stage {
            RepairStage::Over => match self.error {
                Some(error) => Some(Err(error)),
                None => Some(Ok(self.summary)),
            },
            _ => None,
        }
    }
}

/// Every step keeps the accounts of a repair, and so does its beginning.
pub proof fn law_repair_keeps_its_accounts(job: RepairJob, v: RepairView, reply: RepairReply)
    requires
        repair_invariant(job, v),
    ensures
        repair_invariant(job, repair_step(job, v, reply).0),
        repair_invariant(job, repair_start(job).0),
{
}

/// A repair that succeeds has looked at every enabled mod. Each of them was
/// replaced, switched off, left alone as unknown or left alone as compatible, and
/// every mod that was switched off is named.
pub proof fn law_repair_accounts_for_every_mod(job: RepairJob, v: RepairView)
    requires
        repair_invariant(job, v),
        v.stage == RepairStage::Over,
        v.error is None,
    ensures
        v.summary.checked == job.mods.len(),
        v.summary.disabled == v.pending.len(),
        v.summary.disabled == v.summary.disabled_mods.len(),
        v.summary.updated + v.summary.unknown + v.summary.disabled <= v.summary.checked,
{
}

/// Mods are switched off last: while a file is given another path, every mod has
/// been looked at.
pub proof fn law_mods_are_switched_off_last(
    job: RepairJob,
    v: RepairView,
    reply: RepairReply,
    i: int,
)
    requires
        repair_invariant(job, v),
        0 <= i < repair_step(job, v, reply).1.len(),
        repair_step(job, v, reply).1[i] is Rename,
    ensures
        repair_step(job, v, reply).0.at == job.mods.len(),
        repair_step(job, v, reply).0.summary.checked == job.mods.len(),
{
}

/// A mod that works is left alone: after the lookup that says so nothing is
/// replaced, and the mod is not marked to be switched off.
pub proof fn law_compatible_mod_is_left_alone(
    job: RepairJob,
    v: RepairView,
    version: ModrinthVersion,
    i: int,
)
    requires
        repair_invariant(job, v),
        v.stage == RepairStage::LookingUp,
        modrinth::is_compatible(version, job.profile),
        0 <= i < after_lookup(job, v, Some(version)).1.len(),
    ensures
        after_lookup(job, v, Some(version)).0.pending == v.pending,
        after_lookup(job, v, Some(version)).1[i] !is Replace,
{
}

/// A mod that works in no known version is switched off, not lost: the file
/// keeps its place and its name, with the mark of a file that is switched off.
pub proof fn law_switched_off_mod_stays_in_place(path: Seq<char>)
    requires
        path::name_part(path) is Some,
    ensures
        disabled_path(path) matches Some(to) && path::name_part(to) == Some(
            content::disabled_name(path::name_part(path)->0),
        ) && path::directory_part(to) == path::directory_part(path),
{
    let name = path::name_part(path)->0;
    let off = content::disabled_name(name);
    path::lemma_name_has_no_separator(path);
    reveal_strlit(".disabled");
    assert(off.len() >= 9);
    if off.contains('/') {
        let i = choose|i: int| 0 <= i < off.len() && off[i] == '/';
        if i < name.len() {
            assert(name[i] == '/');
        } else {
            assert(off[i] == ".disabled"@[i - name.len()]);
        }
    }
    path::law_sibling_stays_in_directory(path, off);
}

/// A mod whose project has a version that works is replaced by it: when the versions
/// of the project are listed, the first one that works in the profile and has a file
/// takes the mod's place, and the mod is not marked to be switched off.
pub proof fn law_listed_version_replaces_the_mod(
    job: RepairJob,
    v: RepairView,
    versions: Vec<ModrinthVersion>,
    i: int,
    name: Seq<char>,
)
    requires
        v.stage == RepairStage::Searching,
        0 <= i < versions@.len(),
        modrinth::is_compatible(versions@[i], job.profile),
        versions@[i].files@.len() > 0,
        forall|j: int|
            0 <= j < i && modrinth::is_compatible(#[trigger] versions@[j], job.profile)
                ==> versions@[j].files@.len() == 0,
        name == job.mods[v.at],
        job.directory.len() > 0,
        job.directory.last() != '/',
        path::tidy(job.directory) == job.directory,
        path::is_file_component(name),
        !name.contains('/'),
    ensures
        ({
            let (next, actions) = repair_step(job, v, RepairReply::Versions(versions));
            let existing = job.directory + seq!['/'] + name;
            let file = versions@[i].files@[modrinth::chosen_file(versions@[i].files@)->0];
            let download = modrinth::download_into(file, job.directory);
            &&& modrinth::chosen_file(versions@[i].files@) is Some
            &&& next.pending == v.pending
            &&& next.stage == RepairStage::Replacing
            &&& next.summary == v.summary
            &&& actions.len() == 1
            &&& actions[0] matches RepairActionView::Replace { download: planned, remove }
                && planned == download && remove == if path::same_path(download.target, existing) {
                None
            } else {
                Some(existing)
            }
        }),
{
    let existing = job.directory + seq!['/'] + name;
    assert(name.contains(name[0]));
    assert(mod_path(job, v.at) =~= existing);
    modrinth::law_first_working_version_is_found(versions@, job.profile, i);
    let at = modrinth::first_compatible(versions@, job.profile, 0)->0;
    if at < i {
        assert(versions@[at].files@.len() == 0);
    }
    modrinth::law_replacement_lies_next_to_the_mod(versions@[i], job.directory, name);
    modrinth::law_main_file_is_downloaded(versions@[i].files@);
}

/// An update that the service names is taken as it is: it replaces the mod, and the
/// mod is not marked to be switched off.
pub proof fn law_named_update_replaces_the_mod(
    job: RepairJob,
    v: RepairView,
    update: ModrinthVersion,
    name: Seq<char>,
)
    requires
        v.stage == RepairStage::Updating,
        update.files@.len() > 0,
        name == job.mods[v.at],
        job.directory.len() > 0,
        job.directory.last() != '/',
        path::tidy(job.directory) == job.directory,
        path::is_file_component(name),
        !name.contains('/'),
    ensures
        ({
            let (next, actions) = repair_step(job, v, RepairReply::Version(Some(update)));
            let existing = job.directory + seq!['/'] + name;
            let file = update.files@[modrinth::chosen_file(update.files@)->0];
            let download = modrinth::download_into(file, job.directory);
            &&& next.pending == v.pending
            &&& next.stage == RepairStage::Replacing
            &&& next.summary == v.summary
            &&& actions.len() == 1
            &&& actions[0] matches RepairActionView::Replace { download: planned, remove }
                && planned == download && remove == if path::same_path(download.target, existing) {
                None
            } else {
                Some(existing)
            }
        }),
{
    let existing = job.directory + seq!['/'] + name;
    assert(name.contains(name[0]));
    assert(mod_path(job, v.at) =~= existing);
    modrinth::law_replacement_lies_next_to_the_mod(update, job.directory, name);
    modrinth::law_main_file_is_downloaded(update.files@);
}

/// Whether a reply says that there is no version that works in a mod's place.
pub open spec fn finds_no_replacement(
    job: RepairJob,
    v: RepairView,
    reply: RepairReply,
) -> bool {
    match (v.stage, reply) {
        (RepairStage::Updating, RepairReply::Version(None)) => v.project_id is None
            || !modrinth::has_versions_address(v.project_id->0),
        (RepairStage::Searching, RepairReply::Failed(_)) => true,
        (RepairStage::Searching, RepairReply::Versions(versions)) => forall|i: int|
            0 <= i < versions@.len() && modrinth::is_compatible(
                #[trigger] versions@[i],
                job.profile,
            ) ==> versions@[i].files@.len() == 0,
        _ => false,
    }
}

/// A mod is marked to be switched off exactly where no version works in its place:
/// neither the service names an update nor the project has one. It is the mod that is
/// being looked at, and no mark is ever taken back.
pub proof fn law_only_hopeless_mods_are_switched_off(
    job: RepairJob,
    v: RepairView,
    reply: RepairReply,
)
    ensures
        finds_no_replacement(job, v, reply) ==> repair_step(job, v, reply).0.pending
            == v.pending.push(path::joined(job.directory, job.mods[v.at])),
        !finds_no_replacement(job, v, reply) ==> repair_step(job, v, reply).0.pending == v.pending,
{
    if let RepairReply::Versions(versions) = reply {
        modrinth::law_found_version_is_compatible(versions@, job.profile);
        if let Some(at) = modrinth::first_compatible(versions@, job.profile, 0) {
            modrinth::law_main_file_is_downloaded(versions@[at].files@);
            assert(versions@[at].files@.len() > 0);
        }
    }
}

/// How a mod is looked up: by the digest of its contents; and where the version that
/// is found does not work, an update of that very file is asked for, for the profile.
pub proof fn law_mod_is_looked_up_by_its_contents(
    job: RepairJob,
    v: RepairView,
    bytes: Vec<u8>,
    version: ModrinthVersion,
)
    ensures
        v.stage == RepairStage::Reading ==> {
            let (next, actions) = repair_step(job, v, RepairReply::Contents(bytes));
            &&& next.stage == RepairStage::LookingUp
            &&& next.hash == checksum::sha1_digest(bytes@)
            &&& actions == seq![
                RepairActionView::LookUpVersion(
                    address::request_for(
                        "https://api.modrinth.com/v2/version_file/"@ + checksum::sha1_digest(
                            bytes@,
                        ),
                        seq![("algorithm"@, "sha1"@)],
                    ),
                ),
            ]
        },
        v.stage == RepairStage::LookingUp && !modrinth::is_compatible(version, job.profile) ==> {
            let (next, actions) = repair_step(job, v, RepairReply::Version(Some(version)));
            &&& next.stage == RepairStage::Updating
            &&& next.project_id == match version.project_id {
                Some(id) => Some(id@),
                None => None,
            }
            &&& actions.last() == RepairActionView::LookUpUpdate(
                address::request_for(
                    "https://api.modrinth.com/v2/version_file/"@ + v.hash + "/update"@,
                    modrinth::update_pairs(job.profile),
                ),
            )
        },
        v.stage == RepairStage::Updating ==> (v.project_id matches Some(id) ==> (
        modrinth::has_versions_address(id) ==> repair_step(
            job,
            v,
            RepairReply::Version(None),
        ).1 == seq![
            RepairActionView::ListVersions(
                address::request_for(
                    "https://api.modrinth.com/v2/project/"@ + id + "/version"@,
                    seq![],
                ),
            ),
        ])),
{
}

/// A mod that works, or that the service does not know, is left alone: the repair
/// turns to the next mod, and only mods that are not known are counted as unknown.
pub proof fn law_working_and_unknown_mods_are_left_alone(
    job: RepairJob,
    v: RepairView,
    found: Option<ModrinthVersion>,
    i: int,
)
    requires
        v.stage == RepairStage::LookingUp,
        found is None || modrinth::is_compatible(found->0, job.profile),
        0 <= i < repair_step(job, v, RepairReply::Version(found)).1.len(),
    ensures
        ({
            let (next, actions) = repair_step(job, v, RepairReply::Version(found));
            &&& next.at == v.at + 1
            &&& next.pending == v.pending
            &&& next.summary.updated == v.summary.updated
            &&& next.summary.unknown == v.summary.unknown + if found is None {
                1int
            } else {
                0int
            }
            &&& !(actions[i] is Replace)
            &&& !(actions[i] is LookUpUpdate)
            &&& !(actions[i] is ListVersions)
        }),
{
}

/// A replacement that is done counts as one more update, and the repair turns to the
/// next mod.
pub proof fn law_replacement_is_counted(job: RepairJob, v: RepairView)
    requires
        v.stage == RepairStage::Replacing,
    ensures
        ({
            let (next, actions) = repair_step(job, v, RepairReply::Done);
            &&& next.at == v.at + 1
            &&& next.summary.updated == v.summary.updated + 1
            &&& next.summary.unknown == v.summary.unknown
            &&& next.pending == v.pending
            &&& actions.len() > 0 && actions[0] is Log
        }),
{
}

/// Every mod has its turn: whenever a repair turns to a mod, that mod is read next,
/// and after the last one the mods that are marked are switched off, from the first
/// one on.
pub proof fn law_every_mod_has_its_turn(job: RepairJob, v: RepairView, reply: RepairReply)
    requires
        repair_invariant(job, v),
        v.stage != RepairStage::Over,
        v.stage != RepairStage::Disabling,
    ensures
        ({
            let (next, actions) = repair_step(job, v, reply);
            &&& next.at == v.at || next.at == v.at + 1
            &&& next.at == v.at + 1 && next.at < job.mods.len() ==> next.stage
                == RepairStage::Reading && actions.last() == RepairActionView::ReadMod(
                path::joined(job.directory, job.mods[next.at]),
            )
            &&& next.at == job.mods.len() && next.pending.len() == 0 ==> next.stage
                == RepairStage::Over && next.error is None
            &&& next.at == job.mods.len() && next.pending.len() > 0 && next.error is None
                ==> next.stage == RepairStage::Disabling && (
            actions.last() matches RepairActionView::Rename { from, .. } && from == next.pending[0])
        }),
        job.mods.len() > 0 ==> repair_start(job).1.last() == RepairActionView::ReadMod(
            path::joined(job.directory, job.mods[0]),
        ),
        job.mods.len() == 0 ==> repair_start(job).1.len() == 0 && repair_start(job).0.stage
            == RepairStage::Over && repair_start(job).0.error is None,
{
}

/// Mods are switched off one after the other, each by the mark at the end of its
/// name, and each is reported under that name.
pub proof fn law_marked_mods_are_switched_off_in_order(job: RepairJob, v: RepairView)
    requires
        repair_invariant(job, v),
        v.stage == RepairStage::Disabling,
    ensures
        ({
            let (next, actions) = repair_step(job, v, RepairReply::Done);
            let k = v.summary.disabled;
            let name = path::name_part(v.pending[k])->0;
            &&& next.pending == v.pending
            &&& next.summary.disabled == k + 1
            &&& next.summary.disabled_mods == v.summary.disabled_mods.push(name + ".disabled"@)
            &&& k + 1 == v.pending.len() ==> next.stage == RepairStage::Over && next.error is None
            &&& k + 1 < v.pending.len() && next.error is None ==> (
            actions.last() matches RepairActionView::Rename { from, to } && from == v.pending[k + 1]
                && to == path::sibling(from, path::name_part(from)->0 + ".disabled"@))
        }),
{
    let k = v.summary.disabled;
    law_switched_off_mod_stays_in_place(v.pending[k]);
}

/// A failure ends a repair with its reason and without another action, except while
/// the versions of a project are listed: then the mod counts as one without a
/// replacement.
pub proof fn law_failure_ends_the_repair(job: RepairJob, v: RepairView, error: String)
    requires
        v.stage != RepairStage::Over,
    ensures
        v.stage != RepairStage::Searching ==> {
            let (next, actions) = repair_step(job, v, RepairReply::Failed(error));
            next.stage == RepairStage::Over && next.error == Some(error@) && actions.len() == 0
                && next.summary == v.summary
        },
        v.stage == RepairStage::Searching ==> repair_step(
            job,
            v,
            RepairReply::Failed(error),
        ).0.at == v.at + 1,
{
}

/// A repair begins with nothing done: it tells how many mods it checks, and for which
/// game version and loader, and counts the first one as checked.
pub proof fn law_repair_begins_with_nothing_done(job: RepairJob)
    ensures
        ({
            let (v, actions) = repair_start(job);
            &&& v.pending.len() == 0 && v.error is None && v.at == 0
            &&& v.summary.updated == 0 && v.summary.disabled == 0 && v.summary.unknown == 0
                && v.summary.disabled_mods.len() == 0
            &&& job.mods.len() == 0 ==> v.summary.checked == 0 && v.stage == RepairStage::Over
                && actions.len() == 0
            &&& job.mods.len() > 0 ==> v.summary.checked == 1 && actions.len() == 2 && actions[0]
                == RepairActionView::Log(
                "Auto-repair: checking "@ + text::decimal(job.mods.len())
                    + " enabled mod(s) for compatibility (MC "@ + job.profile.version_id@
                    + ", loader "@ + profile::loader_name(job.profile.loader) + ")"@,
            )
        }),
{
}

/// A mod counts as checked when its turn comes; what was counted before stays.
pub proof fn law_mods_are_counted_in_their_turn(job: RepairJob, v: RepairView, reply: RepairReply)
    requires
        repair_invariant(job, v),
    ensures
        ({
            let next = repair_step(job, v, reply).0;
            &&& next.at == v.at + 1 && next.at < job.mods.len() ==> next.summary.checked == next.at
                + 1
            &&& next.at == v.at ==> next.summary.checked == v.summary.checked
            &&& next.summary.updated >= v.summary.updated && next.summary.unknown
                >= v.summary.unknown && next.summary.disabled >= v.summary.disabled
            &&& v.stage != RepairStage::Disabling ==> next.summary.disabled_mods
                == v.summary.disabled_mods
            &&& next.summary.updated > v.summary.updated ==> v.stage == RepairStage::Replacing
                && reply is Done
            &&& next.summary.unknown > v.summary.unknown ==> v.stage == RepairStage::LookingUp
                && reply == RepairReply::Version(None)
            &&& next.summary.disabled > v.summary.disabled ==> v.stage == RepairStage::Disabling
                && reply is Done
        }),
{
}

/// What is told of each mod: that it works, is not known, does not work, was replaced
/// and by what, has no replacement, or was switched off.
pub proof fn law_fate_of_each_mod_is_told(
    job: RepairJob,
    v: RepairView,
    version: ModrinthVersion,
    reply: RepairReply,
)
    ensures
        v.stage == RepairStage::LookingUp ==> {
            let known = repair_step(job, v, RepairReply::Version(Some(version))).1[0];
            let unknown = repair_step(job, v, RepairReply::Version(None)).1[0];
            &&& modrinth::is_compatible(version, job.profile) ==> known == RepairActionView::Log(
                "Auto-repair: '"@ + job.mods[v.at] + "' is compatible"@,
            )
            &&& !modrinth::is_compatible(version, job.profile) ==> known == RepairActionView::Log(
                "Auto-repair: '"@ + job.mods[v.at]
                    + "' is incompatible, searching same-mod compatible replacement..."@,
            )
            &&& unknown == RepairActionView::Log(
                "Auto-repair: '"@ + job.mods[v.at]
                    + "' not found on Modrinth hash index; leaving enabled"@,
            )
        },
        v.stage == RepairStage::Replacing ==> repair_step(job, v, RepairReply::Done).1[0]
            == RepairActionView::Log(
            "Auto-repair: replaced '"@ + job.mods[v.at] + "' with compatible '"@
                + match path::name_part(v.target) {
                Some(name) => name,
                None => "<unknown>"@,
            } + "'"@,
        ),
        finds_no_replacement(job, v, reply) ==> repair_step(job, v, reply).1[0]
            == RepairActionView::Log(
            "Auto-repair: no compatible replacement found for '"@ + job.mods[v.at]
                + "'; will disable after retrieval phase"@,
        ),
        repair_invariant(job, v) && v.stage == RepairStage::Disabling ==> repair_step(
            job,
            v,
            RepairReply::Done,
        ).1[0] == RepairActionView::Log(
            "Auto-repair: disabled incompatible mod '"@ + path::name_part(
                v.pending[v.summary.disabled],
            )->0 + ".disabled'"@,
        ),
{
    if let RepairReply::Versions(versions) = reply {
        modrinth::law_found_version_is_compatible(versions@, job.profile);
    }
    if repair_invariant(job, v) && v.stage == RepairStage::Disabling {
        let path = v.pending[v.summary.disabled];
        law_switched_off_mod_stays_in_place(path);
        reveal_strlit(".disabled");
        reveal_strlit("'");
        reveal_strlit(".disabled'");
        let name = path::name_part(path)->0;
        let head = "Auto-repair: disabled incompatible mod '"@;
        assert(head + (name + ".disabled"@) + "'"@ =~= head + name + ".disabled'"@);
    }
}

/// The file that replaces a mod is remembered until it is in place, and an update
/// without a file ends the repair.
pub proof fn law_replacement_is_remembered(job: RepairJob, v: RepairView, update: ModrinthVersion)
    requires
        v.stage == RepairStage::Updating,
    ensures
        ({
            let (next, actions) = repair_step(job, v, RepairReply::Version(Some(update)));
            &&& next.stage == RepairStage::Replacing ==> (
            actions[0] matches RepairActionView::Replace { download, .. } && next.target
                == download.target)
            &&& update.files@.len() == 0 ==> next.stage == RepairStage::Over && actions.len() == 0
                && next.error == Some("Modrinth update payload had no downloadable files"@)
        }),
{
    modrinth::law_main_file_is_downloaded(update.files@);
}

} // verus!
