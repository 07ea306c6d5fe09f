//! Installation of Forge by its own installer.

use vstd::prelude::*;
use vstd::string::*;

use crate::path;
use crate::path::join_path;
use crate::text;
use crate::text::{concat2, concat3, concat4, has_prefix, same_text};

verus! {

/// The last version for a game version, among the first `n`.
pub open spec fn latest_among(
    versions: Seq<Seq<char>>,
    minecraft_version: Seq<char>,
    n: int,
) -> Option<Seq<char>>
    decreases n,
{
    if n <= 0 {
        None
    } else if text::opens_with(versions[n - 1], minecraft_version + "-"@) {
        Some(versions[n - 1])
    } else {
        latest_among(versions, minecraft_version, n - 1)
    }
}

/// What is said where there is no Forge for a game version.
pub open spec fn no_forge_text(minecraft_version: Seq<char>) -> Seq<char> {
    "No Forge versions found for Minecraft "@ + minecraft_version
        + ". Choose Exact loader version or a different Minecraft version."@
}

/// The latest Forge version for a game version: the last of the list that is
/// named after it.
pub fn resolve_latest_forge_version_for_minecraft(
    versions: &Vec<String>,
    minecraft_version: &str,
) -> (r: Result<String, String>)
    ensures
        match latest_among(text::texts(versions@), minecraft_version@, versions@.len() as int) {
            Some(version) => r matches Ok(found) && found@ == version,
            None => r matches Err(error) && error@ == no_forge_text(minecraft_version@),
        },
{
    let ghost all = text::texts(versions@);
    let prefix = concat2(minecraft_version, "-");
    let mut n: usize = versions.len();
    while n > 0
        invariant
            n <= versions@.len(),
            all == text::texts(versions@),
            prefix@ == minecraft_version@ + "-"@,
            latest_among(all, minecraft_version@, versions@.len() as int) == latest_among(
                all,
                minecraft_version@,
                n as int,
            ),
        decreases n,
    {
        assert(all[n - 1] == versions@[n - 1]@);
        if has_prefix(versions[n - 1].as_str(), prefix.as_str()) {
            return Ok(versions[n - 1].clone());
        }
        n = n - 1;
    }
    Err(
        concat3(
            "No Forge versions found for Minecraft ",
            minecraft_version,
            ". Choose Exact loader version or a different Minecraft version.",
        ),
    )
}

/// The configured Java executable; none if nothing or only the placeholder is
/// configured.
pub open spec fn chosen_java(configured: Seq<char>) -> Option<Seq<char>> {
    if configured.len() > 0 && configured != "/path/to/binary"@ {
        Some(configured)
    } else {
        None
    }
}

/// The Java executable that runs the installer: the configured one, if there is
/// one.
pub open spec fn installer_java(configured: Seq<char>) -> Seq<char> {
    match chosen_java(configured) {
        Some(java) => java,
        None => "java"@,
    }
}

/// Whether a game version is one whose Forge needs an old Java.
pub open spec fn is_legacy(minecraft_version: Seq<char>) -> bool {
    text::opens_with(minecraft_version, "1.8."@) || text::opens_with(minecraft_version, "1.7."@)
}

/// What is added to the failure of an installer that needs an old Java.
pub open spec fn java_hint(minecraft_version: Seq<char>) -> Seq<char> {
    if is_legacy(minecraft_version) {
        " For older Forge (1.7/1.8), configure Java 8 in Profile Editor > Runtime Settings."@
    } else {
        ""@
    }
}

/// The path of the installer.
pub open spec fn installer_path(minecraft_dir: Seq<char>, forge_version: Seq<char>) -> Seq<char> {
    path::joined(
        path::joined(minecraft_dir, "installers"@),
        "forge-"@ + forge_version + "-installer.jar"@,
    )
}

/// What an installation asks for.
#[derive(Debug, Clone, PartialEq, Eq)]
pub enum ForgeAction {
    /// A line for the log.
    Log(String),
    /// Install the game version itself.
    InstallBase(String),
    /// Write the profile file that the installer looks for, if it is not there.
    EnsureProfileFile,
    /// Make the directory of the installer, and see whether it is there.
    FindInstaller(String),
    /// Download the installer.
    Download {
        /// Where it is downloaded from.
        url: String,
        /// The path that it is written to.
        target: String,
    },
    /// Report the version of this Java.
    ProbeJava(String),
    /// Run the installer with these arguments in the game directory.
    RunInstaller {
        /// The Java executable.
        java: String,
        /// The arguments.
        args: Vec<String>,
    },
    /// Find out the name of the installed version.
    ResolveInstalled(String),
}

/// What an installation asks for, as plain values.
pub enum ForgeActionView {
    Log(Seq<char>),
    InstallBase(Seq<char>),
    EnsureProfileFile,
    FindInstaller(Seq<char>),
    Download { url: Seq<char>, target: Seq<char> },
    ProbeJava(Seq<char>),
    RunInstaller { java: Seq<char>, args: Seq<Seq<char>> },
    ResolveInstalled(Seq<char>),
}

impl View for ForgeAction {
    type V = ForgeActionView;

    open spec fn view(&self) -> ForgeActionView {
        match *self {
            ForgeAction::Log(line) => ForgeActionView::Log(line@),
            ForgeAction::InstallBase(version) => ForgeActionView::InstallBase(version@),
            ForgeAction::EnsureProfileFile => ForgeActionView::EnsureProfileFile,
            ForgeAction::FindInstaller(path) => ForgeActionView::FindInstaller(path@),
            ForgeAction::Download { url, target } => ForgeActionView::Download {
                url: url@,
                target: target@,
            },
            ForgeAction::ProbeJava(java) => ForgeActionView::ProbeJava(java@),
            ForgeAction::RunInstaller { java, args } => ForgeActionView::RunInstaller {
                java: java@,
                args: text::texts(args@),
            },
            ForgeAction::ResolveInstalled(version) => ForgeActionView::ResolveInstalled(version@),
        }
    }
}

/// Actions as plain values.
pub open spec fn action_views(actions: Seq<ForgeAction>) -> Seq<ForgeActionView> {
    actions.map_values(|action: ForgeAction| action@)
}

fn emit(actions: &mut Vec<ForgeAction>, action: ForgeAction)
    ensures
        action_views(final(actions)@) == action_views(old(actions)@).push(action@),
{
    let ghost before = actions@;
    let ghost added = action;
    actions.push(action);
    assert(action_views(actions@) =~= action_views(before).push(added@));
}

/// How an action went.
#[derive(Debug)]
pub enum ForgeReply {
    /// It is done.
    Done,
    /// Whether the installer is there, and where it can be downloaded from.
    Installer {
        /// It is there.
        exists: bool,
        /// Where it can be downloaded from.
        url: String,
    },
    /// The installer ended.
    Exited {
        /// It succeeded.
        success: bool,
        /// How it ended.
        status: String,
    },
    /// The name of the installed version.
    Installed(String),
    /// The action failed.
    Failed(String),
}

/// What an installation waits for.
#[derive(Debug, Clone, Copy, PartialEq, Eq, Structural)]
pub enum ForgeStage {
    /// The game version itself.
    Base,
    /// The profile file.
    ProfileFile,
    /// Whether the installer is there.
    Finding,
    /// The download of the installer.
    Downloading,
    /// The report on Java.
    Probing,
    /// The end of the installer.
    Running,
    /// The name of the installed version.
    Resolving,
    /// Nothing: the installation is over.
    Over,
}

/// What is installed.
pub struct ForgeJob {
    pub minecraft_version: Seq<char>,
    pub forge_version: Seq<char>,
    pub minecraft_dir: Seq<char>,
    pub java: Seq<char>,
}

/// The state of an installation as plain values.
pub struct ForgeView {
    pub stage: ForgeStage,
    /// The installed version, or why there is none.
    pub outcome: Option<Result<Seq<char>, Seq<char>>>,
}

/// An installation that ends with a failure.
pub open spec fn failing(error: Seq<char>) -> (ForgeView, Seq<ForgeActionView>) {
    (ForgeView { stage: ForgeStage::Over, outcome: Some(Err(error)) }, seq![])
}

/// A stage of an installation, with what it asks for.
pub open spec fn at_stage(stage: ForgeStage, actions: Seq<ForgeActionView>) -> (
    ForgeView,
    Seq<ForgeActionView>,
) {
    (ForgeView { stage, outcome: None }, actions)
}

/// What is asked for once the installer is there.
pub open spec fn installer_ready(job: ForgeJob) -> Seq<ForgeActionView> {
    let java = installer_java(job.java);
    let running = ForgeActionView::Log("Running Forge installer with Java '"@ + java + "'"@);
    if is_legacy(job.minecraft_version) {
        seq![
            running,
            ForgeActionView::Log(
                "[forge-installer] Legacy Forge detected; Java 8 is typically required for 1.7/1.8 installs"@,
            ),
            ForgeActionView::ProbeJava(java),
        ]
    } else {
        seq![running, ForgeActionView::ProbeJava(java)]
    }
}

/// The arguments of the installer.
pub open spec fn installer_arguments(job: ForgeJob) -> Seq<Seq<char>> {
    seq![
        "-jar"@,
        installer_path(job.minecraft_dir, job.forge_version),
        "--installClient"@,
        job.minecraft_dir,
    ]
}

/// What a reply leads to. A reply that the installation does not wait for changes
/// nothing. A failure ends the installation, except that of the report on Java.
pub open spec fn forge_step(job: ForgeJob, v: ForgeView, reply: ForgeReply) -> (
    ForgeView,
    Seq<ForgeActionView>,
) {
    let target = installer_path(job.minecraft_dir, job.forge_version);
    let run = at_stage(
        ForgeStage::Running,
        seq![
            ForgeActionView::RunInstaller {
                java: installer_java(job.java),
                args: installer_arguments(job),
            },
        ],
    );
    match (v.stage, reply) {
        (ForgeStage::Over, _) => (v, seq![]),
        (ForgeStage::Probing, ForgeReply::Failed(_)) => run,
        (_, ForgeReply::Failed(error)) => failing(error@),
        (ForgeStage::Base, ForgeReply::Done) => at_stage(
            ForgeStage::ProfileFile,
            seq![ForgeActionView::EnsureProfileFile],
        ),
        (ForgeStage::ProfileFile, ForgeReply::Done) => at_stage(
            ForgeStage::Finding,
            seq![
                ForgeActionView::Log(
                    "Ensured launcher_profiles.json exists for Forge installer compatibility"@,
                ),
                ForgeActionView::FindInstaller(target),
            ],
        ),
        (ForgeStage::Finding, ForgeReply::Installer { exists, url }) => if exists {
            at_stage(ForgeStage::Probing, installer_ready(job))
        } else {
            at_stage(
                ForgeStage::Downloading,
                seq![
                    ForgeActionView::Log("Downloading Forge installer: "@ + url@),
                    ForgeActionView::Download { url: url@, target },
                ],
            )
        },
        (ForgeStage::Downloading, ForgeReply::Done) => at_stage(
            ForgeStage::Probing,
            installer_ready(job),
        ),
        (ForgeStage::Probing, ForgeReply::Done) => run,
        (ForgeStage::Running, ForgeReply::Exited { success, status }) => if success {
            at_stage(
                ForgeStage::Resolving,
                seq![ForgeActionView::ResolveInstalled(job.forge_version)],
            )
        } else {
            failing(
                "Forge installer exited with status "@ + status@ + "."@ + java_hint(
                    job.minecraft_version,
                ),
            )
        },
        (ForgeStage::Resolving, ForgeReply::Installed(version)) => (
            ForgeView { stage: ForgeStage::Over, outcome: Some(Ok(version@)) },
            seq![],
        ),
        _ => (v, seq![]),
    }
}

/// How an installation begins.
pub open spec fn forge_start(job: ForgeJob) -> (ForgeView, Seq<ForgeActionView>) {
    at_stage(ForgeStage::Base, seq![ForgeActionView::InstallBase(job.minecraft_version)])
}

/// Whether outcome and stage fit.
pub open spec fn forge_invariant(v: ForgeView) -> bool {
    v.stage == ForgeStage::Over <==> v.outcome is Some
}

/// An installation of Forge.
#[derive(Debug)]
pub struct ForgeRun {
    minecraft_version: String,
    forge_version: String,
    minecraft_dir: String,
    java: String,
    stage: ForgeStage,
    installed: Option<String>,
    error: Option<String>,
}

impl View for ForgeRun {
    type V = ForgeView;

    closed spec fn view(&self) -> ForgeView {
        ForgeView {
            stage: self.stage,
            outcome: match (self.error, self.installed) {
                (Some(error), _) => Some(Err(error@)),
                (None, Some(version)) => Some(Ok(version@)),
                (None, None) => None,
            },
        }
    }
}

/// The configured Java executable, if there is one.
pub fn configured_java(configured: &str) -> (r: Option<String>)
    ensures
        text::opt_text(r) == chosen_java(configured@),
{
    if configured.is_empty() || same_text(configured, "/path/to/binary") {
        None
    } else {
        Some(configured.to_owned())
    }
}

/// The Java executable that runs the installer.
pub fn forge_java(configured: &str) -> (r: String)
    ensures
        r@ == installer_java(configured@),
{
    match configured_java(configured) {
        Some(java) => java,
        None => "java".to_owned(),
    }
}

fn needs_old_java(minecraft_version: &str) -> (r: bool)
    ensures
        r == is_legacy(minecraft_version@),
{
    has_prefix(minecraft_version, "1.8.") || has_prefix(minecraft_version, "1.7.")
}

/// The path of the installer.
pub fn forge_installer_path(minecraft_dir: &str, forge_version: &str) -> (r: String)
    ensures
        r@ == installer_path(minecraft_dir@, forge_version@),
{
    let directory = join_path(minecraft_dir, "installers");
    let file = concat3("forge-", forge_version, "-installer.jar");
    join_path(directory.as_str(), file.as_str())
}

impl ForgeRun {
    /// What is installed.
    pub closed spec fn job(&self) -> ForgeJob {
        ForgeJob {
            minecraft_version: self.minecraft_version@,
            forge_version: self.forge_version@,
            minecraft_dir: self.minecraft_dir@,
            java: self.java@,
        }
    }

    /// Whether the state is one that an installation can have.
    pub closed spec fn wf(&self) -> bool {
        &&& forge_invariant(self@)
        &&& self.error is Some || self.installed is Some ==> self.stage == ForgeStage::Over
    }

    /// Begins an installation.
    pub fn start(
        minecraft_version: String,
        forge_version: String,
        minecraft_dir: String,
        java: String,
    ) -> (r: (ForgeRun, Vec<ForgeAction>))
        ensures
            r.0.job() == (ForgeJob {
                minecraft_version: minecraft_version@,
                forge_version: forge_version@,
                minecraft_dir: minecraft_dir@,
                java: java@,
            }),
            (r.0@, action_views(r.1@)) == forge_start(r.0.job()),
            r.0.wf(),
    {
        let mut actions: Vec<ForgeAction> = Vec::new();
        assert(action_views(actions@) =~= seq![]);
        emit(&mut actions, ForgeAction::InstallBase(minecraft_version.clone()));
        let run = ForgeRun {
            minecraft_version,
            forge_version,
            minecraft_dir,
            java,
            stage: ForgeStage::Base,
            installed: None,
            error: None,
        };
        (run, actions)
    }

    fn installer_found(&mut self, actions: &mut Vec<ForgeAction>)
        requires
            old(self).wf(),
            old(self).stage != ForgeStage::Over,
            action_views(old(actions)@) == Seq::<ForgeActionView>::empty(),
        ensures
            final(self).job() == old(self).job(),
            (final(self)@, action_views(final(actions)@)) == at_stage(
                ForgeStage::Probing,
                installer_ready(old(self).job()),
            ),
            final(self).wf(),
    {
        let java = forge_java(self.java.as_str());
        emit(
            actions,
            ForgeAction::Log(concat3("Running Forge installer with Java '", java.as_str(), "'")),
        );
        if needs_old_java(self.minecraft_version.as_str()) {
            emit(
                actions,
                ForgeAction::Log(
                    "[forge-installer] Legacy Forge detected; Java 8 is typically required for 1.7/1.8 installs".to_owned(),
                ),
            );
        }
        emit(actions, ForgeAction::ProbeJava(java));
        self.stage = ForgeStage::Probing;
    }

    fn run_installer(&mut self, actions: &mut Vec<ForgeAction>)
        requires
            old(self).wf(),
            old(self).stage != ForgeStage::Over,
            action_views(old(actions)@) == Seq::<ForgeActionView>::empty(),
        ensures
            final(self).job() == old(self).job(),
            (final(self)@, action_views(final(actions)@)) == at_stage(
                ForgeStage::Running,
                seq![
                    ForgeActionView::RunInstaller {
                        java: installer_java(old(self).job().java),
                        args: installer_arguments(old(self).job()),
                    },
                ],
            ),
            final(self).wf(),
    {
        let java = forge_java(self.java.as_str());
        let path = forge_installer_path(self.minecraft_dir.as_str(), self.forge_version.as_str());
        let mut args: Vec<String> = Vec::new();
        args.push("-jar".to_owned());
        args.push(path);
        args.push("--installClient".to_owned());
        args.push(self.minecraft_dir.clone());
        assert(text::texts(args@) =~= installer_arguments(self.job()));
        emit(actions, ForgeAction::RunInstaller { java, args });
        self.stage = ForgeStage::Running;
    }

    /// Takes in how an action went, and says what to do next.
    pub fn step(&mut self, reply: ForgeReply) -> (r: Vec<ForgeAction>)
        requires
            old(self).wf(),
        ensures
            (final(self)@, action_views(r@)) == forge_step(old(self).job(), old(self)@, reply),
            final(self).job() == old(self).job(),
            final(self).wf(),
    {
        let mut actions: Vec<ForgeAction> = Vec::new();
        assert(action_views(actions@) =~= seq![]);
        match (self.stage, reply) {
            (ForgeStage::Over, _) => {},
            (ForgeStage::Probing, ForgeReply::Failed(_)) => {
                self.run_installer(&mut actions);
            },
            (_, ForgeReply::Failed(error)) => {
                self.stage = ForgeStage::Over;
                self.error = Some(error);
            },
            (ForgeStage::Base, ForgeReply::Done) => {
                emit(&mut actions, ForgeAction::EnsureProfileFile);
                self.stage = ForgeStage::ProfileFile;
            },
            (ForgeStage::ProfileFile, ForgeReply::Done) => {
                let path = forge_installer_path(
                    self.minecraft_dir.as_str(),
                    self.forge_version.as_str(),
                );
                emit(
                    &mut actions,
                    ForgeAction::Log(
                        "Ensured launcher_profiles.json exists for Forge installer compatibility".to_owned(),
                    ),
                );
                emit(&mut actions, ForgeAction::FindInstaller(path));
                self.stage = ForgeStage::Finding;
            },
            (ForgeStage::Finding, ForgeReply::Installer { exists, url }) => if exists {
                self.installer_found(&mut actions);
            } else {
                let target = forge_installer_path(
                    self.minecraft_dir.as_str(),
                    self.forge_version.as_str(),
                );
                emit(
                    &mut actions,
                    ForgeAction::Log(concat2("Downloading Forge installer: ", url.as_str())),
                );
                emit(&mut actions, ForgeAction::Download { url, target });
                self.stage = ForgeStage::Downloading;
            },
            (ForgeStage::Downloading, ForgeReply::Done) => {
                self.installer_found(&mut actions);
            },
            (ForgeStage::Probing, ForgeReply::Done) => {
                self.run_installer(&mut actions);
            },
            (ForgeStage::Running, ForgeReply::Exited { success, status }) => if success {
                emit(&mut actions, ForgeAction::ResolveInstalled(self.forge_version.clone()));
                self.stage = ForgeStage::Resolving;
            } else {
                let hint = if needs_old_java(self.minecraft_version.as_str()) {
                    " For older Forge (1.7/1.8), configure Java 8 in Profile Editor > Runtime Settings."
                } else {
                    ""
                };
                let error = concat4(
                    "Forge installer exited with status ",
                    status.as_str(),
                    ".",
                    hint,
                );
                self.stage = ForgeStage::Over;
                self.error = Some(error);
            },
            (ForgeStage::Resolving, ForgeReply::Installed(version)) => {
                self.stage = ForgeStage::Over;
                self.installed = Some(version);
            },
            _ => {},
        }
        actions
    }

    /// The installed version, once the installation is over, or why it failed.
    pub fn outcome(self) -> (r: Option<Result<String, String>>)
        requires
            self.wf(),
        ensures
            match self@.outcome {
                Some(Ok(version)) => r matches Some(Ok(v)) && v@ == version,
                Some(Err(error)) => r matches Some(Err(e)) && e@ == error,
                None => r is None,
            },
    {
        match (self.error, self.installed) {
            (Some(error), _) => Some(Err(error)),
            (None, Some(version)) => Some(Ok(version)),
            (None, None) => None,
        }
    }
}

proof fn lemma_latest(versions: Seq<Seq<char>>, minecraft_version: Seq<char>, n: int)
    requires
        0 <= n <= versions.len(),
    ensures
        match latest_among(versions, minecraft_version, n) {
            Some(version) => exists|i: int|
                #![trigger versions[i]]
                0 <= i < n && versions[i] == version && text::opens_with(
                    versions[i],
                    minecraft_version + "-"@,
                ) && forall|j: int|
                    i < j < n ==> !text::opens_with(
                        #[trigger] versions[j],
                        minecraft_version + "-"@,
                    ),
            None => forall|i: int|
                0 <= i < n ==> !text::opens_with(
                    #[trigger] versions[i],
                    minecraft_version + "-"@,
                ),
        },
    decreases n,
{
    if n > 0 {
        if text::opens_with(versions[n - 1], minecraft_version + "-"@) {
            assert(versions[n - 1] == versions[n - 1]);
        } else {
            lemma_latest(versions, minecraft_version, n - 1);
        }
    }
}

/// The resolved Forge version belongs to the game version, and no later version
/// of the list does.
pub proof fn law_latest_forge_belongs_to_the_game(
    versions: Seq<Seq<char>>,
    minecraft_version: Seq<char>,
)
    ensures
        match latest_among(versions, minecraft_version, versions.len() as int) {
            Some(version) => exists|i: int|
                #![trigger versions[i]]
                0 <= i < versions.len() && versions[i] == version && text::opens_with(
                    versions[i],
                    minecraft_version + "-"@,
                ) && forall|j: int|
                    i < j < versions.len() ==> !text::opens_with(
                        #[trigger] versions[j],
                        minecraft_version + "-"@,
                    ),
            None => forall|i: int|
                0 <= i < versions.len() ==> !text::opens_with(
                    #[trigger] versions[i],
                    minecraft_version + "-"@,
                ),
        },
{
    lemma_latest(versions, minecraft_version, versions.len() as int);
}

/// An installer that is there is not downloaded again, and it runs only where
/// it is there: after it was found or downloaded.
pub proof fn law_installer_is_downloaded_once(
    job: ForgeJob,
    v: ForgeView,
    reply: ForgeReply,
    i: int,
)
    requires
        0 <= i < forge_step(job, v, reply).1.len(),
    ensures
        forge_step(job, v, reply).1[i] is Download ==> v.stage == ForgeStage::Finding
            && (reply matches ForgeReply::Installer { exists, .. } && !exists),
        forge_step(job, v, reply).1[i] is RunInstaller ==> v.stage == ForgeStage::Probing,
{
}

/// Which Forge version is the latest for a game version: the last of the list that
/// reads `game version-…`. Adding another one for the game makes that the latest, and
/// adding one for another game changes nothing.
pub proof fn law_latest_forge_is_the_last_one(
    versions: Seq<Seq<char>>,
    minecraft_version: Seq<char>,
    build: Seq<char>,
    other: Seq<char>,
)
    ensures
        latest_among(Seq::empty(), minecraft_version, 0) is None,
        latest_among(
            versions.push(minecraft_version + seq!['-'] + build),
            minecraft_version,
            (versions.len() + 1) as int,
        ) == Some(minecraft_version + seq!['-'] + build),
        other.len() <= minecraft_version.len() || other.take(minecraft_version.len() as int)
            != minecraft_version || other[minecraft_version.len() as int] != '-' ==> latest_among(
            versions.push(other),
            minecraft_version,
            (versions.len() + 1) as int,
        ) == latest_among(versions, minecraft_version, versions.len() as int),
{
    reveal_strlit("-");
    assert("-"@ =~= seq!['-']);
    let prefix = minecraft_version + "-"@;
    let named = minecraft_version + seq!['-'] + build;
    let n = minecraft_version.len() as int;
    assert(named.take(n + 1) =~= prefix);
    assert(versions.push(named)[versions.len() as int] == named);
    assert(versions.push(other)[versions.len() as int] == other);
    if text::opens_with(other, prefix) {
        let head = other.take(n + 1);
        assert(head[n] == prefix[n]);
        assert(other.take(n) =~= head.take(n));
        assert(prefix.take(n) =~= minecraft_version);
    }
    lemma_latest_prefix(versions, other, minecraft_version, versions.len() as int);
}

proof fn lemma_latest_prefix(
    versions: Seq<Seq<char>>,
    other: Seq<char>,
    minecraft_version: Seq<char>,
    n: int,
)
    requires
        0 <= n <= versions.len(),
    ensures
        latest_among(versions.push(other), minecraft_version, n) == latest_among(
            versions,
            minecraft_version,
            n,
        ),
    decreases n,
{
    if n > 0 {
        lemma_latest_prefix(versions, other, minecraft_version, n - 1);
        assert(versions.push(other)[n - 1] == versions[n - 1]);
    }
}

/// Which Java is used: the configured one, unless nothing or only the placeholder is
/// configured; `java` runs the installer then.
pub proof fn law_configured_java_is_used(configured: Seq<char>)
    ensures
        configured.len() > 0 && configured != "/path/to/binary"@ ==> chosen_java(configured)
            == Some(configured) && installer_java(configured) == configured,
        configured.len() == 0 || configured == "/path/to/binary"@ ==> chosen_java(configured)
            is None && installer_java(configured) == "java"@,
{
}

/// How Forge is installed: its own installer is run with the chosen Java, as
/// `-jar installer --installClient directory`, and the installer is the one of this
/// Forge version, in the `installers` directory.
pub proof fn law_installer_is_run_for_the_directory(
    job: ForgeJob,
    v: ForgeView,
    reply: ForgeReply,
    i: int,
)
    requires
        0 <= i < forge_step(job, v, reply).1.len(),
        job.minecraft_dir.len() > 0,
        job.minecraft_dir.last() != '/',
    ensures
        ({
            let installer = job.minecraft_dir + "/installers/forge-"@ + job.forge_version
                + "-installer.jar"@;
            let action = forge_step(job, v, reply).1[i];
            &&& action matches ForgeActionView::RunInstaller { java, args } ==> java
                == installer_java(job.java) && args == seq![
                "-jar"@,
                installer,
                "--installClient"@,
                job.minecraft_dir,
            ]
            &&& action matches ForgeActionView::FindInstaller(path) ==> path == installer
            &&& action matches ForgeActionView::Download { url, target } ==> target == installer
                && (reply matches ForgeReply::Installer { url: told, .. } && url == told@)
            &&& action matches ForgeActionView::ProbeJava(java) ==> java == installer_java(job.java)
            &&& action matches ForgeActionView::ResolveInstalled(version) ==> version
                == job.forge_version
        }),
        forge_start(job).1 == seq![ForgeActionView::InstallBase(job.minecraft_version)],
{
    reveal_strlit("installers");
    reveal_strlit("forge-");
    reveal_strlit("/installers/forge-");
    let installer = job.minecraft_dir + "/installers/forge-"@ + job.forge_version
        + "-installer.jar"@;
    assert(installer_path(job.minecraft_dir, job.forge_version) =~= installer);
    assert(installer_arguments(job) =~= seq![
        "-jar"@,
        installer,
        "--installClient"@,
        job.minecraft_dir,
    ]);
}

/// Whether an action is the request whose reply a stage waits for.
pub open spec fn is_request_of(stage: ForgeStage, action: ForgeActionView) -> bool {
    match stage {
        ForgeStage::Base => action is InstallBase,
        ForgeStage::ProfileFile => action is EnsureProfileFile,
        ForgeStage::Finding => action is FindInstaller,
        ForgeStage::Downloading => action is Download,
        ForgeStage::Probing => action is ProbeJava,
        ForgeStage::Running => action is RunInstaller,
        ForgeStage::Resolving => action is ResolveInstalled,
        ForgeStage::Over => false,
    }
}

/// The stages of an installation follow each other and none is left out: the game,
/// the profile file, the installer, which is downloaded where it is not there, the
/// report on Java, the run, and the name of what was installed.
pub proof fn law_no_stage_of_forge_is_left_out(job: ForgeJob, v: ForgeView, reply: ForgeReply)
    requires
        v.stage != ForgeStage::Over,
    ensures
        ({
            let (next, actions) = forge_step(job, v, reply);
            &&& next.stage != v.stage && next.stage != ForgeStage::Over ==> actions.len() > 0
                && is_request_of(next.stage, actions.last()) && next.outcome is None
            &&& next.stage == v.stage ==> actions.len() == 0 && next == v
            &&& v.stage == ForgeStage::Base && reply is Done ==> next.stage
                == ForgeStage::ProfileFile
            &&& v.stage == ForgeStage::ProfileFile && reply is Done ==> next.stage
                == ForgeStage::Finding
            &&& v.stage == ForgeStage::Finding ==> (reply matches ForgeReply::Installer {
                exists,
                ..
            } ==> next.stage == if exists {
                ForgeStage::Probing
            } else {
                ForgeStage::Downloading
            })
            &&& v.stage == ForgeStage::Downloading && reply is Done ==> next.stage
                == ForgeStage::Probing
            &&& v.stage == ForgeStage::Probing && (reply is Done || reply is Failed) ==> next.stage
                == ForgeStage::Running
            &&& v.stage == ForgeStage::Running ==> (reply matches ForgeReply::Exited {
                success,
                ..
            } ==> next.stage == if success {
                ForgeStage::Resolving
            } else {
                ForgeStage::Over
            })
            &&& next.stage == ForgeStage::Resolving ==> v.stage == ForgeStage::Resolving || (
            reply matches ForgeReply::Exited { success, .. } && success)
        }),
{
}

/// How an installation ends: with the name of the installed version, or with the
/// reason of the failure; a failed report on Java does not end it.
pub proof fn law_outcome_of_forge(job: ForgeJob, v: ForgeView, reply: ForgeReply)
    requires
        v.stage != ForgeStage::Over,
    ensures
        ({
            let (next, actions) = forge_step(job, v, reply);
            &&& next.outcome matches Some(Ok(version)) ==> v.outcome == Some(Ok::<_, Seq<char>>(version))
                || (v.stage == ForgeStage::Resolving && (reply matches ForgeReply::Installed(
                name,
            ) && version == name@))
            &&& v.stage == ForgeStage::Resolving ==> (reply matches ForgeReply::Installed(name)
                ==> next.outcome == Some(Ok::<Seq<char>, Seq<char>>(name@)))
            &&& v.stage != ForgeStage::Probing ==> (reply matches ForgeReply::Failed(error)
                ==> next.outcome == Some(Err::<Seq<char>, Seq<char>>(error@)) && actions.len() == 0)
            &&& v.stage == ForgeStage::Running ==> (reply matches ForgeReply::Exited {
                success,
                status,
            } ==> (!success ==> (next.outcome matches Some(Err(error)) && text::contains_text(
                error,
                status@,
            ))))
        }),
{
    if let ForgeReply::Exited { success, status } = reply {
        let head = "Forge installer exited with status "@;
        let error = head + status@ + "."@ + java_hint(job.minecraft_version);
        assert(error.subrange(head.len() as int, (head.len() + status@.len()) as int) =~= status@);
        assert(text::occurs_at(error, status@, head.len() as int));
    }
}

/// Which game versions need an old Java: those of 1.7 and 1.8, and no others.
pub proof fn law_old_forge_needs_an_old_java(minecraft_version: Seq<char>)
    ensures
        is_legacy(minecraft_version) <==> minecraft_version.len() >= 4 && minecraft_version[0]
            == '1' && minecraft_version[1] == '.' && (minecraft_version[2] == '7'
            || minecraft_version[2] == '8') && minecraft_version[3] == '.',
        !is_legacy(minecraft_version) ==> java_hint(minecraft_version).len() == 0,
        is_legacy(minecraft_version) ==> java_hint(minecraft_version)
            == " For older Forge (1.7/1.8), configure Java 8 in Profile Editor > Runtime Settings."@,
{
    reveal_strlit("1.8.");
    reveal_strlit("1.7.");
    reveal_strlit("");
    if minecraft_version.len() >= 4 {
        let head = minecraft_version.take(4);
        assert(head[0] == minecraft_version[0] && head[1] == minecraft_version[1]);
        assert(head[2] == minecraft_version[2] && head[3] == minecraft_version[3]);
        if minecraft_version[0] == '1' && minecraft_version[1] == '.' && minecraft_version[3]
            == '.' {
            if minecraft_version[2] == '7' {
                assert(head =~= "1.7."@);
            }
            if minecraft_version[2] == '8' {
                assert(head =~= "1.8."@);
            }
        }
    }
}

/// What is told while Forge is installed: that the profile file is there, where the
/// installer comes from, with which Java it runs, and for old versions that an old Java
/// is needed.
pub proof fn law_installation_of_forge_is_told(job: ForgeJob, v: ForgeView, reply: ForgeReply)
    ensures
        ({
            let (next, actions) = forge_step(job, v, reply);
            &&& v.stage == ForgeStage::ProfileFile && reply is Done ==> actions.len() == 2
                && actions[0] == ForgeActionView::Log(
                "Ensured launcher_profiles.json exists for Forge installer compatibility"@,
            )
            &&& next.stage == ForgeStage::Downloading && v.stage != next.stage ==> actions.len()
                == 2 && (reply matches ForgeReply::Installer { url, .. } && actions[0]
                == ForgeActionView::Log("Downloading Forge installer: "@ + url@))
            &&& next.stage == ForgeStage::Probing && v.stage != next.stage ==> {
                &&& actions[0] == ForgeActionView::Log(
                    "Running Forge installer with Java '"@ + installer_java(job.java) + "'"@,
                )
                &&& is_legacy(job.minecraft_version) ==> actions.len() == 3 && actions[1]
                    == ForgeActionView::Log(
                    "[forge-installer] Legacy Forge detected; Java 8 is typically required for 1.7/1.8 installs"@,
                )
                &&& !is_legacy(job.minecraft_version) ==> actions.len() == 2
            }
            &&& next.stage == ForgeStage::Running && v.stage != next.stage ==> actions.len() == 1
            &&& next.stage == ForgeStage::Resolving && v.stage != next.stage ==> actions.len() == 1
        }),
{
}

/// What is said of an installer that failed, and where there is no Forge at all.
pub proof fn law_failed_installer_is_told(
    job: ForgeJob,
    v: ForgeView,
    status: String,
    minecraft_version: Seq<char>,
)
    requires
        v.stage == ForgeStage::Running,
    ensures
        forge_step(job, v, ForgeReply::Exited { success: false, status }).0.outcome == Some(
            Err::<Seq<char>, Seq<char>>(
                "Forge installer exited with status "@ + status@ + "."@ + java_hint(
                    job.minecraft_version,
                ),
            ),
        ),
        no_forge_text(minecraft_version) == "No Forge versions found for Minecraft "@
            + minecraft_version
            + ". Choose Exact loader version or a different Minecraft version."@,
        forge_start(job).0.stage == ForgeStage::Base && forge_start(job).0.outcome is None,
        forall|reply: ForgeReply|
            #![trigger forge_step(job, ForgeView { stage: ForgeStage::Over, ..v }, reply)]
            forge_step(job, ForgeView { stage: ForgeStage::Over, ..v }, reply) == (
                ForgeView { stage: ForgeStage::Over, ..v },
                Seq::<ForgeActionView>::empty(),
            ),
{
}

} // verus!
