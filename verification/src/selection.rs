//! The projects that are picked for installation.

use vstd::prelude::*;
use vstd::string::*;

use crate::discovery;
use crate::discovery::{CardView, DiscoveryCardData, DiscoveryKind};
use crate::messages;
use crate::messages::{AppEvent, EventView};
use crate::sorting;
use crate::sorting::sort_by_name;
use crate::text;
use crate::text::{concat5, decimal_text, same_text};

verus! {

/// A copy of a card.
fn copy_card(card: &DiscoveryCardData) -> (r: DiscoveryCardData)
    ensures
        r@ == card@,
        r == *card,
{
    DiscoveryCardData {
        project_id: card.project_id.clone(),
        title: card.title.clone(),
        description: card.description.clone(),
    }
}

/// The position of the card of a project, among the first `n`.
pub open spec fn position_of(cards: Seq<CardView>, project_id: Seq<char>, n: int) -> Option<int>
    decreases n,
{
    if n <= 0 {
        None
    } else if cards[n - 1].project_id == project_id {
        Some(n - 1)
    } else {
        position_of(cards, project_id, n - 1)
    }
}

/// Whether a project is among cards.
pub open spec fn holds(cards: Seq<CardView>, project_id: Seq<char>) -> bool {
    exists|i: int| 0 <= i < cards.len() && (#[trigger] cards[i]).project_id == project_id
}

/// Whether every project is there once at most.
pub open spec fn projects_distinct(cards: Seq<CardView>) -> bool {
    forall|i: int, j: int|
        0 <= i < j < cards.len() ==> (#[trigger] cards[i]).project_id != (
        #[trigger] cards[j]).project_id
}

/// Cards with one more, in place of the one that its project had.
pub open spec fn with_card(cards: Seq<CardView>, card: CardView) -> Seq<CardView> {
    match position_of(cards, card.project_id, cards.len() as int) {
        Some(at) => cards.update(at, card),
        None => cards.push(card),
    }
}

/// Cards without that of a project.
pub open spec fn without_card(cards: Seq<CardView>, project_id: Seq<char>) -> Seq<CardView> {
    match position_of(cards, project_id, cards.len() as int) {
        Some(at) => cards.remove(at),
        None => cards,
    }
}

proof fn lemma_position(cards: Seq<CardView>, project_id: Seq<char>, n: int)
    requires
        0 <= n <= cards.len(),
    ensures
        match position_of(cards, project_id, n) {
            Some(at) => 0 <= at < n && cards[at].project_id == project_id,
            None => forall|i: int| 0 <= i < n ==> (#[trigger] cards[i]).project_id != project_id,
        },
    decreases n,
{
    if n > 0 && cards[n - 1].project_id != project_id {
        lemma_position(cards, project_id, n - 1);
    }
}

/// The projects that are picked, each once.
#[derive(Debug)]
pub struct Selection {
    cards: Vec<DiscoveryCardData>,
}

impl View for Selection {
    type V = Seq<CardView>;

    closed spec fn view(&self) -> Seq<CardView> {
        discovery::card_views(self.cards@)
    }
}

fn find_card(cards: &Vec<DiscoveryCardData>, project_id: &str) -> (r: Option<usize>)
    ensures
        match position_of(discovery::card_views(cards@), project_id@, cards@.len() as int) {
            Some(at) => r matches Some(found) && found == at && found < cards@.len(),
            None => r is None,
        },
{
    let ghost views = discovery::card_views(cards@);
    let mut n: usize = cards.len();
    while n > 0
        invariant
            n <= cards@.len(),
            views == discovery::card_views(cards@),
            position_of(views, project_id@, cards@.len() as int) == position_of(
                views,
                project_id@,
                n as int,
            ),
        decreases n,
    {
        assert(views[n - 1] == cards@[n - 1]@);
        if same_text(cards[n - 1].project_id.as_str(), project_id) {
            return Some(n - 1);
        }
        n = n - 1;
    }
    None
}

impl Selection {
    /// Nothing is picked.
    pub fn new() -> (r: Self)
        ensures
            r@ == Seq::<CardView>::empty(),
            projects_distinct(r@),
    {
        let selection = Selection { cards: Vec::new() };
        assert(selection@ =~= Seq::empty());
        selection
    }

    /// Picks a project.
    pub fn select(&mut self, card: DiscoveryCardData)
        requires
            projects_distinct(old(self)@),
        ensures
            final(self)@ == with_card(old(self)@, card@),
            projects_distinct(final(self)@),
    {
        let ghost before = self@;
        let ghost added = card@;
        proof {
            lemma_position(before, added.project_id, before.len() as int);
        }
        match find_card(&self.cards, card.project_id.as_str()) {
            Some(at) => {
                self.cards.set(at, card);
                assert(self@ =~= before.update(at as int, added));
            },
            None => {
                self.cards.push(card);
                assert(self@ =~= before.push(added));
            },
        }
    }

    /// Drops a project.
    pub fn deselect(&mut self, project_id: &str)
        requires
            projects_distinct(old(self)@),
        ensures
            final(self)@ == without_card(old(self)@, project_id@),
            projects_distinct(final(self)@),
    {
        let ghost before = self@;
        if let Some(at) = find_card(&self.cards, project_id) {
            self.cards.remove(at);
            assert(self@ =~= before.remove(at as int));
            assert forall|i: int, j: int| 0 <= i < j < self@.len() implies (
            #[trigger] self@[i]).project_id != (#[trigger] self@[j]).project_id by {
                let a = if i < at {
                    i
                } else {
                    i + 1
                };
                let b = if j < at {
                    j
                } else {
                    j + 1
                };
                assert(self@[i] == before[a] && self@[j] == before[b]);
            }
        }
    }

    /// Drops every project.
    pub fn clear(&mut self)
        ensures
            final(self)@ == Seq::<CardView>::empty(),
            projects_distinct(final(self)@),
    {
        self.cards.clear();
        assert(self@ =~= Seq::empty());
    }

    /// Whether nothing is picked.
    pub fn is_empty(&self) -> (r: bool)
        ensures
            r == (self@.len() == 0),
    {
        self.cards.len() == 0
    }

    /// The picked projects in the order in which they are shown: by title without
    /// regard to case.
    pub fn sorted(&self) -> (r: Vec<DiscoveryCardData>)
        ensures
            discovery::card_views(r@) == shown_order(self@),
    {
        let ghost views = self@;
        let ghost titles = views.map_values(|card: CardView| card.title);
        let mut names: Vec<String> = Vec::new();
        let mut i: usize = 0;
        assert(text::texts(names@) =~= titles.take(0));
        while i < self.cards.len()
            invariant
                i <= self.cards@.len(),
                views == discovery::card_views(self.cards@),
                titles == views.map_values(|card: CardView| card.title),
                text::texts(names@) == titles.take(i as int),
            decreases self.cards@.len() - i,
        {
            let ghost before = text::texts(names@);
            assert(views[i as int] == self.cards@[i as int]@);
            names.push(self.cards[i].title.clone());
            assert(text::texts(names@) =~= before.push(titles[i as int]));
            assert(titles.take(i + 1) =~= titles.take(i as int).push(titles[i as int]));
            i = i + 1;
        }
        assert(titles.take(titles.len() as int) =~= titles);
        assert(text::texts(names@).len() == names@.len());
        let order = sort_by_name(&names);
        let ghost listed = sorting::positions(order@).map_values(|j: int| views[j]);
        let mut sorted: Vec<DiscoveryCardData> = Vec::new();
        let mut k: usize = 0;
        assert(discovery::card_views(sorted@) =~= listed.take(0));
        while k < order.len()
            invariant
                k <= order@.len(),
                views == discovery::card_views(self.cards@),
                names@.len() == self.cards@.len(),
                forall|j: int| 0 <= j < order@.len() ==> #[trigger] order@[j] < names@.len(),
                listed == sorting::positions(order@).map_values(|j: int| views[j]),
                discovery::card_views(sorted@) == listed.take(k as int),
            decreases order@.len() - k,
        {
            let at = order[k];
            assert(views[at as int] == self.cards@[at as int]@);
            let card = copy_card(&self.cards[at]);
            let ghost before = discovery::card_views(sorted@);
            let ghost added = card@;
            sorted.push(card);
            assert(discovery::card_views(sorted@) =~= before.push(added));
            assert(listed[k as int] == added);
            assert(listed.take(k + 1) =~= listed.take(k as int).push(added));
            k = k + 1;
        }
        assert(listed.take(k as int) =~= listed);
        sorted
    }

    /// The projects that a search found and that are not picked.
    pub fn unselected(&self, results: &Vec<DiscoveryCardData>) -> (r: Vec<DiscoveryCardData>)
        ensures
            discovery::card_views(r@) == not_picked(self@, discovery::card_views(results@)),
    {
        let ghost views = discovery::card_views(results@);
        let ghost picked = self@;
        let ghost stays = |card: CardView| !holds(picked, card.project_id);
        let mut kept: Vec<DiscoveryCardData> = Vec::new();
        let mut i: usize = 0;
        proof {
            reveal(Seq::filter);
            assert(discovery::card_views(kept@) =~= views.take(0).filter(stays));
        }
        while i < results.len()
            invariant
                i <= results@.len(),
                views == discovery::card_views(results@),
                picked == self@,
                stays == (|card: CardView| !holds(picked, card.project_id)),
                discovery::card_views(kept@) == views.take(i as int).filter(stays),
            decreases results@.len() - i,
        {
            proof {
                reveal(Seq::filter);
                assert(views.take(i + 1).drop_last() =~= views.take(i as int));
                assert(views[i as int] == results@[i as int]@);
                lemma_position(picked, views[i as int].project_id, picked.len() as int);
            }
            let ghost before = discovery::card_views(kept@);
            if find_card(&self.cards, results[i].project_id.as_str()).is_none() {
                let card = copy_card(&results[i]);
                let ghost added = card@;
                kept.push(card);
                assert(discovery::card_views(kept@) =~= before.push(added));
            }
            i = i + 1;
        }
        assert(views.take(views.len() as int) =~= views);
        kept
    }
}

/// Picked cards in the order in which they are shown.
pub open spec fn shown_order(cards: Seq<CardView>) -> Seq<CardView> {
    sorting::order_of(cards.map_values(|card: CardView| card.title)).map_values(
        |i: int| cards[i],
    )
}

/// Found cards that are not picked.
pub open spec fn not_picked(picked: Seq<CardView>, found: Seq<CardView>) -> Seq<CardView> {
    found.filter(|card: CardView| !holds(picked, card.project_id))
}

/// The header over what a search found.
pub fn results_header(selection: &Selection) -> (r: &'static str)
    ensures
        r@ == if selection@.len() == 0 {
            "Search results"@
        } else {
            "Search results (unchecked items)"@
        },
{
    if selection.is_empty() {
        "Search results"
    } else {
        "Search results (unchecked items)"
    }
}

/// What a kind of content is called where some of it is installed.
pub open spec fn content_noun(kind: DiscoveryKind) -> Seq<char> {
    match kind {
        DiscoveryKind::Mods => "mod"@,
        DiscoveryKind::Shaders => "shaderpack"@,
    }
}

/// What is said where nothing is picked.
pub open spec fn nothing_text(kind: DiscoveryKind) -> Seq<char> {
    match kind {
        DiscoveryKind::Mods => "Select one or more mods to install"@,
        DiscoveryKind::Shaders => "Select one or more shaderpacks to install"@,
    }
}

/// What is said where nothing is picked.
pub fn nothing_selected(kind: DiscoveryKind) -> (r: &'static str)
    ensures
        r@ == nothing_text(kind),
{
    match kind {
        DiscoveryKind::Mods => "Select one or more mods to install",
        DiscoveryKind::Shaders => "Select one or more shaderpacks to install",
    }
}

/// What is said about a project that was not installed.
pub open spec fn failure_text(
    kind: DiscoveryKind,
    title: Seq<char>,
    error: Seq<char>,
) -> Seq<char> {
    "Failed to install "@ + discovery::kind_facet(kind) + " '"@ + title + "': "@ + error
}

/// What is said about a project that was not installed.
pub fn install_failure(kind: DiscoveryKind, title: &str, error: &str) -> (r: String)
    ensures
        r@ == failure_text(kind, title@, error@),
{
    let mut message = concat5(
        "Failed to install ",
        kind.project_type_facet(),
        " '",
        title,
        "': ",
    );
    message.append(error);
    message
}

/// What is said when all picked projects were tried.
pub open spec fn summary_text(
    kind: DiscoveryKind,
    installed: nat,
    profile_name: Seq<char>,
) -> Seq<char> {
    "Installed "@ + text::decimal(installed) + " "@ + content_noun(kind) + "(s) for '"@
        + profile_name + "'"@
}

/// What is said when all picked projects were tried.
pub fn install_summary(kind: DiscoveryKind, installed: usize, profile_name: &str) -> (r: String)
    ensures
        r@ == summary_text(kind, installed as nat, profile_name@),
{
    let count = decimal_text(installed as u128);
    let noun = match kind {
        DiscoveryKind::Mods => "mod",
        DiscoveryKind::Shaders => "shaderpack",
    };
    let mut message = concat5("Installed ", count.as_str(), " ", noun, "(s) for '");
    message.append(profile_name);
    message.append("'");
    message
}

/// The installation of picked projects into a profile, one after the other.
#[derive(Debug)]
pub struct InstallRun {
    kind: DiscoveryKind,
    profile_name: String,
    projects: Vec<DiscoveryCardData>,
    tried: usize,
    installed: usize,
}

/// An installation of picked projects, as plain values.
#[verifier::ext_equal]
pub struct InstallView {
    pub kind: DiscoveryKind,
    pub profile_name: Seq<char>,
    pub projects: Seq<CardView>,
    pub tried: nat,
    pub installed: nat,
}

impl View for InstallRun {
    type V = InstallView;

    closed spec fn view(&self) -> InstallView {
        InstallView {
            kind: self.kind,
            profile_name: self.profile_name@,
            projects: discovery::card_views(self.projects@),
            tried: self.tried as nat,
            installed: self.installed as nat,
        }
    }
}

/// How the installation of a project went: where its file is, or what went wrong.
pub open spec fn outcome_view(outcome: Result<String, String>) -> Result<Seq<char>, Seq<char>> {
    match outcome {
        Ok(target) => Ok(target@),
        Err(error) => Err(error@),
    }
}

/// What is reported of one project.
pub open spec fn project_event(
    kind: DiscoveryKind,
    project: CardView,
    outcome: Result<Seq<char>, Seq<char>>,
) -> EventView {
    match outcome {
        Ok(target_path) => EventView::InstallFinished { kind, title: project.title, target_path },
        Err(error) => EventView::ActionFailed {
            kind,
            error: failure_text(kind, project.title, error),
        },
    }
}

/// What is reported when all projects were tried.
pub open spec fn closing_events(v: InstallView) -> Seq<EventView> {
    seq![
        EventView::StatusUpdate(summary_text(v.kind, v.installed, v.profile_name)),
        EventView::InstalledChanged(v.kind),
    ]
}

/// What follows the installation of the current project.
pub open spec fn install_step(v: InstallView, outcome: Result<Seq<char>, Seq<char>>) -> (
    InstallView,
    Seq<EventView>,
) {
    if v.tried >= v.projects.len() {
        (v, seq![])
    } else {
        let event = project_event(v.kind, v.projects[v.tried as int], outcome);
        let after = InstallView {
            tried: v.tried + 1,
            installed: if outcome is Ok {
                v.installed + 1
            } else {
                v.installed
            },
            ..v
        };
        if after.tried == after.projects.len() {
            (after, seq![event] + closing_events(after))
        } else {
            (after, seq![event])
        }
    }
}

impl InstallRun {
    /// Whether no more projects are counted as installed than were tried.
    pub closed spec fn wf(&self) -> bool {
        self.installed <= self.tried <= self.projects@.len()
    }

    /// Begins the installation of the picked projects into the profile of this name.
    /// It takes a project and a profile.
    pub fn start(
        kind: DiscoveryKind,
        projects: Vec<DiscoveryCardData>,
        profile_name: Option<String>,
    ) -> (r: Result<InstallRun, AppEvent>)
        ensures
            if projects@.len() == 0 {
                r matches Err(event) && event@ == (EventView::ActionFailed {
                    kind,
                    error: nothing_text(kind),
                })
            } else {
                match profile_name {
                    None => r matches Err(event) && event@ == (EventView::ActionFailed {
                        kind,
                        error: "Select a valid profile in Profile Editor"@,
                    }),
                    Some(name) => r matches Ok(run) && run.wf() && run@ == (InstallView {
                        kind,
                        profile_name: name@,
                        projects: discovery::card_views(projects@),
                        tried: 0,
                        installed: 0,
                    }),
                }
            },
    {
        if projects.len() == 0 {
            return Err(AppEvent::discovery_failed(kind, nothing_selected(kind).to_owned()));
        }
        match profile_name {
            None => Err(
                AppEvent::discovery_failed(
                    kind,
                    "Select a valid profile in Profile Editor".to_owned(),
                ),
            ),
            Some(profile_name) => Ok(
                InstallRun { kind, profile_name, projects, tried: 0, installed: 0 },
            ),
        }
    }

    /// The project that is installed next; none when all were tried.
    pub fn current(&self) -> (r: Option<&DiscoveryCardData>)
        requires
            self.wf(),
        ensures
            if self@.tried < self@.projects.len() {
                r matches Some(project) && project@ == self@.projects[self@.tried as int]
            } else {
                r is None
            },
    {
        assert(self@.projects.len() == self.projects@.len());
        if self.tried < self.projects.len() {
            Some(&self.projects[self.tried])
        } else {
            None
        }
    }

    /// Takes in how the installation of the current project went.
    pub fn step(&mut self, outcome: Result<String, String>) -> (r: Vec<AppEvent>)
        requires
            old(self).wf(),
        ensures
            final(self).wf(),
            (final(self)@, messages::event_views(r@)) == install_step(
                old(self)@,
                outcome_view(outcome),
            ),
    {
        let ghost before = self@;
        let ghost went = outcome_view(outcome);
        let mut events: Vec<AppEvent> = Vec::new();
        assert(before.projects.len() == self.projects@.len());
        if self.tried >= self.projects.len() {
            assert(messages::event_views(events@) =~= install_step(before, went).1);
            return events;
        }
        let project = &self.projects[self.tried];
        assert(project@ == before.projects[before.tried as int]);
        match outcome {
            Ok(target) => {
                events.push(
                    AppEvent::discovery_install_finished(self.kind, project.title.clone(), target),
                );
                self.installed = self.installed + 1;
            },
            Err(error) => {
                let message = install_failure(self.kind, project.title.as_str(), error.as_str());
                events.push(AppEvent::discovery_failed(self.kind, message));
            },
        }
        self.tried = self.tried + 1;
        if self.tried == self.projects.len() {
            let summary = install_summary(self.kind, self.installed, self.profile_name.as_str());
            events.push(AppEvent::StatusUpdate(summary));
            events.push(AppEvent::discovery_installed_changed(self.kind));
        }
        assert(messages::event_views(events@) =~= install_step(before, went).1);
        events
    }
}

/// What is reported of projects that go as given, one after the other.
pub open spec fn installed_in_turn(
    v: InstallView,
    outcomes: Seq<Result<Seq<char>, Seq<char>>>,
) -> (InstallView, Seq<EventView>)
    decreases outcomes.len(),
{
    if outcomes.len() == 0 {
        (v, seq![])
    } else {
        let (earlier, reported) = installed_in_turn(v, outcomes.drop_last());
        let (after, events) = install_step(earlier, outcomes.last());
        (after, reported + events)
    }
}

/// How many of the installations went well.
pub open spec fn successes(outcomes: Seq<Result<Seq<char>, Seq<char>>>) -> nat {
    outcomes.filter(|outcome: Result<Seq<char>, Seq<char>>| outcome is Ok).len()
}

/// Every picked project is tried and reported in turn, whether or not another one
/// failed. After the last one the number that went well is reported.
pub proof fn law_every_project_is_reported(
    v: InstallView,
    outcomes: Seq<Result<Seq<char>, Seq<char>>>,
)
    requires
        v.tried == 0,
        v.installed == 0,
        0 < v.projects.len(),
        outcomes.len() <= v.projects.len(),
    ensures
        installed_in_turn(v, outcomes).0 == (InstallView {
            tried: outcomes.len(),
            installed: successes(outcomes),
            ..v
        }),
        installed_in_turn(v, outcomes).1 == Seq::new(
            outcomes.len(),
            |i: int| project_event(v.kind, v.projects[i], outcomes[i]),
        ) + if outcomes.len() == v.projects.len() {
            seq![
                EventView::StatusUpdate(
                    summary_text(v.kind, successes(outcomes), v.profile_name),
                ),
                EventView::InstalledChanged(v.kind),
            ]
        } else {
            seq![]
        },
    decreases outcomes.len(),
{
    reveal(Seq::filter);
    if outcomes.len() > 0 {
        let fewer = outcomes.drop_last();
        law_every_project_is_reported(v, fewer);
        assert(installed_in_turn(v, outcomes).0 =~= (InstallView {
            tried: outcomes.len(),
            installed: successes(outcomes),
            ..v
        }));
    }
}

/// Picking and dropping: a picked project is there once, with the card that was
/// picked last, and a dropped one is not there. Other projects stay.
pub proof fn law_selection_is_a_set(cards: Seq<CardView>, card: CardView, other: Seq<char>)
    requires
        projects_distinct(cards),
    ensures
        projects_distinct(with_card(cards, card)),
        with_card(cards, card).contains(card),
        !holds(without_card(cards, card.project_id), card.project_id),
        other != card.project_id ==> holds(with_card(cards, card), other) == holds(cards, other),
        other != card.project_id ==> holds(without_card(cards, card.project_id), other) == holds(
            cards,
            other,
        ),
{
    lemma_position(cards, card.project_id, cards.len() as int);
    let with = with_card(cards, card);
    let without = without_card(cards, card.project_id);
    match position_of(cards, card.project_id, cards.len() as int) {
        Some(at) => {
            assert(with[at] == card);
            assert forall|i: int| 0 <= i < without.len() implies (
            #[trigger] without[i]).project_id != card.project_id by {
                let a = if i < at {
                    i
                } else {
                    i + 1
                };
                assert(without[i] == cards[a]);
            }
            if holds(cards, other) && other != card.project_id {
                let i = choose|i: int|
                    0 <= i < cards.len() && (#[trigger] cards[i]).project_id == other;
                assert(with[i] == cards[i]);
                if i < at {
                    assert(without[i] == cards[i]);
                } else {
                    assert(without[i - 1] == cards[i]);
                }
            }
            if holds(with, other) && other != card.project_id {
                let i = choose|i: int|
                    0 <= i < with.len() && (#[trigger] with[i]).project_id == other;
                assert(with[i] == cards[i]);
            }
            if holds(without, other) {
                let i = choose|i: int|
                    0 <= i < without.len() && (#[trigger] without[i]).project_id == other;
                let a = if i < at {
                    i
                } else {
                    i + 1
                };
                assert(without[i] == cards[a]);
            }
        },
        None => {
            assert(with[cards.len() as int] == card);
            if holds(cards, other) {
                let i = choose|i: int|
                    0 <= i < cards.len() && (#[trigger] cards[i]).project_id == other;
                assert(with[i] == cards[i]);
            }
            if holds(with, other) && other != card.project_id {
                let i = choose|i: int|
                    0 <= i < with.len() && (#[trigger] with[i]).project_id == other;
                assert(with[i] == cards[i]);
            }
        },
    }
}

/// A project that is picked for the first time comes last; picked again, its card is
/// replaced where it stands. A dropped project leaves the others in their order.
pub proof fn law_picked_projects_keep_their_places(cards: Seq<CardView>, card: CardView, at: int)
    requires
        projects_distinct(cards),
    ensures
        !holds(cards, card.project_id) ==> with_card(cards, card) == cards.push(card),
        !holds(cards, card.project_id) ==> without_card(cards, card.project_id) == cards,
        0 <= at < cards.len() && cards[at].project_id == card.project_id ==> with_card(cards, card)
            == cards.update(at, card),
        0 <= at < cards.len() && cards[at].project_id == card.project_id ==> without_card(
            cards,
            card.project_id,
        ) == cards.remove(at),
        holds(cards, card.project_id) <==> exists|i: int|
            0 <= i < cards.len() && (#[trigger] cards[i]).project_id == card.project_id,
{
    lemma_position(cards, card.project_id, cards.len() as int);
    if let Some(found) = position_of(cards, card.project_id, cards.len() as int) {
        assert(cards[found].project_id == card.project_id);
        if 0 <= at < cards.len() && cards[at].project_id == card.project_id {
            if at < found {
                assert(cards[at].project_id != cards[found].project_id);
            }
            if found < at {
                assert(cards[found].project_id != cards[at].project_id);
            }
        }
    }
}

/// Picked cards are all shown, each once, sorted by title without regard to case.
pub proof fn law_picked_cards_are_shown_in_order(cards: Seq<CardView>)
    ensures
        exists|order: Seq<int>|
            #![trigger order.len()]
            {
                &&& order.len() == cards.len() == shown_order(cards).len()
                &&& order.no_duplicates()
                &&& forall|k: int| 0 <= k < cards.len() ==> 0 <= #[trigger] order[k] < cards.len()
                &&& forall|k: int|
                    0 <= k < cards.len() ==> #[trigger] shown_order(cards)[k] == cards[order[k]]
                &&& forall|j: int, k: int|
                    0 <= j < k < cards.len() ==> sorting::not_after(
                        sorting::lowercased((#[trigger] shown_order(cards)[j]).title),
                        sorting::lowercased((#[trigger] shown_order(cards)[k]).title),
                    )
            },
{
    let titles = cards.map_values(|card: CardView| card.title);
    let order = sorting::order_of(titles);
    sorting::law_order_is_sorted(titles);
    assert forall|k: int| 0 <= k < cards.len() implies #[trigger] shown_order(cards)[k]
        == cards[order[k]] && titles[order[k]] == cards[order[k]].title by {
        assert(0 <= order[k] < cards.len());
    }
    assert forall|j: int, k: int| 0 <= j < k < cards.len() implies sorting::not_after(
        sorting::lowercased((#[trigger] shown_order(cards)[j]).title),
        sorting::lowercased((#[trigger] shown_order(cards)[k]).title),
    ) by {
        assert(sorting::not_after(
            sorting::lowercased(titles[order[j]]),
            sorting::lowercased(titles[order[k]]),
        ));
    }
    assert(order.len() == cards.len());
}

/// What was found is shown in its order, but for the projects that are picked.
pub proof fn law_picked_projects_are_not_offered(
    picked: Seq<CardView>,
    found: Seq<CardView>,
    card: CardView,
)
    ensures
        not_picked(picked, Seq::empty()).len() == 0,
        holds(picked, card.project_id) ==> not_picked(picked, found.push(card)) == not_picked(
            picked,
            found,
        ),
        !holds(picked, card.project_id) ==> not_picked(picked, found.push(card)) == not_picked(
            picked,
            found,
        ).push(card),
{
    reveal(Seq::filter);
    assert(found.push(card).drop_last() =~= found);
}

/// How the installation of a project is told: where its file is, or that it failed, by
/// its title and with the reason.
pub proof fn law_every_outcome_is_told(
    kind: DiscoveryKind,
    project: CardView,
    target: Seq<char>,
    error: Seq<char>,
)
    ensures
        project_event(kind, project, Ok(target)) == (EventView::InstallFinished {
            kind,
            title: project.title,
            target_path: target,
        }),
        kind == DiscoveryKind::Mods ==> project_event(kind, project, Err(error)) == (
        EventView::ActionFailed {
            kind,
            error: "Failed to install mod '"@ + project.title + "': "@ + error,
        }),
        kind == DiscoveryKind::Shaders ==> project_event(kind, project, Err(error)) == (
        EventView::ActionFailed {
            kind,
            error: "Failed to install shader '"@ + project.title + "': "@ + error,
        }),
{
    reveal_strlit("Failed to install ");
    reveal_strlit("mod");
    reveal_strlit("shader");
    reveal_strlit(" '");
    reveal_strlit("Failed to install mod '");
    reveal_strlit("Failed to install shader '");
    let mods = failure_text(DiscoveryKind::Mods, project.title, error);
    assert(mods =~= "Failed to install mod '"@ + project.title + "': "@ + error);
    let shaders = failure_text(DiscoveryKind::Shaders, project.title, error);
    assert(shaders =~= "Failed to install shader '"@ + project.title + "': "@ + error);
}

/// What is said at the end: how many were installed, of what, and into which profile.
pub proof fn law_summary_counts_what_was_installed(installed: nat, profile_name: Seq<char>)
    ensures
        summary_text(DiscoveryKind::Mods, installed, profile_name) == "Installed "@ + text::decimal(
            installed,
        ) + " mod(s) for '"@ + profile_name + seq!['\''],
        summary_text(DiscoveryKind::Shaders, installed, profile_name) == "Installed "@
            + text::decimal(installed) + " shaderpack(s) for '"@ + profile_name + seq!['\''],
        nothing_text(DiscoveryKind::Mods) == "Select one or more mods to install"@,
        nothing_text(DiscoveryKind::Shaders) == "Select one or more shaderpacks to install"@,
{
    reveal_strlit(" ");
    reveal_strlit("mod");
    reveal_strlit("shaderpack");
    reveal_strlit("(s) for '");
    reveal_strlit(" mod(s) for '");
    reveal_strlit(" shaderpack(s) for '");
    reveal_strlit("'");
    assert(summary_text(DiscoveryKind::Mods, installed, profile_name) =~= "Installed "@
        + text::decimal(installed) + " mod(s) for '"@ + profile_name + seq!['\'']);
    assert(summary_text(DiscoveryKind::Shaders, installed, profile_name) =~= "Installed "@
        + text::decimal(installed) + " shaderpack(s) for '"@ + profile_name + seq!['\'']);
}

/// One project after the other is tried: each outcome is told and counted, and after
/// the last one the summary follows, and that the installed content changed.
pub proof fn law_installation_counts_each_project(
    v: InstallView,
    outcome: Result<Seq<char>, Seq<char>>,
)
    requires
        v.tried < v.projects.len(),
    ensures
        ({
            let (after, events) = install_step(v, outcome);
            &&& after.tried == v.tried + 1
            &&& outcome is Ok ==> after.installed == v.installed + 1
            &&& outcome is Err ==> after.installed == v.installed
            &&& after.kind == v.kind && after.projects == v.projects && after.profile_name
                == v.profile_name
            &&& events[0] == project_event(v.kind, v.projects[v.tried as int], outcome)
            &&& v.tried + 1 < v.projects.len() ==> events.len() == 1
            &&& v.tried + 1 == v.projects.len() ==> events.len() == 3 && events[1]
                == EventView::StatusUpdate(
                summary_text(v.kind, after.installed, v.profile_name),
            ) && events[2] == EventView::InstalledChanged(v.kind)
        }),
{
}

} // verus!
