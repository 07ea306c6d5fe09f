//! Content that can be added to a profile.

use vstd::prelude::*;

verus! {

/// A kind of content.
#[derive(Debug, Clone, Copy, PartialEq, Eq, Structural)]
pub enum DiscoveryKind {
    /// Mods.
    Mods,
    /// Shader packs.
    Shaders,
}

/// The name of a kind of content.
pub open spec fn kind_label(kind: DiscoveryKind) -> Seq<char> {
    match kind {
        DiscoveryKind::Mods => "Mods"@,
        DiscoveryKind::Shaders => "Shaders"@,
    }
}

/// The project type that a kind of content has at the content service.
pub open spec fn kind_facet(kind: DiscoveryKind) -> Seq<char> {
    match kind {
        DiscoveryKind::Mods => "mod"@,
        DiscoveryKind::Shaders => "shader"@,
    }
}

/// The directory of a profile that a kind of content lies in.
pub open spec fn kind_directory(kind: DiscoveryKind) -> Seq<char> {
    match kind {
        DiscoveryKind::Mods => "mods"@,
        DiscoveryKind::Shaders => "shaderpacks"@,
    }
}

impl DiscoveryKind {
    /// The name that is shown.
    pub fn label(self) -> (r: &'static str)
        ensures
            r@ == kind_label(self),
    {
        match self {
            DiscoveryKind::Mods => "Mods",
            DiscoveryKind::Shaders => "Shaders",
        }
    }

    /// The project type at the content service.
    pub fn project_type_facet(self) -> (r: &'static str)
        ensures
            r@ == kind_facet(self),
    {
        match self {
            DiscoveryKind::Mods => "mod",
            DiscoveryKind::Shaders => "shader",
        }
    }

    /// The directory of a profile that the content lies in.
    pub fn install_subdir(self) -> (r: &'static str)
        ensures
            r@ == kind_directory(self),
    {
        match self {
            DiscoveryKind::Mods => "mods",
            DiscoveryKind::Shaders => "shaderpacks",
        }
    }
}

/// A project that a search found.
#[derive(Debug, Clone, PartialEq, Eq)]
pub struct DiscoveryCardData {
    /// The project.
    pub project_id: String,
    /// Its title.
    pub title: String,
    /// What it is about.
    pub description: String,
}

/// A found project as plain values.
pub struct CardView {
    pub project_id: Seq<char>,
    pub title: Seq<char>,
    pub description: Seq<char>,
}

impl View for DiscoveryCardData {
    type V = CardView;

    open spec fn view(&self) -> CardView {
        CardView {
            project_id: self.project_id@,
            title: self.title@,
            description: self.description@,
        }
    }
}

/// Found projects as plain values.
pub open spec fn card_views(cards: Seq<DiscoveryCardData>) -> Seq<CardView> {
    cards.map_values(|card: DiscoveryCardData| card@)
}

/// Mods and shader packs are asked for by their own types and lie in directories of
/// their own: where the game looks for them.
pub proof fn law_kinds_of_content(kind: DiscoveryKind)
    ensures
        kind == DiscoveryKind::Mods ==> kind_facet(kind) == "mod"@ && kind_directory(kind)
            == "mods"@ && kind_label(kind) == "Mods"@,
        kind == DiscoveryKind::Shaders ==> kind_facet(kind) == "shader"@ && kind_directory(kind)
            == "shaderpacks"@ && kind_label(kind) == "Shaders"@,
{
}

} // verus!
