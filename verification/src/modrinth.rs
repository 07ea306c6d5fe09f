//! The content service: what is asked of it, and what is chosen among its
//! answers.

use vstd::prelude::*;
use vstd::string::*;

use crate::address;
use crate::address::{append_pair, parse_url, MAX_ADDRESS};
use crate::content;
use crate::content::sanitize_component_for_path;
use crate::discovery;
use crate::discovery::{DiscoveryCardData, DiscoveryKind};
use crate::json;
use crate::json::write_json_list;
use crate::path;
use crate::path::{is_same_path, join_path, parent};
use crate::profile;
use crate::profile::{LauncherProfile, ProfileLoader};
use crate::text;
use crate::text::{concat2, concat3, concat5, equal_ignoring_ascii_case, lists_text};

verus! {

/// A file of a version.
#[derive(Debug, Clone, PartialEq, Eq)]
pub struct ModrinthVersionFile {
    /// Where it is downloaded from.
    pub url: String,
    /// Its name.
    pub filename: String,
    /// Whether it is the main file of the version.
    pub primary: Option<bool>,
}

/// A version of a project.
#[derive(Debug, Clone, PartialEq, Eq)]
pub struct ModrinthVersion {
    /// The project.
    pub project_id: Option<String>,
    /// The game versions that it is made for.
    pub game_versions: Vec<String>,
    /// The loaders that it is made for.
    pub loaders: Vec<String>,
    /// Its files.
    pub files: Vec<ModrinthVersionFile>,
}

/// A project that a search found.
#[derive(Debug, Clone, PartialEq, Eq)]
pub struct ModrinthSearchHit {
    /// The project.
    pub project_id: String,
    /// Its title.
    pub title: String,
    /// What it is about.
    pub description: Option<String>,
}

/// The name that a loader has at the service.
pub open spec fn loader_slug(loader: ProfileLoader) -> Option<Seq<char>> {
    match loader {
        ProfileLoader::Vanilla => None,
        ProfileLoader::Fabric => Some("fabric"@),
        ProfileLoader::Quilt => Some("quilt"@),
        ProfileLoader::Forge => Some("forge"@),
        ProfileLoader::NeoForge => Some("neoforge"@),
    }
}

/// The name of the profile's loader at the service.
pub fn profile_loader_to_modrinth_loader(profile: &LauncherProfile) -> (r: Option<&'static str>)
    ensures
        text::opt_str(r) == loader_slug(profile.loader),
{
    match profile.loader {
        ProfileLoader::Vanilla => None,
        ProfileLoader::Fabric => Some("fabric"),
        ProfileLoader::Quilt => Some("quilt"),
        ProfileLoader::Forge => Some("forge"),
        ProfileLoader::NeoForge => Some("neoforge"),
    }
}

/// The loaders whose mods a loader can load.
pub open spec fn usable_loaders(loader: ProfileLoader) -> Seq<Seq<char>> {
    match loader {
        ProfileLoader::Vanilla => seq![],
        ProfileLoader::Fabric => seq!["fabric"@],
        ProfileLoader::Quilt => seq!["quilt"@, "fabric"@],
        ProfileLoader::Forge => seq!["forge"@],
        ProfileLoader::NeoForge => seq!["neoforge"@, "forge"@],
    }
}

/// The loaders whose mods the profile's loader can load.
pub fn profile_loader_modrinth_loaders(profile: &LauncherProfile) -> (r: Vec<String>)
    ensures
        text::texts(r@) == usable_loaders(profile.loader),
{
    let mut loaders: Vec<String> = Vec::new();
    match profile.loader {
        ProfileLoader::Vanilla => {},
        ProfileLoader::Fabric => {
            loaders.push("fabric".to_owned());
        },
        ProfileLoader::Quilt => {
            loaders.push("quilt".to_owned());
            loaders.push("fabric".to_owned());
        },
        ProfileLoader::Forge => {
            loaders.push("forge".to_owned());
        },
        ProfileLoader::NeoForge => {
            loaders.push("neoforge".to_owned());
            loaders.push("forge".to_owned());
        },
    }
    assert(text::texts(loaders@) =~= usable_loaders(profile.loader));
    loaders
}

/// Whether a list names a loader, in any case.
pub open spec fn names_loader(loaders: Seq<Seq<char>>, loader: Seq<char>) -> bool {
    exists|i: int|
        0 <= i < loaders.len() && text::same_ignoring_ascii_case(#[trigger] loaders[i], loader)
}

fn lists_loader(loaders: &Vec<String>, loader: &str) -> (r: bool)
    ensures
        r == names_loader(text::texts(loaders@), loader@),
{
    let ghost all = text::texts(loaders@);
    let mut i: usize = 0;
    while i < loaders.len()
        invariant
            i <= loaders@.len(),
            all == text::texts(loaders@),
            forall|j: int|
                0 <= j < i ==> !text::same_ignoring_ascii_case(#[trigger] all[j], loader@),
        decreases loaders@.len() - i,
    {
        assert(all[i as int] == loaders@[i as int]@);
        if equal_ignoring_ascii_case(loaders[i].as_str(), loader) {
            return true;
        }
        i = i + 1;
    }
    false
}

/// Whether a version is made for a profile's game version.
pub open spec fn fits_game(version: ModrinthVersion, profile: LauncherProfile) -> bool {
    text::texts(version.game_versions@).contains(profile.version_id@)
}

/// Whether a version works in a profile: it is made for the game version, and
/// for a loader whose mods the profile's loader can load.
pub open spec fn is_compatible(version: ModrinthVersion, profile: LauncherProfile) -> bool {
    fits_game(version, profile) && exists|i: int|
        0 <= i < usable_loaders(profile.loader).len() && names_loader(
            text::texts(version.loaders@),
            #[trigger] usable_loaders(profile.loader)[i],
        )
}

/// Whether the version works in the profile.
pub fn is_modrinth_version_compatible(version: &ModrinthVersion, profile: &LauncherProfile) -> (r:
    bool)
    ensures
        r == is_compatible(*version, *profile),
{
    if !lists_text(&version.game_versions, profile.version_id.as_str()) {
        return false;
    }
    let required = profile_loader_modrinth_loaders(profile);
    let ghost usable = usable_loaders(profile.loader);
    let mut i: usize = 0;
    while i < required.len()
        invariant
            i <= required@.len(),
            fits_game(*version, *profile),
            usable == usable_loaders(profile.loader),
            text::texts(required@) == usable,
            forall|j: int|
                0 <= j < i ==> !names_loader(text::texts(version.loaders@), #[trigger] usable[j]),
        decreases required@.len() - i,
    {
        assert(usable[i as int] == required@[i as int]@);
        if lists_loader(&version.loaders, required[i].as_str()) {
            return true;
        }
        i = i + 1;
    }
    false
}

/// The position of the first version, at or after `from`, that works in a
/// profile and has a file.
pub open spec fn first_compatible(
    versions: Seq<ModrinthVersion>,
    profile: LauncherProfile,
    from: int,
) -> Option<int>
    decreases versions.len() - from,
{
    if from >= versions.len() {
        None
    } else if is_compatible(versions[from], profile) && versions[from].files@.len() > 0 {
        Some(from)
    } else {
        first_compatible(versions, profile, from + 1)
    }
}

/// The position of the first version that works in the profile and has a file.
pub fn find_compatible_version(versions: &Vec<ModrinthVersion>, profile: &LauncherProfile) -> (r:
    Option<usize>)
    ensures
        match first_compatible(versions@, *profile, 0) {
            Some(at) => r matches Some(found) && found == at && found < versions@.len(),
            None => r is None,
        },
{
    let mut i: usize = 0;
    while i < versions.len()
        invariant
            i <= versions@.len(),
            first_compatible(versions@, *profile, 0) == first_compatible(
                versions@,
                *profile,
                i as int,
            ),
        decreases versions@.len() - i,
    {
        if is_modrinth_version_compatible(&versions[i], profile) && versions[i].files.len() > 0 {
            return Some(i);
        }
        i = i + 1;
    }
    None
}

/// Whether a version can be installed: it is made for the game version, and a
/// mod also for the profile's own loader.
pub open spec fn is_installable(
    version: ModrinthVersion,
    kind: DiscoveryKind,
    profile: LauncherProfile,
) -> bool {
    fits_game(version, profile) && match (kind, loader_slug(profile.loader)) {
        (DiscoveryKind::Mods, Some(loader)) => names_loader(text::texts(version.loaders@), loader),
        _ => true,
    }
}

/// The position of the first version, at or after `from`, that can be installed.
pub open spec fn first_installable(
    versions: Seq<ModrinthVersion>,
    kind: DiscoveryKind,
    profile: LauncherProfile,
    from: int,
) -> Option<int>
    decreases versions.len() - from,
{
    if from >= versions.len() {
        None
    } else if is_installable(versions[from], kind, profile) {
        Some(from)
    } else {
        first_installable(versions, kind, profile, from + 1)
    }
}

fn find_installable(
    versions: &Vec<ModrinthVersion>,
    kind: DiscoveryKind,
    profile: &LauncherProfile,
) -> (r: Option<usize>)
    ensures
        match first_installable(versions@, kind, *profile, 0) {
            Some(at) => r matches Some(found) && found == at && found < versions@.len(),
            None => r is None,
        },
{
    let loader = profile_loader_to_modrinth_loader(profile);
    let mut i: usize = 0;
    while i < versions.len()
        invariant
            i <= versions@.len(),
            text::opt_str(loader) == loader_slug(profile.loader),
            first_installable(versions@, kind, *profile, 0) == first_installable(
                versions@,
                kind,
                *profile,
                i as int,
            ),
        decreases versions@.len() - i,
    {
        let fits = lists_text(&versions[i].game_versions, profile.version_id.as_str());
        let loads = match (kind, loader) {
            (DiscoveryKind::Mods, Some(slug)) => lists_loader(&versions[i].loaders, slug),
            _ => true,
        };
        if fits && loads {
            return Some(i);
        }
        i = i + 1;
    }
    None
}

/// The position of the first file, at or after `from`, that is marked as the
/// main one.
pub open spec fn first_primary(files: Seq<ModrinthVersionFile>, from: int) -> Option<int>
    decreases files.len() - from,
{
    if from >= files.len() {
        None
    } else if files[from].primary == Some(true) {
        Some(from)
    } else {
        first_primary(files, from + 1)
    }
}

/// The file of a version that is downloaded: the first that is marked as the
/// main one, else the first.
pub open spec fn chosen_file(files: Seq<ModrinthVersionFile>) -> Option<int> {
    match first_primary(files, 0) {
        Some(at) => Some(at),
        None => if files.len() > 0 {
            Some(0)
        } else {
            None
        },
    }
}

fn choose_file(files: &Vec<ModrinthVersionFile>) -> (r: Option<usize>)
    ensures
        match chosen_file(files@) {
            Some(at) => r matches Some(found) && found == at && found < files@.len(),
            None => r is None,
        },
{
    let mut i: usize = 0;
    while i < files.len()
        invariant
            i <= files@.len(),
            first_primary(files@, 0) == first_primary(files@, i as int),
        decreases files@.len() - i,
    {
        if let Some(true) = files[i].primary {
            return Some(i);
        }
        i = i + 1;
    }
    if files.len() > 0 {
        Some(0)
    } else {
        None
    }
}

/// A text that is no address.
#[derive(Debug)]
pub enum AddressError {
    /// Why it is none.
    Invalid(url::ParseError),
}

/// The facet that restricts a search to a kind of content.
pub open spec fn search_facets(kind: DiscoveryKind) -> Seq<char> {
    "[[\"project_type:"@ + discovery::kind_facet(kind) + "\"]]"@
}

/// What a search asks for.
pub open spec fn search_request_view(kind: DiscoveryKind, query: Seq<char>) -> address::RequestView {
    address::RequestView {
        address: "https://api.modrinth.com/v2/search"@,
        pairs: seq![
            ("query"@, query),
            ("index"@, "relevance"@),
            ("limit"@, "24"@),
            ("facets"@, search_facets(kind)),
        ],
    }
}

proof fn lemma_search_address()
    ensures
        address::is_plain_address("https://api.modrinth.com/v2/search"@),
        "https://api.modrinth.com/v2/search"@.len() == 34,
{
    reveal_strlit("https://api.modrinth.com/v2/search");
    reveal_strlit("https://api.modrinth.com/");
    let whole = "https://api.modrinth.com/v2/search"@;
    let root = address::service_root();
    assert(whole.take(25) =~= root);
    assert(whole.skip(25) =~= seq!['v', '2', '/', 's', 'e', 'a', 'r', 'c', 'h']);
}

/// The address of a search.
pub fn search_url(kind: DiscoveryKind, query: &str) -> (r: Result<url::Url, AddressError>)
    ensures
        r matches Ok(url) && address::requested(url) == search_request_view(kind, query@),
{
    proof {
        lemma_search_address();
    }
    let facets = concat3("[[\"project_type:", kind.project_type_facet(), "\"]]");
    match parse_url("https://api.modrinth.com/v2/search") {
        Ok(url) => {
            let mut url = url;
            append_pair(&mut url, "query", query);
            append_pair(&mut url, "index", "relevance");
            append_pair(&mut url, "limit", "24");
            append_pair(&mut url, "facets", facets.as_str());
            assert(address::requested(url).pairs =~= search_request_view(kind, query@).pairs);
            Ok(url)
        },
        Err(error) => Err(AddressError::Invalid(error)),
    }
}

/// Why a search is refused.
#[derive(Debug)]
pub enum SearchError {
    /// Mods are searched for a profile, and there is none.
    NoProfile,
    /// The address cannot be built.
    Address(AddressError),
}

/// What a search for a profile asks for: nothing where the profile loads no mods.
pub open spec fn search_plan(
    kind: DiscoveryKind,
    query: Seq<char>,
    profile: Option<LauncherProfile>,
) -> Result<Option<address::RequestView>, ()> {
    match (kind, profile) {
        (DiscoveryKind::Mods, None) => Err(()),
        (DiscoveryKind::Mods, Some(profile)) => if profile.loader == ProfileLoader::Vanilla {
            Ok(None)
        } else {
            Ok(Some(search_request_view(kind, query)))
        },
        _ => Ok(Some(search_request_view(kind, query))),
    }
}

/// The address that a search for a profile asks; none if nothing can be found.
pub fn search_request(kind: DiscoveryKind, query: &str, profile: Option<&LauncherProfile>) -> (r:
    Result<Option<url::Url>, SearchError>)
    ensures
        match search_plan(
            kind,
            query@,
            match profile {
                Some(p) => Some(*p),
                None => None,
            },
        ) {
            Ok(Some(request)) => r matches Ok(Some(url)) && address::requested(url) == request,
            Ok(None) => r matches Ok(None),
            Err(_) => r matches Err(SearchError::NoProfile),
        },
{
    if let DiscoveryKind::Mods = kind {
        match profile {
            None => {
                return Err(SearchError::NoProfile);
            },
            Some(profile) => if let ProfileLoader::Vanilla = profile.loader {
                return Ok(None);
            },
        }
    }
    match search_url(kind, query) {
        Ok(url) => Ok(Some(url)),
        Err(error) => Err(SearchError::Address(error)),
    }
}

/// What a hit is shown as.
pub open spec fn card_of(hit: ModrinthSearchHit) -> discovery::CardView {
    discovery::CardView {
        project_id: hit.project_id@,
        title: hit.title@,
        description: match hit.description {
            Some(description) => description@,
            None => "No description available."@,
        },
    }
}

/// The cards of the projects that a search found.
pub fn search_results(hits: Vec<ModrinthSearchHit>) -> (r: Vec<DiscoveryCardData>)
    ensures
        discovery::card_views(r@) == hits@.map_values(|hit: ModrinthSearchHit| card_of(hit)),
{
    let mut cards: Vec<DiscoveryCardData> = Vec::new();
    let ghost all = hits@.map_values(|hit: ModrinthSearchHit| card_of(hit));
    let mut i: usize = 0;
    while i < hits.len()
        invariant
            i <= hits@.len(),
            all == hits@.map_values(|hit: ModrinthSearchHit| card_of(hit)),
            discovery::card_views(cards@) == all.take(i as int),
        decreases hits@.len() - i,
    {
        let hit = &hits[i];
        let card = DiscoveryCardData {
            project_id: hit.project_id.clone(),
            title: hit.title.clone(),
            description: match &hit.description {
                Some(description) => description.clone(),
                None => "No description available.".to_owned(),
            },
        };
        let ghost before = cards@;
        let ghost shown = card;
        cards.push(card);
        assert(discovery::card_views(cards@) =~= discovery::card_views(before).push(shown@));
        assert(all.take(i + 1) =~= all.take(i as int).push(all[i as int]));
        i = i + 1;
    }
    assert(discovery::card_views(cards@) =~= all);
    cards
}

/// The first `n` cards for which a compatible version was found.
pub open spec fn compatible_cards(
    cards: Seq<DiscoveryCardData>,
    compatible: Seq<bool>,
    n: int,
) -> Seq<DiscoveryCardData>
    decreases n,
{
    if n <= 0 {
        Seq::empty()
    } else if compatible[n - 1] {
        compatible_cards(cards, compatible, n - 1).push(cards[n - 1])
    } else {
        compatible_cards(cards, compatible, n - 1)
    }
}

/// The cards for which a compatible version was found; `compatible` says so for
/// each of them.
pub fn keep_compatible(cards: Vec<DiscoveryCardData>, compatible: &Vec<bool>) -> (r: Vec<
    DiscoveryCardData,
>)
    requires
        cards@.len() == compatible@.len(),
    ensures
        discovery::card_views(r@) == discovery::card_views(
            compatible_cards(cards@, compatible@, cards@.len() as int),
        ),
{
    let mut kept: Vec<DiscoveryCardData> = Vec::new();
    let mut i: usize = 0;
    while i < cards.len()
        invariant
            i <= cards@.len(),
            cards@.len() == compatible@.len(),
            discovery::card_views(kept@) =~= discovery::card_views(
                compatible_cards(cards@, compatible@, i as int),
            ),
        decreases cards@.len() - i,
    {
        if compatible[i] {
            let card = &cards[i];
            let card = DiscoveryCardData {
                project_id: card.project_id.clone(),
                title: card.title.clone(),
                description: card.description.clone(),
            };
            let ghost before = kept@;
            let ghost shown = card;
            kept.push(card);
            assert(discovery::card_views(kept@) =~= discovery::card_views(before).push(shown@));
        }
        assert(discovery::card_views(kept@) =~= discovery::card_views(
            compatible_cards(cards@, compatible@, i + 1),
        ));
        i = i + 1;
    }
    kept
}

/// The text of the address that lists the versions of a project.
pub open spec fn project_versions_text(project_id: Seq<char>) -> Seq<char> {
    "https://api.modrinth.com/v2/project/"@ + project_id + "/version"@
}

/// The text of the address that looks a file up by its digest.
pub open spec fn version_file_text(hash: Seq<char>) -> Seq<char> {
    "https://api.modrinth.com/v2/version_file/"@ + hash
}

proof fn lemma_service_prefix(prefix: Seq<char>, rest: Seq<char>)
    requires
        text::opens_with(prefix, address::service_root()),
    ensures
        text::opens_with(prefix + rest, address::service_root()),
{
    let root = address::service_root();
    assert((prefix + rest).take(root.len() as int) =~= prefix.take(root.len() as int));
}

proof fn lemma_plain_suffix(source: Seq<char>, rest: Seq<char>)
    requires
        address::is_plain_address(source),
        address::all_plain_in_path(rest),
    ensures
        address::is_plain_address(source + rest),
{
    let root = address::service_root();
    lemma_service_prefix(source, rest);
    let tail = (source + rest).skip(root.len() as int);
    assert(tail =~= source.skip(root.len() as int) + rest);
    assert forall|i: int| 0 <= i < tail.len() implies address::is_plain_in_path(
        #[trigger] tail[i],
    ) by {
        let own = source.skip(root.len() as int);
        if i < own.len() {
            assert(tail[i] == own[i]);
        } else {
            assert(tail[i] == rest[i - own.len()]);
        }
    }
}

proof fn lemma_service_texts()
    ensures
        address::is_plain_address("https://api.modrinth.com/v2/project/"@),
        "https://api.modrinth.com/v2/project/"@.len() == 36,
        address::all_plain_in_path("/version"@),
        "/version"@.len() == 8,
        address::is_plain_address("https://api.modrinth.com/v2/version_file/"@),
        "https://api.modrinth.com/v2/version_file/"@.len() == 41,
        address::all_plain_in_path("/update"@),
        "/update"@.len() == 7,
{
    reveal_strlit("https://api.modrinth.com/");
    reveal_strlit("https://api.modrinth.com/v2/project/");
    reveal_strlit("https://api.modrinth.com/v2/version_file/");
    reveal_strlit("/version");
    reveal_strlit("/update");
    let root = address::service_root();
    let project = "https://api.modrinth.com/v2/project/"@;
    assert(project.take(25) =~= root);
    assert(project.skip(25) =~= seq!['v', '2', '/', 'p', 'r', 'o', 'j', 'e', 'c', 't', '/']);
    let file = "https://api.modrinth.com/v2/version_file/"@;
    assert(file.take(25) =~= root);
    assert(file.skip(25) =~= seq![
        'v',
        '2',
        '/',
        'v',
        'e',
        'r',
        's',
        'i',
        'o',
        'n',
        '_',
        'f',
        'i',
        'l',
        'e',
        '/',
    ]);
}

/// Whether there is an address that lists the versions of a project.
pub open spec fn has_versions_address(project_id: Seq<char>) -> bool {
    address::parsed_url(project_versions_text(project_id)) is Some
}

/// The address that lists the versions of a project.
pub fn project_versions_url(project_id: &str) -> (r: Result<url::Url, AddressError>)
    ensures
        r is Ok <==> has_versions_address(project_id@),
        r matches Ok(url) ==> address::requested(url) == address::request_for(
            project_versions_text(project_id@),
            seq![],
        ),
        project_id@.len() <= MAX_ADDRESS - 0x100 ==> r is Ok,
        address::all_plain_in_path(project_id@) ==> (r matches Ok(url) && address::requested(url)
            == (address::RequestView {
            address: project_versions_text(project_id@),
            pairs: seq![],
        })),
{
    let source = concat3("https://api.modrinth.com/v2/project/", project_id, "/version");
    proof {
        lemma_service_texts();
        lemma_service_prefix("https://api.modrinth.com/v2/project/"@, project_id@);
        lemma_service_prefix("https://api.modrinth.com/v2/project/"@ + project_id@, "/version"@);
        if address::all_plain_in_path(project_id@) {
            lemma_plain_suffix("https://api.modrinth.com/v2/project/"@, project_id@);
            lemma_plain_suffix("https://api.modrinth.com/v2/project/"@ + project_id@, "/version"@);
        }
    }
    match parse_url(source.as_str()) {
        Ok(url) => {
            assert(address::requested(url).pairs =~= address::request_for(
                project_versions_text(project_id@),
                seq![],
            ).pairs);
            Ok(url)
        },
        Err(error) => Err(AddressError::Invalid(error)),
    }
}

/// The address that looks a file up by its digest.
pub fn version_by_hash_url(hash: &str) -> (r: Result<url::Url, AddressError>)
    requires
        hash@.len() <= MAX_ADDRESS - 0x100,
    ensures
        r matches Ok(url) && address::requested(url) == address::request_for(
            version_file_text(hash@),
            seq![("algorithm"@, "sha1"@)],
        ),
        address::all_plain_in_path(hash@) ==> (r matches Ok(url) && address::requested(url)
            == (address::RequestView {
            address: version_file_text(hash@),
            pairs: seq![("algorithm"@, "sha1"@)],
        })),
{
    let source = concat2("https://api.modrinth.com/v2/version_file/", hash);
    proof {
        lemma_service_texts();
        lemma_service_prefix("https://api.modrinth.com/v2/version_file/"@, hash@);
        if address::all_plain_in_path(hash@) {
            lemma_plain_suffix("https://api.modrinth.com/v2/version_file/"@, hash@);
        }
    }
    match parse_url(source.as_str()) {
        Ok(url) => {
            let mut url = url;
            proof {
                reveal_strlit("algorithm");
                reveal_strlit("sha1");
            }
            append_pair(&mut url, "algorithm", "sha1");
            assert(address::requested(url).pairs =~= address::request_for(
                version_file_text(hash@),
                seq![("algorithm"@, "sha1"@)],
            ).pairs);
            Ok(url)
        },
        Err(error) => Err(AddressError::Invalid(error)),
    }
}

/// The pairs of the query for the update of a file.
pub open spec fn update_pairs(profile: LauncherProfile) -> Seq<(Seq<char>, Seq<char>)> {
    seq![
        ("algorithm"@, "sha1"@),
        ("loaders"@, json::json_list(usable_loaders(profile.loader))),
        ("game_versions"@, json::json_list(seq![profile.version_id@])),
    ]
}

/// The longest game version that is asked for behind a digest that is no plain
/// text. A fragment in the address has to begin within four gigabytes.
pub const MAX_VERSION: usize = 0x00c0_0000;

proof fn lemma_loader_lengths(loader: ProfileLoader)
    ensures
        usable_loaders(loader).len() <= 2,
        json::total_length(usable_loaders(loader)) <= 16,
{
    reveal_strlit("fabric");
    reveal_strlit("quilt");
    reveal_strlit("forge");
    reveal_strlit("neoforge");
    reveal_with_fuel(json::total_length, 3);
}

/// The address that looks up a version of a file's project that works in the
/// profile.
pub fn update_for_hash_url(hash: &str, profile: &LauncherProfile) -> (r: Result<
    url::Url,
    AddressError,
>)
    requires
        hash@.len() <= MAX_ADDRESS - 0x100,
        address::all_plain_in_path(hash@) || profile.version_id@.len() <= MAX_VERSION,
    ensures
        r matches Ok(url) && address::requested(url) == address::request_for(
            version_file_text(hash@) + "/update"@,
            update_pairs(*profile),
        ),
        address::all_plain_in_path(hash@) ==> (r matches Ok(url) && address::requested(url)
            == (address::RequestView {
            address: version_file_text(hash@) + "/update"@,
            pairs: update_pairs(*profile),
        })),
{
    let loaders = profile_loader_modrinth_loaders(profile);
    let mut versions: Vec<String> = Vec::new();
    versions.push(profile.version_id.clone());
    assert(text::texts(versions@) =~= seq![profile.version_id@]);
    proof {
        lemma_loader_lengths(profile.loader);
        reveal_with_fuel(json::total_length, 2);
        reveal_strlit("algorithm");
        reveal_strlit("sha1");
        reveal_strlit("loaders");
        reveal_strlit("game_versions");
    }
    let loaders = match write_json_list(&loaders) {
        Ok(written) => written,
        Err(_) => String::new(),
    };
    let versions = match write_json_list(&versions) {
        Ok(written) => written,
        Err(_) => String::new(),
    };
    let source = concat3("https://api.modrinth.com/v2/version_file/", hash, "/update");
    proof {
        lemma_service_texts();
        lemma_service_prefix("https://api.modrinth.com/v2/version_file/"@, hash@);
        lemma_service_prefix(version_file_text(hash@), "/update"@);
        if address::all_plain_in_path(hash@) {
            lemma_plain_suffix("https://api.modrinth.com/v2/version_file/"@, hash@);
            lemma_plain_suffix(version_file_text(hash@), "/update"@);
        }
    }
    match parse_url(source.as_str()) {
        Ok(url) => {
            let mut url = url;
            append_pair(&mut url, "algorithm", "sha1");
            append_pair(&mut url, "loaders", loaders.as_str());
            append_pair(&mut url, "game_versions", versions.as_str());
            assert(address::requested(url).pairs =~= address::request_for(
                version_file_text(hash@) + "/update"@,
                update_pairs(*profile),
            ).pairs);
            Ok(url)
        },
        Err(error) => Err(AddressError::Invalid(error)),
    }
}

/// A file to download.
#[derive(Debug, Clone, PartialEq, Eq)]
pub struct ContentDownload {
    /// Where it is downloaded from.
    pub url: String,
    /// The path that it is written to.
    pub target: String,
}

/// A file to download as plain values.
pub struct ContentDownloadView {
    pub url: Seq<char>,
    pub target: Seq<char>,
}

impl View for ContentDownload {
    type V = ContentDownloadView;

    open spec fn view(&self) -> ContentDownloadView {
        ContentDownloadView { url: self.url@, target: self.target@ }
    }
}

/// Why a project cannot be installed.
#[derive(Debug)]
pub enum InstallError {
    /// The profile loads no mods.
    LoaderNeeded,
    /// The address cannot be built.
    Address(AddressError),
    /// No version fits the profile.
    NoCompatibleVersion,
    /// The version has no file.
    NoFile,
}

/// What is said about a project that does not fit a profile.
pub open spec fn no_compatible_text(kind: DiscoveryKind, profile: LauncherProfile) -> Seq<char> {
    match kind {
        DiscoveryKind::Mods => "No compatible mod files found for profile '"@ + profile.name@
            + "' (MC "@ + profile.version_id@ + ", loader "@ + profile::loader_name(profile.loader)
            + "). Client-side filter checked game_versions + loaders."@,
        DiscoveryKind::Shaders => "No compatible shader files found for profile '"@ + profile.name@
            + "' (MC "@ + profile.version_id@ + "). Client-side filter checked game_versions."@,
    }
}

impl InstallError {
    /// What is said about the failure. Nothing is said here about an address:
    /// its own error says it.
    pub fn message(&self, kind: DiscoveryKind, profile: &LauncherProfile) -> (r: String)
        ensures
            r@ == match *self {
                InstallError::LoaderNeeded =>
                    "Mods require a modded profile loader (Fabric, Quilt, Forge, or NeoForge)."@,
                InstallError::Address(_) => "failed to build Modrinth versions URL"@,
                InstallError::NoCompatibleVersion => no_compatible_text(kind, *profile),
                InstallError::NoFile => "Modrinth version had no downloadable files"@,
            },
    {
        match self {
            InstallError::LoaderNeeded =>
                "Mods require a modded profile loader (Fabric, Quilt, Forge, or NeoForge).".to_owned(),
            InstallError::Address(_) => "failed to build Modrinth versions URL".to_owned(),
            InstallError::NoCompatibleVersion => match kind {
                DiscoveryKind::Mods => {
                    let mut message = concat5(
                        "No compatible mod files found for profile '",
                        profile.name.as_str(),
                        "' (MC ",
                        profile.version_id.as_str(),
                        ", loader ",
                    );
                    message.append(profile.loader_label());
                    message.append("). Client-side filter checked game_versions + loaders.");
                    message
                },
                DiscoveryKind::Shaders => concat5(
                    "No compatible shader files found for profile '",
                    profile.name.as_str(),
                    "' (MC ",
                    profile.version_id.as_str(),
                    "). Client-side filter checked game_versions.",
                ),
            },
            InstallError::NoFile => "Modrinth version had no downloadable files".to_owned(),
        }
    }
}

/// Whether a kind of content needs a loader that the profile does not have.
pub open spec fn needs_loader(kind: DiscoveryKind, profile: LauncherProfile) -> bool {
    kind == DiscoveryKind::Mods && profile.loader == ProfileLoader::Vanilla
}

/// Begins the installation of a project: the address that lists its versions.
pub fn install_request(kind: DiscoveryKind, project_id: &str, profile: &LauncherProfile) -> (r:
    Result<url::Url, InstallError>)
    ensures
        if needs_loader(kind, *profile) {
            r matches Err(InstallError::LoaderNeeded)
        } else if has_versions_address(project_id@) {
            r matches Ok(url) && address::requested(url) == address::request_for(
                project_versions_text(project_id@),
                seq![],
            )
        } else {
            r matches Err(InstallError::Address(_))
        },
        !needs_loader(kind, *profile) && project_id@.len() <= MAX_ADDRESS - 0x100 ==> r is Ok,
{
    if let (DiscoveryKind::Mods, ProfileLoader::Vanilla) = (kind, profile.loader) {
        return Err(InstallError::LoaderNeeded);
    }
    match project_versions_url(project_id) {
        Ok(url) => Ok(url),
        Err(error) => Err(InstallError::Address(error)),
    }
}

/// The download of a file into a directory.
pub open spec fn download_into(
    file: ModrinthVersionFile,
    directory: Seq<char>,
) -> ContentDownloadView {
    ContentDownloadView {
        url: file.url@,
        target: path::joined(directory, content::sanitized(file.filename@)),
    }
}

/// Chooses what to download for a project: the file of the first version that
/// fits the profile, into the directory of its kind of content. Mods need a loader.
pub fn install_modrinth_project(
    kind: DiscoveryKind,
    profile: &LauncherProfile,
    versions: &Vec<ModrinthVersion>,
    directory: &str,
) -> (r: Result<ContentDownload, InstallError>)
    ensures
        needs_loader(kind, *profile) ==> r matches Err(InstallError::LoaderNeeded),
        !needs_loader(kind, *profile) ==> match first_installable(versions@, kind, *profile, 0) {
            None => r matches Err(InstallError::NoCompatibleVersion),
            Some(at) => match chosen_file(versions@[at].files@) {
                None => r matches Err(InstallError::NoFile),
                Some(file) => r matches Ok(download) && download@ == download_into(
                    versions@[at].files@[file],
                    directory@,
                ),
            },
        },
{
    if let (DiscoveryKind::Mods, ProfileLoader::Vanilla) = (kind, profile.loader) {
        return Err(InstallError::LoaderNeeded);
    }
    let at = match find_installable(versions, kind, profile) {
        Some(at) => at,
        None => {
            return Err(InstallError::NoCompatibleVersion);
        },
    };
    let file = match choose_file(&versions[at].files) {
        Some(file) => file,
        None => {
            return Err(InstallError::NoFile);
        },
    };
    let file = &versions[at].files[file];
    let name = sanitize_component_for_path(file.filename.as_str());
    Ok(
        ContentDownload {
            url: file.url.clone(),
            target: join_path(directory, name.as_str()),
        },
    )
}

/// Why a mod cannot be replaced by another version.
#[derive(Debug, Clone, Copy, PartialEq, Eq, Structural)]
pub enum UpdateError {
    /// The version has no file.
    NoFile,
    /// The mod lies in no directory.
    NoDirectory,
}

impl UpdateError {
    /// What is said about the failure.
    pub fn message(&self, existing_path: &str) -> (r: String)
        ensures
            r@ == update_error_text(*self, existing_path@),
    {
        match self {
            UpdateError::NoFile => "Modrinth update payload had no downloadable files".to_owned(),
            UpdateError::NoDirectory => concat3(
                "failed resolving parent dir for '",
                existing_path,
                "'",
            ),
        }
    }
}

/// What is said about a mod that cannot be replaced.
pub open spec fn update_error_text(error: UpdateError, existing_path: Seq<char>) -> Seq<char> {
    match error {
        UpdateError::NoFile => "Modrinth update payload had no downloadable files"@,
        UpdateError::NoDirectory => "failed resolving parent dir for '"@ + existing_path + "'"@,
    }
}

/// The replacement of a mod by the file of another version: the file goes next
/// to the mod, which is removed unless the file takes its place.
pub open spec fn replacement(update: ModrinthVersion, existing_path: Seq<char>) -> Result<
    (ContentDownloadView, bool),
    UpdateError,
> {
    match (chosen_file(update.files@), path::parent_part(existing_path)) {
        (None, _) => Err(UpdateError::NoFile),
        (_, None) => Err(UpdateError::NoDirectory),
        (Some(file), Some(directory)) => {
            let download = download_into(update.files@[file], directory);
            Ok((download, !path::same_path(download.target, existing_path)))
        },
    }
}

/// Plans the replacement of a mod: what is downloaded, and whether the old file
/// is removed.
pub fn apply_modrinth_update_to_mod_path(update: &ModrinthVersion, existing_path: &str) -> (r:
    Result<(ContentDownload, bool), UpdateError>)
    ensures
        match replacement(*update, existing_path@) {
            Ok((download, removes)) => r matches Ok(plan) && plan.0@ == download && plan.1
                == removes,
            Err(error) => r == Err::<(ContentDownload, bool), UpdateError>(error),
        },
{
    let file = match choose_file(&update.files) {
        Some(file) => file,
        None => {
            return Err(UpdateError::NoFile);
        },
    };
    let directory = match parent(existing_path) {
        Some(directory) => directory,
        None => {
            return Err(UpdateError::NoDirectory);
        },
    };
    let file = &update.files[file];
    let name = sanitize_component_for_path(file.filename.as_str());
    let target = join_path(directory.as_str(), name.as_str());
    let removes = !is_same_path(target.as_str(), existing_path);
    Ok((ContentDownload { url: file.url.clone(), target }, removes))
}

proof fn lemma_first_compatible(versions: Seq<ModrinthVersion>, profile: LauncherProfile, from: int)
    requires
        0 <= from,
    ensures
        match first_compatible(versions, profile, from) {
            Some(at) => from <= at < versions.len() && is_compatible(versions[at], profile)
                && versions[at].files@.len() > 0 && forall|i: int|
                from <= i < at ==> !(is_compatible(#[trigger] versions[i], profile)
                    && versions[i].files@.len() > 0),
            None => forall|i: int|
                from <= i < versions.len() ==> !(is_compatible(#[trigger] versions[i], profile)
                    && versions[i].files@.len() > 0),
        },
    decreases versions.len() - from,
{
    if from < versions.len() && !(is_compatible(versions[from], profile)
        && versions[from].files@.len() > 0) {
        lemma_first_compatible(versions, profile, from + 1);
    }
}

/// What is chosen works: the version that is found works in the profile and has
/// a file, and one is found whenever there is one.
pub proof fn law_found_version_is_compatible(
    versions: Seq<ModrinthVersion>,
    profile: LauncherProfile,
)
    ensures
        match first_compatible(versions, profile, 0) {
            Some(at) => 0 <= at < versions.len() && is_compatible(versions[at], profile)
                && chosen_file(versions[at].files@) is Some,
            None => forall|i: int|
                0 <= i < versions.len() && is_compatible(#[trigger] versions[i], profile)
                    ==> versions[i].files@.len() == 0,
        },
{
    lemma_first_compatible(versions, profile, 0);
}

/// A profile without a loader has no compatible mods.
pub proof fn law_no_mod_fits_without_a_loader(version: ModrinthVersion, profile: LauncherProfile)
    requires
        profile.loader == ProfileLoader::Vanilla,
    ensures
        !is_compatible(version, profile),
{
}

/// A mod that can be installed works: being made for the profile's own loader is
/// more than being made for one whose mods it can load.
pub proof fn law_installable_mods_are_compatible(
    version: ModrinthVersion,
    profile: LauncherProfile,
)
    requires
        is_installable(version, DiscoveryKind::Mods, profile),
        profile.loader != ProfileLoader::Vanilla,
    ensures
        is_compatible(version, profile),
{
    let usable = usable_loaders(profile.loader);
    assert(loader_slug(profile.loader) == Some(usable[0]));
}

/// Whether texts hold a text.
pub open spec fn some_text_is(list: Seq<String>, wanted: Seq<char>) -> bool {
    exists|k: int| 0 <= k < list.len() && (#[trigger] list[k])@ == wanted
}

/// Whether texts hold a text, in any case of ASCII letters.
pub open spec fn some_text_reads(list: Seq<String>, wanted: Seq<char>) -> bool {
    exists|k: int| 0 <= k < list.len() && text::ascii_lower((#[trigger] list[k])@) == wanted
}

proof fn lemma_fits_game(version: ModrinthVersion, profile: LauncherProfile)
    ensures
        fits_game(version, profile) == some_text_is(version.game_versions@, profile.version_id@),
{
    let all = text::texts(version.game_versions@);
    let wanted = profile.version_id@;
    if all.contains(wanted) {
        let k = choose|k: int| 0 <= k < all.len() && all[k] == wanted;
        assert(version.game_versions@[k]@ == wanted);
    }
    if some_text_is(version.game_versions@, wanted) {
        let k = choose|k: int|
            0 <= k < version.game_versions@.len() && (#[trigger] version.game_versions@[k])@
                == wanted;
        assert(all[k] == wanted);
    }
}

proof fn lemma_slugs_are_lower()
    ensures
        text::ascii_lower("fabric"@) == "fabric"@,
        text::ascii_lower("quilt"@) == "quilt"@,
        text::ascii_lower("forge"@) == "forge"@,
        text::ascii_lower("neoforge"@) == "neoforge"@,
{
    reveal_strlit("fabric");
    reveal_strlit("quilt");
    reveal_strlit("forge");
    reveal_strlit("neoforge");
    assert(text::ascii_lower("fabric"@) =~= "fabric"@);
    assert(text::ascii_lower("quilt"@) =~= "quilt"@);
    assert(text::ascii_lower("forge"@) =~= "forge"@);
    assert(text::ascii_lower("neoforge"@) =~= "neoforge"@);
}

proof fn lemma_names_loader(list: Seq<String>, wanted: Seq<char>)
    requires
        text::ascii_lower(wanted) == wanted,
    ensures
        names_loader(text::texts(list), wanted) == some_text_reads(list, wanted),
{
    let all = text::texts(list);
    if names_loader(all, wanted) {
        let k = choose|k: int|
            0 <= k < all.len() && text::same_ignoring_ascii_case(#[trigger] all[k], wanted);
        assert(text::ascii_lower(list[k]@) == wanted);
    }
    if some_text_reads(list, wanted) {
        let k = choose|k: int|
            0 <= k < list.len() && text::ascii_lower((#[trigger] list[k])@) == wanted;
        assert(text::same_ignoring_ascii_case(all[k], wanted));
    }
}

/// Which versions of a mod work: those made for the profile's game version and for
/// its loader, in any case. Quilt also loads what is made for Fabric, and NeoForge
/// what is made for Forge. Without a loader none works.
pub proof fn law_compatible_versions_are_made_for_the_profile(
    version: ModrinthVersion,
    profile: LauncherProfile,
)
    ensures
        is_compatible(version, profile) == (some_text_is(
            version.game_versions@,
            profile.version_id@,
        ) && match profile.loader {
            ProfileLoader::Vanilla => false,
            ProfileLoader::Fabric => some_text_reads(version.loaders@, "fabric"@),
            ProfileLoader::Quilt => some_text_reads(version.loaders@, "quilt"@)
                || some_text_reads(version.loaders@, "fabric"@),
            ProfileLoader::Forge => some_text_reads(version.loaders@, "forge"@),
            ProfileLoader::NeoForge => some_text_reads(version.loaders@, "neoforge"@)
                || some_text_reads(version.loaders@, "forge"@),
        }),
{
    lemma_fits_game(version, profile);
    lemma_slugs_are_lower();
    lemma_names_loader(version.loaders@, "fabric"@);
    lemma_names_loader(version.loaders@, "quilt"@);
    lemma_names_loader(version.loaders@, "forge"@);
    lemma_names_loader(version.loaders@, "neoforge"@);
    let usable = usable_loaders(profile.loader);
    let named = text::texts(version.loaders@);
    if is_compatible(version, profile) {
        let i = choose|i: int|
            0 <= i < usable_loaders(profile.loader).len() && names_loader(
                named,
                #[trigger] usable_loaders(profile.loader)[i],
            );
        assert(names_loader(named, usable[i]));
        assert(i == 0 || i == 1);
    }
    match profile.loader {
        ProfileLoader::Vanilla => {},
        ProfileLoader::Fabric => {
            assert(usable[0] == "fabric"@);
        },
        ProfileLoader::Quilt => {
            assert(usable[0] == "quilt"@ && usable[1] == "fabric"@);
        },
        ProfileLoader::Forge => {
            assert(usable[0] == "forge"@);
        },
        ProfileLoader::NeoForge => {
            assert(usable[0] == "neoforge"@ && usable[1] == "forge"@);
        },
    }
}

/// Which versions are installed: those made for the profile's game version, and of
/// mods those made for the profile's own loader, in any case.
pub proof fn law_installed_versions_are_made_for_the_profile(
    version: ModrinthVersion,
    kind: DiscoveryKind,
    profile: LauncherProfile,
)
    ensures
        is_installable(version, kind, profile) == (some_text_is(
            version.game_versions@,
            profile.version_id@,
        ) && (kind == DiscoveryKind::Shaders || match profile.loader {
            ProfileLoader::Vanilla => true,
            ProfileLoader::Fabric => some_text_reads(version.loaders@, "fabric"@),
            ProfileLoader::Quilt => some_text_reads(version.loaders@, "quilt"@),
            ProfileLoader::Forge => some_text_reads(version.loaders@, "forge"@),
            ProfileLoader::NeoForge => some_text_reads(version.loaders@, "neoforge"@),
        })),
{
    lemma_fits_game(version, profile);
    lemma_slugs_are_lower();
    lemma_names_loader(version.loaders@, "fabric"@);
    lemma_names_loader(version.loaders@, "quilt"@);
    lemma_names_loader(version.loaders@, "forge"@);
    lemma_names_loader(version.loaders@, "neoforge"@);
}

proof fn lemma_first_installable(
    versions: Seq<ModrinthVersion>,
    kind: DiscoveryKind,
    profile: LauncherProfile,
    from: int,
)
    requires
        0 <= from,
    ensures
        match first_installable(versions, kind, profile, from) {
            Some(at) => from <= at < versions.len() && is_installable(versions[at], kind, profile)
                && forall|i: int|
                from <= i < at ==> !is_installable(#[trigger] versions[i], kind, profile),
            None => forall|i: int|
                from <= i < versions.len() ==> !is_installable(
                    #[trigger] versions[i],
                    kind,
                    profile,
                ),
        },
    decreases versions.len() - from,
{
    if from < versions.len() && !is_installable(versions[from], kind, profile) {
        lemma_first_installable(versions, kind, profile, from + 1);
    }
}

/// What is installed is the first version that fits: it is made for the profile's
/// game version, a mod for the profile's loader too, and no version before it is.
/// Where none is chosen, none of the versions fits.
pub proof fn law_first_fitting_version_is_installed(
    versions: Seq<ModrinthVersion>,
    kind: DiscoveryKind,
    profile: LauncherProfile,
    i: int,
)
    requires
        0 <= i < versions.len(),
        some_text_is(versions[i].game_versions@, profile.version_id@),
        kind == DiscoveryKind::Mods && profile.loader == ProfileLoader::Fabric ==> some_text_reads(
            versions[i].loaders@,
            "fabric"@,
        ),
        kind == DiscoveryKind::Mods && profile.loader == ProfileLoader::Quilt ==> some_text_reads(
            versions[i].loaders@,
            "quilt"@,
        ),
        kind == DiscoveryKind::Mods && profile.loader == ProfileLoader::Forge ==> some_text_reads(
            versions[i].loaders@,
            "forge"@,
        ),
        kind == DiscoveryKind::Mods && profile.loader == ProfileLoader::NeoForge
            ==> some_text_reads(versions[i].loaders@, "neoforge"@),
    ensures
        first_installable(versions, kind, profile, 0) matches Some(at) && 0 <= at <= i
            && some_text_is(versions[at].game_versions@, profile.version_id@),
{
    lemma_first_installable(versions, kind, profile, 0);
    law_installed_versions_are_made_for_the_profile(versions[i], kind, profile);
    if let Some(at) = first_installable(versions, kind, profile, 0) {
        law_installed_versions_are_made_for_the_profile(versions[at], kind, profile);
    }
}

/// Nothing is installed that is not made for the profile: where no version is made
/// for its game version none is chosen, for mods and for shader packs, and a mod
/// that is chosen is made for its loader.
pub proof fn law_nothing_unfit_is_installed(
    versions: Seq<ModrinthVersion>,
    kind: DiscoveryKind,
    profile: LauncherProfile,
)
    ensures
        (forall|i: int|
            0 <= i < versions.len() ==> !some_text_is(
                (#[trigger] versions[i]).game_versions@,
                profile.version_id@,
            )) ==> first_installable(versions, kind, profile, 0) is None,
        first_installable(versions, kind, profile, 0) matches Some(at) ==> {
            &&& 0 <= at < versions.len()
            &&& some_text_is(versions[at].game_versions@, profile.version_id@)
            &&& kind == DiscoveryKind::Mods ==> match profile.loader {
                ProfileLoader::Vanilla => true,
                ProfileLoader::Fabric => some_text_reads(versions[at].loaders@, "fabric"@),
                ProfileLoader::Quilt => some_text_reads(versions[at].loaders@, "quilt"@),
                ProfileLoader::Forge => some_text_reads(versions[at].loaders@, "forge"@),
                ProfileLoader::NeoForge => some_text_reads(versions[at].loaders@, "neoforge"@),
            }
        },
{
    lemma_first_installable(versions, kind, profile, 0);
    if let Some(at) = first_installable(versions, kind, profile, 0) {
        law_installed_versions_are_made_for_the_profile(versions[at], kind, profile);
        assert(some_text_is(versions[at].game_versions@, profile.version_id@));
    }
}

/// The first version of the list that works and has a file is the one that is
/// found, and one is found whenever there is one.
pub proof fn law_first_working_version_is_found(
    versions: Seq<ModrinthVersion>,
    profile: LauncherProfile,
    i: int,
)
    requires
        0 <= i < versions.len(),
        is_compatible(versions[i], profile),
        versions[i].files@.len() > 0,
    ensures
        first_compatible(versions, profile, 0) matches Some(at) && 0 <= at <= i && is_compatible(
            versions[at],
            profile,
        ) && versions[at].files@.len() > 0 && forall|j: int|
            0 <= j < at && is_compatible(#[trigger] versions[j], profile)
                ==> versions[j].files@.len() == 0,
{
    lemma_first_compatible(versions, profile, 0);
}

proof fn lemma_first_primary(files: Seq<ModrinthVersionFile>, from: int)
    requires
        0 <= from,
    ensures
        match first_primary(files, from) {
            Some(at) => from <= at < files.len() && files[at].primary == Some(true) && forall|
                j: int,
            |
                from <= j < at ==> (#[trigger] files[j]).primary != Some(true),
            None => forall|j: int|
                from <= j < files.len() ==> (#[trigger] files[j]).primary != Some(true),
        },
    decreases files.len() - from,
{
    if from < files.len() && files[from].primary != Some(true) {
        lemma_first_primary(files, from + 1);
    }
}

/// Which file of a version is downloaded: the first that is marked as the main one;
/// the very first where none is marked so; none only where there is no file.
pub proof fn law_main_file_is_downloaded(files: Seq<ModrinthVersionFile>)
    ensures
        (chosen_file(files) is None) == (files.len() == 0),
        chosen_file(files) matches Some(at) ==> {
            &&& 0 <= at < files.len()
            &&& forall|j: int|
                0 <= j < files.len() && (#[trigger] files[j]).primary == Some(true) ==> at <= j
                    && files[at].primary == Some(true)
            &&& files[at].primary != Some(true) ==> at == 0
        },
{
    lemma_first_primary(files, 0);
}

/// Where a file is downloaded to: below the directory, under its own name with
/// unsafe characters replaced, from its own address.
pub proof fn law_download_goes_into_the_directory(
    file: ModrinthVersionFile,
    directory: Seq<char>,
)
    requires
        directory.len() > 0,
        directory.last() != '/',
        file.filename@.len() > 0,
    ensures
        download_into(file, directory).url == file.url@,
        ({
            let target = download_into(file, directory).target;
            &&& target.len() == directory.len() + 1 + file.filename@.len()
            &&& target.take(directory.len() as int) == directory
            &&& target[directory.len() as int] == '/'
            &&& forall|i: int|
                0 <= i < file.filename@.len() ==> {
                    let c = #[trigger] file.filename@[i];
                    let written = target[directory.len() + 1 + i];
                    let plain = 'a' <= c <= 'z' || 'A' <= c <= 'Z' || '0' <= c <= '9' || c == '-'
                        || c == '_' || c == '.';
                    written == if plain {
                        c
                    } else {
                        '_'
                    }
                }
        }),
{
    let name = content::sanitized(file.filename@);
    content::law_file_names_hold_no_separator(file.filename@);
    assert(name.contains(name[0]));
    let target = download_into(file, directory).target;
    assert(target == directory + seq!['/'] + name);
    assert(target.take(directory.len() as int) =~= directory);
    assert forall|i: int| 0 <= i < file.filename@.len() implies target[directory.len() + 1 + i]
        == name[i] by {}
}

/// How a mod is replaced: by the chosen file of the update, written next to it. The
/// old file goes, unless the new one has its path.
pub proof fn law_replacement_lies_next_to_the_mod(
    update: ModrinthVersion,
    directory: Seq<char>,
    name: Seq<char>,
)
    requires
        directory.len() > 0,
        directory.last() != '/',
        path::tidy(directory) == directory,
        path::is_file_component(name),
        !name.contains('/'),
    ensures
        ({
            let existing = directory + seq!['/'] + name;
            match chosen_file(update.files@) {
                None => replacement(update, existing) == Err::<(ContentDownloadView, bool), UpdateError>(
                    UpdateError::NoFile,
                ),
                Some(at) => replacement(update, existing) matches Ok((download, removes)) && {
                    &&& download == download_into(update.files@[at], directory)
                    &&& download.target == existing ==> !removes
                    &&& removes == !path::same_path(download.target, existing)
                },
            }
        }),
{
    path::law_path_of_a_file(directory, name);
}

/// A mod is searched only for a profile with a loader, and a shader pack always;
/// the search asks for the words that were entered and for the kind of content.
pub proof fn law_search_asks_for_the_words(
    kind: DiscoveryKind,
    query: Seq<char>,
    profile: Option<LauncherProfile>,
)
    ensures
        (search_plan(kind, query, profile) is Err) == (kind == DiscoveryKind::Mods
            && profile is None),
        (search_plan(kind, query, profile) matches Ok(None)) == (kind == DiscoveryKind::Mods
            && profile is Some && profile->0.loader == ProfileLoader::Vanilla),
        search_plan(kind, query, profile) matches Ok(Some(request)) ==> {
            &&& request.address == "https://api.modrinth.com/v2/search"@
            &&& request.pairs.contains(("query"@, query))
            &&& request.pairs.contains(
                (
                    "facets"@,
                    match kind {
                        DiscoveryKind::Mods => "[[\"project_type:mod\"]]"@,
                        DiscoveryKind::Shaders => "[[\"project_type:shader\"]]"@,
                    },
                ),
            )
            &&& request.pairs.contains(("index"@, "relevance"@))
            &&& request.pairs.contains(("limit"@, "24"@))
            &&& request.pairs.len() == 4
        },
{
    reveal_strlit("[[\"project_type:");
    reveal_strlit("\"]]");
    reveal_strlit("mod");
    reveal_strlit("shader");
    reveal_strlit("[[\"project_type:mod\"]]");
    reveal_strlit("[[\"project_type:shader\"]]");
    assert(search_facets(DiscoveryKind::Mods) =~= "[[\"project_type:mod\"]]"@);
    assert(search_facets(DiscoveryKind::Shaders) =~= "[[\"project_type:shader\"]]"@);
    let pairs = search_request_view(kind, query).pairs;
    assert(pairs[0] == ("query"@, query));
    assert(pairs[1] == ("index"@, "relevance"@));
    assert(pairs[2] == ("limit"@, "24"@));
    assert(pairs[3] == ("facets"@, search_facets(kind)));
}

/// A search shows every hit in its order, with its own title and description.
pub proof fn law_hits_are_shown_as_they_are(hit: ModrinthSearchHit)
    ensures
        card_of(hit).project_id == hit.project_id@,
        card_of(hit).title == hit.title@,
        hit.description matches Some(description) ==> card_of(hit).description == description@,
        hit.description is None ==> card_of(hit).description == "No description available."@,
{
}

/// Of the cards of a search exactly those with a compatible version are kept, in
/// order: one more card is added at the end if it has one, and changes nothing else.
pub proof fn law_compatible_cards_are_kept_in_order(
    cards: Seq<DiscoveryCardData>,
    compatible: Seq<bool>,
    card: DiscoveryCardData,
    has_one: bool,
)
    requires
        cards.len() == compatible.len(),
    ensures
        compatible_cards(cards, compatible, 0).len() == 0,
        compatible_cards(
            cards.push(card),
            compatible.push(has_one),
            (cards.len() + 1) as int,
        ) == if has_one {
            compatible_cards(cards, compatible, cards.len() as int).push(card)
        } else {
            compatible_cards(cards, compatible, cards.len() as int)
        },
{
    lemma_compatible_prefix(
        cards,
        compatible,
        cards.push(card),
        compatible.push(has_one),
        cards.len() as int,
    );
}

proof fn lemma_compatible_prefix(
    cards: Seq<DiscoveryCardData>,
    compatible: Seq<bool>,
    longer: Seq<DiscoveryCardData>,
    more: Seq<bool>,
    n: int,
)
    requires
        0 <= n <= cards.len() <= longer.len(),
        cards.len() == compatible.len(),
        longer.len() == more.len(),
        forall|i: int| 0 <= i < cards.len() ==> cards[i] == #[trigger] longer[i],
        forall|i: int| 0 <= i < cards.len() ==> compatible[i] == #[trigger] more[i],
    ensures
        compatible_cards(cards, compatible, n) == compatible_cards(longer, more, n),
    decreases n,
{
    if n > 0 {
        lemma_compatible_prefix(cards, compatible, longer, more, n - 1);
        assert(cards[n - 1] == longer[n - 1]);
        assert(compatible[n - 1] == more[n - 1]);
    }
}

/// What the service is asked by: a project's versions by its identifier, a file by
/// its digest, and an update of a file by its digest, the loaders whose mods work
/// and the game version.
pub proof fn law_requests_name_their_subject(
    project_id: Seq<char>,
    hash: Seq<char>,
    profile: LauncherProfile,
)
    ensures
        project_versions_text(project_id) == "https://api.modrinth.com/v2/project/"@ + project_id
            + "/version"@,
        version_file_text(hash) == "https://api.modrinth.com/v2/version_file/"@ + hash,
        update_pairs(profile).len() == 3,
        update_pairs(profile).contains(("algorithm"@, "sha1"@)),
        update_pairs(profile).contains(
            ("game_versions"@, json::json_list(seq![profile.version_id@])),
        ),
        update_pairs(profile).contains(
            (
                "loaders"@,
                json::json_list(
                    match profile.loader {
                        ProfileLoader::Vanilla => seq![],
                        ProfileLoader::Fabric => seq!["fabric"@],
                        ProfileLoader::Quilt => seq!["quilt"@, "fabric"@],
                        ProfileLoader::Forge => seq!["forge"@],
                        ProfileLoader::NeoForge => seq!["neoforge"@, "forge"@],
                    },
                ),
            ),
        ),
{
    let pairs = update_pairs(profile);
    assert(pairs[0] == ("algorithm"@, "sha1"@));
    assert(pairs[1].0 == "loaders"@);
    assert(pairs[2] == ("game_versions"@, json::json_list(seq![profile.version_id@])));
    assert(pairs.contains(pairs[1]));
}

/// What a loader is called at the service, and whose mods it can load: its own, and
/// Quilt those of Fabric too, NeoForge those of Forge.
pub proof fn law_loaders_at_the_service(loader: ProfileLoader)
    ensures
        loader_slug(loader) == match loader {
            ProfileLoader::Vanilla => None,
            ProfileLoader::Fabric => Some("fabric"@),
            ProfileLoader::Quilt => Some("quilt"@),
            ProfileLoader::Forge => Some("forge"@),
            ProfileLoader::NeoForge => Some("neoforge"@),
        },
        loader == ProfileLoader::Vanilla <==> usable_loaders(loader).len() == 0,
        loader_slug(loader) matches Some(own) ==> usable_loaders(loader)[0] == own,
        loader == ProfileLoader::Quilt ==> usable_loaders(loader) == seq!["quilt"@, "fabric"@],
        loader == ProfileLoader::NeoForge ==> usable_loaders(loader) == seq!["neoforge"@, "forge"@],
        loader == ProfileLoader::Fabric || loader == ProfileLoader::Forge ==> usable_loaders(
            loader,
        ).len() == 1,
{
}

/// Mods need a loader, shader packs do not; and what is said where nothing fits names
/// the profile and what was asked for.
pub proof fn law_refused_installation_says_why(
    kind: DiscoveryKind,
    profile: LauncherProfile,
    existing: Seq<char>,
)
    ensures
        needs_loader(kind, profile) <==> kind == DiscoveryKind::Mods && profile.loader
            == ProfileLoader::Vanilla,
        kind == DiscoveryKind::Mods ==> no_compatible_text(kind, profile)
            == "No compatible mod files found for profile '"@ + profile.name@ + "' (MC "@
            + profile.version_id@ + ", loader "@ + profile::loader_name(profile.loader)
            + "). Client-side filter checked game_versions + loaders."@,
        kind == DiscoveryKind::Shaders ==> no_compatible_text(kind, profile)
            == "No compatible shader files found for profile '"@ + profile.name@ + "' (MC "@
            + profile.version_id@ + "). Client-side filter checked game_versions."@,
        update_error_text(UpdateError::NoFile, existing)
            == "Modrinth update payload had no downloadable files"@,
        update_error_text(UpdateError::NoDirectory, existing) == "failed resolving parent dir for '"@
            + existing + "'"@,
{
}

/// What a search asks the service for: the words and the kind of content, by relevance
/// and within a limit.
pub proof fn law_search_request(kind: DiscoveryKind, query: Seq<char>)
    ensures
        search_request_view(kind, query).address == "https://api.modrinth.com/v2/search"@,
        search_request_view(kind, query).pairs == seq![
            ("query"@, query),
            ("index"@, "relevance"@),
            ("limit"@, "24"@),
            (
                "facets"@,
                "[[\"project_type:"@ + discovery::kind_facet(kind) + "\"]]"@,
            ),
        ],
{
}

} // verus!
