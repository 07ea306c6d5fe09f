use lucent_launcher::checksum::sha1_hex;
use lucent_launcher::discovery::DiscoveryKind;
use lucent_launcher::modrinth::{
    apply_modrinth_update_to_mod_path, find_compatible_version, install_modrinth_project,
    install_request, is_modrinth_version_compatible, keep_compatible, profile_loader_modrinth_loaders,
    profile_loader_to_modrinth_loader, project_versions_url, search_request, search_results,
    update_for_hash_url, version_by_hash_url, InstallError, ModrinthSearchHit, ModrinthVersion,
    ModrinthVersionFile, SearchError, UpdateError,
};
use lucent_launcher::profile::{LauncherProfile, ProfileLoader};
use lucent_launcher::repair::{RepairAction, RepairReply, RepairRun};

fn profile(loader: ProfileLoader) -> LauncherProfile {
    let mut profile = LauncherProfile::default_with_version("id".to_string(), "1.21.4".to_string());
    profile.name = "Pack".to_string();
    profile.loader = loader;
    profile
}

fn file(name: &str, primary: Option<bool>) -> ModrinthVersionFile {
    ModrinthVersionFile {
        url: format!("https://cdn/{name}"),
        filename: name.to_string(),
        primary,
    }
}

fn version(games: &[&str], loaders: &[&str], files: Vec<ModrinthVersionFile>) -> ModrinthVersion {
    ModrinthVersion {
        project_id: Some("proj".to_string()),
        game_versions: games.iter().map(|v| v.to_string()).collect(),
        loaders: loaders.iter().map(|v| v.to_string()).collect(),
        files,
    }
}

#[test]
fn digest_is_lower_case_hexadecimal() {
    assert_eq!(sha1_hex(b"hello world"), "2aae6c35c94fcfb415dbe95f408b9ce91ee846ed");
}

#[test]
fn loaders_have_names_at_the_service() {
    assert_eq!(profile_loader_to_modrinth_loader(&profile(ProfileLoader::Vanilla)), None);
    assert_eq!(profile_loader_to_modrinth_loader(&profile(ProfileLoader::Quilt)), Some("quilt"));
    assert_eq!(
        profile_loader_modrinth_loaders(&profile(ProfileLoader::Quilt)),
        vec!["quilt".to_string(), "fabric".to_string()]
    );
    assert_eq!(
        profile_loader_modrinth_loaders(&profile(ProfileLoader::NeoForge)),
        vec!["neoforge".to_string(), "forge".to_string()]
    );
    assert!(profile_loader_modrinth_loaders(&profile(ProfileLoader::Vanilla)).is_empty());
}

#[test]
fn compatibility_needs_game_and_loader() {
    let quilt = profile(ProfileLoader::Quilt);
    assert!(is_modrinth_version_compatible(&version(&["1.21.4"], &["Fabric"], vec![]), &quilt));
    assert!(!is_modrinth_version_compatible(&version(&["1.21"], &["fabric"], vec![]), &quilt));
    assert!(!is_modrinth_version_compatible(&version(&["1.21.4"], &["forge"], vec![]), &quilt));
    let vanilla = profile(ProfileLoader::Vanilla);
    assert!(!is_modrinth_version_compatible(&version(&["1.21.4"], &["fabric"], vec![]), &vanilla));
}

#[test]
fn found_version_has_a_file() {
    let fabric = profile(ProfileLoader::Fabric);
    let versions = vec![
        version(&["1.20"], &["fabric"], vec![file("a.jar", None)]),
        version(&["1.21.4"], &["fabric"], vec![]),
        version(&["1.21.4"], &["fabric"], vec![file("b.jar", None)]),
    ];
    assert_eq!(find_compatible_version(&versions, &fabric), Some(2));
    assert_eq!(find_compatible_version(&versions[..2].to_vec(), &fabric), None);
}

#[test]
fn search_asks_for_a_kind_of_project() {
    let url = search_request(DiscoveryKind::Shaders, "bsl & co", None).unwrap().unwrap();
    assert_eq!(
        url.as_str(),
        "https://api.modrinth.com/v2/search?query=bsl+%26+co&index=relevance&limit=24&facets=%5B%5B%22project_type%3Ashader%22%5D%5D"
    );
    assert!(matches!(
        search_request(DiscoveryKind::Mods, "x", None),
        Err(SearchError::NoProfile)
    ));
    let vanilla = profile(ProfileLoader::Vanilla);
    assert!(search_request(DiscoveryKind::Mods, "x", Some(&vanilla)).unwrap().is_none());
    let fabric = profile(ProfileLoader::Fabric);
    let url = search_request(DiscoveryKind::Mods, "x", Some(&fabric)).unwrap().unwrap();
    assert!(url.as_str().contains("project_type%3Amod%22"));
}

#[test]
fn lookups_carry_the_digest() {
    let hash = sha1_hex(b"x");
    assert_eq!(
        version_by_hash_url(&hash).unwrap().as_str(),
        format!("https://api.modrinth.com/v2/version_file/{hash}?algorithm=sha1")
    );
    let quilt = profile(ProfileLoader::Quilt);
    assert_eq!(
        update_for_hash_url(&hash, &quilt).unwrap().as_str(),
        format!(
            "https://api.modrinth.com/v2/version_file/{hash}/update?algorithm=sha1&loaders=%5B%22quilt%22%2C%22fabric%22%5D&game_versions=%5B%221.21.4%22%5D"
        )
    );
    assert_eq!(
        project_versions_url("AANobbMI").unwrap().as_str(),
        "https://api.modrinth.com/v2/project/AANobbMI/version"
    );
    assert_eq!(
        project_versions_url("a b").unwrap().as_str(),
        "https://api.modrinth.com/v2/project/a%20b/version"
    );
}

#[test]
fn hits_without_description_say_so() {
    let cards = search_results(vec![
        ModrinthSearchHit {
            project_id: "p".to_string(),
            title: "T".to_string(),
            description: None,
        },
        ModrinthSearchHit {
            project_id: "q".to_string(),
            title: "U".to_string(),
            description: Some("about".to_string()),
        },
    ]);
    assert_eq!(cards[0].description, "No description available.");
    assert_eq!(cards[1].description, "about");
    let kept = keep_compatible(cards, &vec![false, true]);
    assert_eq!(kept.len(), 1);
    assert_eq!(kept[0].project_id, "q");
}

#[test]
fn installation_takes_the_main_file() {
    let fabric = profile(ProfileLoader::Fabric);
    let versions = vec![
        version(&["1.21.4"], &["quilt"], vec![file("q.jar", None)]),
        version(
            &["1.21.4"],
            &["FABRIC"],
            vec![file("api.jar", Some(false)), file("my mod.jar", Some(true))],
        ),
    ];
    let download =
        install_modrinth_project(DiscoveryKind::Mods, &fabric, &versions, "/g/mods").unwrap();
    assert_eq!(download.url, "https://cdn/my mod.jar");
    assert_eq!(download.target, "/g/mods/my_mod.jar");
    let download =
        install_modrinth_project(DiscoveryKind::Shaders, &fabric, &versions, "/g/s").unwrap();
    assert_eq!(download.target, "/g/s/q.jar");
}

#[test]
fn installation_is_refused_with_a_reason() {
    let vanilla = profile(ProfileLoader::Vanilla);
    let error = install_request(DiscoveryKind::Mods, "p", &vanilla).unwrap_err();
    assert_eq!(
        error.message(DiscoveryKind::Mods, &vanilla),
        "Mods require a modded profile loader (Fabric, Quilt, Forge, or NeoForge)."
    );
    assert!(install_request(DiscoveryKind::Shaders, "p", &vanilla).is_ok());
    let listed = vec![version(&["1.21.4"], &["vanilla"], vec![file("v.jar", None)])];
    let error =
        install_modrinth_project(DiscoveryKind::Mods, &vanilla, &listed, "/g").unwrap_err();
    assert!(matches!(error, InstallError::LoaderNeeded));
    assert!(install_modrinth_project(DiscoveryKind::Shaders, &vanilla, &listed, "/g").is_ok());
    let forge = profile(ProfileLoader::Forge);
    let error =
        install_modrinth_project(DiscoveryKind::Mods, &forge, &vec![], "/g").unwrap_err();
    assert!(matches!(error, InstallError::NoCompatibleVersion));
    assert_eq!(
        error.message(DiscoveryKind::Mods, &forge),
        "No compatible mod files found for profile 'Pack' (MC 1.21.4, loader Forge). Client-side filter checked game_versions + loaders."
    );
    assert_eq!(
        error.message(DiscoveryKind::Shaders, &forge),
        "No compatible shader files found for profile 'Pack' (MC 1.21.4). Client-side filter checked game_versions."
    );
    let empty = vec![version(&["1.21.4"], &["forge"], vec![])];
    let error = install_modrinth_project(DiscoveryKind::Mods, &forge, &empty, "/g").unwrap_err();
    assert!(matches!(error, InstallError::NoFile));
}

#[test]
fn replacement_takes_the_place_of_the_mod() {
    let update = version(&[], &[], vec![file("new.jar", None)]);
    let (download, removes) = apply_modrinth_update_to_mod_path(&update, "/m/old.jar").unwrap();
    assert_eq!(download.target, "/m/new.jar");
    assert!(removes);
    let (_, removes) = apply_modrinth_update_to_mod_path(&update, "/m/new.jar").unwrap();
    assert!(!removes);
    let (_, removes) = apply_modrinth_update_to_mod_path(&update, "/m//new.jar").unwrap();
    assert!(!removes);
    let (_, removes) = apply_modrinth_update_to_mod_path(&update, "m/new.jar").unwrap();
    assert!(!removes);
    let empty = version(&[], &[], vec![]);
    let error = apply_modrinth_update_to_mod_path(&empty, "/m/old.jar").unwrap_err();
    assert_eq!(error, UpdateError::NoFile);
    let error = apply_modrinth_update_to_mod_path(&update, "/").unwrap_err();
    assert_eq!(error, UpdateError::NoDirectory);
    assert_eq!(error.message("/"), "failed resolving parent dir for '/'");
}

fn logs(actions: &[RepairAction]) -> Vec<String> {
    actions
        .iter()
        .filter_map(|action| match action {
            RepairAction::Log(line) => Some(line.clone()),
            _ => None,
        })
        .collect()
}

#[test]
fn repair_replaces_and_switches_off() {
    let names: Vec<String> = ["a.jar", "b.jar", "c.jar.disabled", "d.txt", "e.jar"]
        .iter()
        .map(|name| name.to_string())
        .collect();
    let (mut run, actions) =
        RepairRun::start(profile(ProfileLoader::Fabric), "/m".to_string(), &names);
    assert_eq!(
        logs(&actions),
        vec!["Auto-repair: checking 3 enabled mod(s) for compatibility (MC 1.21.4, loader Fabric)"]
    );
    assert!(matches!(&actions[1], RepairAction::ReadMod(path) if path == "/m/a.jar"));

    // The first mod is replaced.
    let actions = run.step(RepairReply::Contents(b"hello world".to_vec()));
    assert!(matches!(&actions[0], RepairAction::LookUpVersion(url)
        if url.as_str() == "https://api.modrinth.com/v2/version_file/2aae6c35c94fcfb415dbe95f408b9ce91ee846ed?algorithm=sha1"));
    let actions = run.step(RepairReply::Version(Some(version(&["1.20"], &["fabric"], vec![]))));
    assert!(matches!(&actions[1], RepairAction::LookUpUpdate(_)));
    let update = version(&["1.21.4"], &["fabric"], vec![file("a2.jar", None)]);
    let actions = run.step(RepairReply::Version(Some(update)));
    match &actions[0] {
        RepairAction::Replace { download, remove } => {
            assert_eq!(download.target, "/m/a2.jar");
            assert_eq!(remove.as_deref(), Some("/m/a.jar"));
        }
        other => panic!("{other:?}"),
    }
    let actions = run.step(RepairReply::Done);
    assert_eq!(logs(&actions), vec!["Auto-repair: replaced 'a.jar' with compatible 'a2.jar'"]);

    // For the second mod nothing is found.
    run.step(RepairReply::Contents(Vec::new()));
    run.step(RepairReply::Version(Some(version(&["1.20"], &["fabric"], vec![]))));
    let actions = run.step(RepairReply::Version(None));
    assert!(matches!(&actions[0], RepairAction::ListVersions(url)
        if url.as_str() == "https://api.modrinth.com/v2/project/proj/version"));
    let actions = run.step(RepairReply::Failed("offline".to_string()));
    assert_eq!(
        logs(&actions),
        vec!["Auto-repair: no compatible replacement found for 'b.jar'; will disable after retrieval phase"]
    );

    // The third one is unknown; then the second one is switched off.
    run.step(RepairReply::Contents(Vec::new()));
    let actions = run.step(RepairReply::Version(None));
    assert!(matches!(&actions[1], RepairAction::Rename { from, to }
        if from == "/m/b.jar" && to == "/m/b.jar.disabled"));
    let actions = run.step(RepairReply::Done);
    assert_eq!(logs(&actions), vec!["Auto-repair: disabled incompatible mod 'b.jar.disabled'"]);
    let summary = run.outcome().unwrap().unwrap();
    assert_eq!((summary.checked, summary.updated), (3, 1));
    assert_eq!((summary.disabled, summary.unknown), (1, 1));
    assert_eq!(summary.disabled_mods, vec!["b.jar.disabled"]);
}

#[test]
fn repair_without_mods_is_over() {
    let (run, actions) =
        RepairRun::start(profile(ProfileLoader::Fabric), "/m".to_string(), &Vec::new());
    assert!(actions.is_empty());
    assert_eq!(run.outcome().unwrap().unwrap().checked, 0);
}

#[test]
fn repair_fails_with_the_service() {
    let names = vec!["a.jar".to_string()];
    let (mut run, _) = RepairRun::start(profile(ProfileLoader::Fabric), "/m".to_string(), &names);
    run.step(RepairReply::Contents(Vec::new()));
    let actions = run.step(RepairReply::Failed("no network".to_string()));
    assert!(actions.is_empty());
    assert!(run.step(RepairReply::Done).is_empty());
    assert_eq!(run.outcome(), Some(Err("no network".to_string())));
}

#[test]
fn compatible_mod_is_left_alone() {
    let names = vec!["a.jar".to_string()];
    let (mut run, _) = RepairRun::start(profile(ProfileLoader::Fabric), "/m".to_string(), &names);
    run.step(RepairReply::Contents(Vec::new()));
    let found = version(&["1.21.4"], &["fabric"], vec![]);
    let actions = run.step(RepairReply::Version(Some(found)));
    assert_eq!(logs(&actions), vec!["Auto-repair: 'a.jar' is compatible"]);
    let summary = run.outcome().unwrap().unwrap();
    assert_eq!((summary.checked, summary.updated, summary.disabled), (1, 0, 0));
}
