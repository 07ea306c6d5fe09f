use lucent_launcher::content::{
    count_enabled, delete_profile_content, enabled_mods, list_profile_content_entries,
    moves_named_directory, named_game_directory, profile_content_dir, profile_game_directory,
    sanitize_component_for_path, set_profile_content_enabled, settled_game_directory,
    strip_disabled_suffix, FileChange,
};
use lucent_launcher::discovery::{DiscoveryCardData, DiscoveryKind};
use lucent_launcher::messages::{AppEvent, DiscoveryEvent};
use lucent_launcher::selection::{
    install_failure, install_summary, nothing_selected, results_header, InstallRun, Selection,
};

fn names(list: &[&str]) -> Vec<String> {
    list.iter().map(|name| name.to_string()).collect()
}

#[test]
fn unsafe_characters_become_underscores() {
    assert_eq!(sanitize_component_for_path("My Pack/1.0 é"), "My_Pack_1.0__");
    assert_eq!(sanitize_component_for_path("profile-1f-0"), "profile-1f-0");
}

#[test]
fn profile_directories_are_named_by_id() {
    assert_eq!(profile_game_directory("/mc", "profile-1-0"), "/mc/profiles/profile-1-0");
    assert_eq!(named_game_directory("/mc", "My Pack"), "/mc/profiles/My_Pack");
    assert_eq!(profile_content_dir("/g", DiscoveryKind::Mods), "/g/mods");
    assert_eq!(profile_content_dir("/g", DiscoveryKind::Shaders), "/g/shaderpacks");
    assert!(moves_named_directory(false, true));
    assert!(!moves_named_directory(true, true));
    assert!(!moves_named_directory(false, false));
    assert_eq!(settled_game_directory("/mc", "p-1", "My Pack", None), "/mc/profiles/p-1");
    assert_eq!(settled_game_directory("/mc", "p-1", "My Pack", Some(true)), "/mc/profiles/p-1");
    assert_eq!(
        settled_game_directory("/mc", "p-1", "My Pack", Some(false)),
        "/mc/profiles/My_Pack"
    );
}

#[test]
fn disabled_mark_is_stripped_once() {
    assert_eq!(strip_disabled_suffix("a.jar.disabled"), "a.jar");
    assert_eq!(strip_disabled_suffix("a.jar"), "a.jar");
    assert_eq!(strip_disabled_suffix("a.disabled.disabled"), "a.disabled");
}

#[test]
fn listing_is_sorted_without_regard_to_case() {
    let entries = list_profile_content_entries(&names(&[
        "zeta.jar",
        "Äpfel.jar",
        "Beta.jar.disabled",
        "alpha.jar",
        "beta.jar",
    ]));
    let shown: Vec<&str> = entries.iter().map(|entry| entry.display_name.as_str()).collect();
    assert_eq!(shown, ["alpha.jar", "Beta.jar", "beta.jar", "zeta.jar", "Äpfel.jar"]);
    assert!(!entries[1].enabled);
    assert!(entries[2].enabled);
    assert_eq!(entries[1].file_name, "Beta.jar");
}

#[test]
fn enabled_files_are_counted() {
    let files = names(&["a.jar", "b.jar.disabled", "c.txt", ".jar"]);
    assert_eq!(count_enabled(&files), 3);
    assert_eq!(enabled_mods(&files), names(&["a.jar"]));
}

#[test]
fn switching_renames_the_file_that_is_there() {
    let off = set_profile_content_enabled("/g/mods", "a.jar", false, true, false);
    assert_eq!(
        off,
        FileChange::Rename {
            from: "/g/mods/a.jar".to_string(),
            to: "/g/mods/a.jar.disabled".to_string(),
        }
    );
    let on = set_profile_content_enabled("/g/mods", "a.jar", true, false, true);
    assert_eq!(
        on,
        FileChange::Rename {
            from: "/g/mods/a.jar.disabled".to_string(),
            to: "/g/mods/a.jar".to_string(),
        }
    );
    assert_eq!(
        set_profile_content_enabled("/g/mods", "a.jar", true, true, false),
        FileChange::Keep
    );
    assert_eq!(
        set_profile_content_enabled("/g/mods", "a.jar", false, false, true),
        FileChange::Keep
    );
}

#[test]
fn deletion_takes_both_states() {
    assert_eq!(
        delete_profile_content("/m", "a.jar", true, true),
        names(&["/m/a.jar", "/m/a.jar.disabled"])
    );
    assert_eq!(delete_profile_content("/m", "a.jar", false, true), names(&["/m/a.jar.disabled"]));
    assert!(delete_profile_content("/m", "a.jar", false, false).is_empty());
}

fn card(id: &str, title: &str) -> DiscoveryCardData {
    DiscoveryCardData {
        project_id: id.to_string(),
        title: title.to_string(),
        description: String::new(),
    }
}

#[test]
fn selection_holds_each_project_once() {
    let mut selection = Selection::new();
    assert!(selection.is_empty());
    assert_eq!(results_header(&selection), "Search results");
    selection.select(card("b", "Zoom"));
    selection.select(card("a", "iris"));
    selection.select(card("b", "Fabric"));
    assert_eq!(results_header(&selection), "Search results (unchecked items)");
    let sorted = selection.sorted();
    assert_eq!(sorted, vec![card("b", "Fabric"), card("a", "iris")]);
    let rest = selection.unselected(&vec![card("a", "iris"), card("c", "Sodium")]);
    assert_eq!(rest, vec![card("c", "Sodium")]);
    selection.deselect("b");
    assert_eq!(selection.sorted(), vec![card("a", "iris")]);
    selection.deselect("unknown");
    assert!(!selection.is_empty());
    selection.clear();
    assert!(selection.is_empty());
}

#[test]
fn installation_is_reported() {
    assert_eq!(nothing_selected(DiscoveryKind::Mods), "Select one or more mods to install");
    assert_eq!(
        nothing_selected(DiscoveryKind::Shaders),
        "Select one or more shaderpacks to install"
    );
    assert_eq!(
        install_failure(DiscoveryKind::Shaders, "BSL", "gone"),
        "Failed to install shader 'BSL': gone"
    );
    assert_eq!(
        install_failure(DiscoveryKind::Mods, "Sodium", "gone"),
        "Failed to install mod 'Sodium': gone"
    );
    assert_eq!(install_summary(DiscoveryKind::Mods, 2, "P"), "Installed 2 mod(s) for 'P'");
    assert_eq!(
        install_summary(DiscoveryKind::Shaders, 0, "P"),
        "Installed 0 shaderpack(s) for 'P'"
    );
}

fn refusal(refused: Result<InstallRun, AppEvent>) -> String {
    match refused {
        Err(AppEvent::Discovery(DiscoveryEvent::ActionFailed { error, .. })) => error,
        other => panic!("{other:?}"),
    }
}

#[test]
fn picked_projects_are_installed_in_turn() {
    let kind = DiscoveryKind::Mods;
    let name = Some("P".to_string());
    assert_eq!(
        refusal(InstallRun::start(kind, Vec::new(), None)),
        "Select one or more mods to install"
    );
    let picked = vec![card("a", "Alpha"), card("b", "Beta")];
    assert_eq!(
        refusal(InstallRun::start(kind, picked.clone(), None)),
        "Select a valid profile in Profile Editor"
    );
    let mut run = InstallRun::start(kind, picked, name).unwrap();
    assert_eq!(run.current().unwrap().project_id, "a");
    let events = run.step(Err("gone".to_string()));
    assert_eq!(events.len(), 1);
    assert!(matches!(
        &events[0],
        AppEvent::Discovery(DiscoveryEvent::ActionFailed { error, .. })
            if error == "Failed to install mod 'Alpha': gone"
    ));
    assert_eq!(run.current().unwrap().project_id, "b");
    let events = run.step(Ok("/g/mods/b.jar".to_string()));
    assert_eq!(events.len(), 3);
    assert!(matches!(
        &events[0],
        AppEvent::Discovery(DiscoveryEvent::InstallFinished { title, target_path, .. })
            if title == "Beta" && target_path == "/g/mods/b.jar"
    ));
    assert!(matches!(&events[1], AppEvent::StatusUpdate(status)
        if status == "Installed 1 mod(s) for 'P'"));
    assert!(matches!(
        events[2],
        AppEvent::Discovery(DiscoveryEvent::InstalledChanged(DiscoveryKind::Mods))
    ));
    assert!(run.current().is_none());
    assert!(run.step(Ok(String::new())).is_empty());
}

#[test]
fn kinds_of_content_have_names() {
    assert_eq!(DiscoveryKind::Mods.label(), "Mods");
    assert_eq!(DiscoveryKind::Shaders.label(), "Shaders");
    assert_eq!(DiscoveryKind::Mods.project_type_facet(), "mod");
    assert_eq!(DiscoveryKind::Shaders.install_subdir(), "shaderpacks");
}
