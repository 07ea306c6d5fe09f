use lucent_launcher::color::{automatic_hue, card_color, hex_to_rgb, normalize_hex_color, CardColor};
use lucent_launcher::discovery::{DiscoveryCardData, DiscoveryKind};
use lucent_launcher::editor::{
    color_field_after_mode, create_profile, delete_profile, editor_fields, exact_field_after_loader,
    exact_field_after_mode, refresh_profile_models, save_profile, selected_fields, EditError,
    ProfileForm,
};
use lucent_launcher::launch::JavaInstallPolicy;
use lucent_launcher::messages::AppEvent;
use lucent_launcher::profile::{
    index_from_loader, loader_from_index, loader_version_from_mode_and_text,
    loader_version_mode_index, normalize_optional_text, parse_optional_u32, LauncherProfile,
    ProfileColorMode, ProfileLoader, ProfileLoaderVersion,
};
use lucent_launcher::session::Session;
use lucent_launcher::ui::{
    card_subtitle, installed_label, microsoft_login, release_versions, restore_at_start,
    search_decision, search_label, tab_scroll_height, PlayDecision, SearchDecision, UiAction,
    UiState, VersionEntry,
};

fn texts(list: &[&str]) -> Vec<String> {
    list.iter().map(|text| text.to_string()).collect()
}

fn form(name: &str) -> ProfileForm {
    ProfileForm {
        name: name.to_string(),
        version: Some("1.21.4".to_string()),
        loader_index: 1,
        mode_index: 2,
        exact_version: " 0.16 ".to_string(),
        color_mode_index: 1,
        color_hex: "7c5cff".to_string(),
        java_policy_index: 1,
        java_binary: " /jre ".to_string(),
        memory: " 4096 ".to_string(),
        java_args: "  ".to_string(),
    }
}

fn profile(id: &str, name: &str) -> LauncherProfile {
    let mut profile = LauncherProfile::default_with_version(id.to_string(), "1.21.4".to_string());
    profile.name = name.to_string();
    profile
}

#[test]
fn profile_is_created_from_the_form() {
    let versions = texts(&["1.21.4", "1.20"]);
    let mut profiles = vec![profile("a", "Default")];
    let name = create_profile(&mut profiles, &versions, &form(" Pack "), "b".to_string()).unwrap();
    assert_eq!(name, "Pack");
    let made = &profiles[1];
    assert_eq!((made.id.as_str(), made.name.as_str()), ("b", "Pack"));
    assert_eq!(made.loader, ProfileLoader::Fabric);
    assert_eq!(made.loader_version, ProfileLoaderVersion::Exact("0.16".to_string()));
    assert_eq!(made.color_hex.as_deref(), Some("#7C5CFF"));
    assert_eq!(made.java_binary.as_deref(), Some("/jre"));
    assert_eq!(made.java_memory_mb, Some(4096));
    assert_eq!(made.java_args, None);
    assert!(!made.java_auto_download);
    assert_eq!(
        create_profile(&mut profiles, &versions, &form(""), "c".to_string()).unwrap(),
        "Profile 3"
    );
}

#[test]
fn creation_is_refused_with_a_reason() {
    let versions = texts(&["1.21.4"]);
    let mut profiles = vec![profile("a", "Pack")];
    let mut refuse = |versions: &Vec<String>, form: &ProfileForm| {
        create_profile(&mut profiles, versions, form, "b".to_string()).unwrap_err()
    };
    assert_eq!(refuse(&Vec::new(), &form("New")), EditError::NoVersions);
    assert_eq!(refuse(&versions, &form("pACK")), EditError::NameExists);
    let mut exact = form("New");
    exact.exact_version = " ".to_string();
    assert_eq!(refuse(&versions, &exact), EditError::ExactVersionMissing);
    let mut color = form("New");
    color.color_hex = "#12345G".to_string();
    assert_eq!(refuse(&versions, &color), EditError::InvalidColor);
    let mut memory = form("New");
    memory.memory = "4 GB".to_string();
    assert_eq!(refuse(&versions, &memory), EditError::InvalidMemory);
    assert_eq!(EditError::NameExists.message(), "Profile name already exists");
    assert_eq!(EditError::InvalidColor.message(), "Custom color must be hex like #7C5CFF");
    assert_eq!(profiles.len(), 1);
}

#[test]
fn saving_keeps_the_identity() {
    let versions = texts(&["1.21.4"]);
    let mut profiles = vec![profile("a", "One"), profile("b", "Two")];
    assert_eq!(save_profile(&mut profiles, &versions, &form("Renamed"), 1).unwrap(), "Renamed");
    assert_eq!(profiles[1].id, "b");
    assert_eq!(profiles[1].name, "Renamed");
    assert_eq!(profiles[0], profile("a", "One"));
    assert_eq!(
        save_profile(&mut profiles, &versions, &form("one"), 1),
        Err(EditError::NameTaken)
    );
    assert_eq!(save_profile(&mut profiles, &versions, &form("RENAMED"), 1).unwrap(), "RENAMED");
    assert_eq!(
        save_profile(&mut profiles, &versions, &form("  "), 1),
        Err(EditError::NameEmpty)
    );
    assert_eq!(
        save_profile(&mut profiles, &versions, &form("X"), 2),
        Err(EditError::NoSelection)
    );
    let mut unselected = form("X");
    unselected.version = None;
    assert_eq!(
        save_profile(&mut profiles, &Vec::new(), &unselected, 0),
        Err(EditError::NoVersionSelected)
    );
}

#[test]
fn last_profile_stays() {
    let mut profiles = vec![profile("a", "One"), profile("b", "Two")];
    assert_eq!(delete_profile(&mut profiles, 2), Err(EditError::NoSelection));
    assert_eq!(delete_profile(&mut profiles, 0), Ok(()));
    assert_eq!(profiles, vec![profile("b", "Two")]);
    assert_eq!(delete_profile(&mut profiles, 0), Err(EditError::LastProfile));
}

#[test]
fn unchanged_form_keeps_the_profile() {
    let versions = texts(&["1.20", "1.21.4"]);
    let mut profiles = vec![profile("z", "Zero")];
    create_profile(&mut profiles, &versions, &form("Pack"), "b".to_string()).unwrap();
    let before = profiles[1].clone();
    let fields = editor_fields(&profiles[1], &versions);
    assert_eq!(fields.version_index, Some(1));
    assert!(fields.exact_sensitive && fields.mode_sensitive && fields.color_sensitive);
    let shown = ProfileForm {
        name: fields.name,
        version: fields.version_index.map(|at| versions[at].clone()),
        loader_index: fields.loader_index,
        mode_index: fields.mode_index,
        exact_version: fields.exact_version,
        color_mode_index: fields.color_mode_index,
        color_hex: fields.color_hex,
        java_policy_index: fields.java_policy_index,
        java_binary: fields.java_binary,
        memory: fields.memory,
        java_args: fields.java_args,
    };
    save_profile(&mut profiles, &versions, &shown, 1).unwrap();
    assert_eq!(profiles[1], before);
}

#[test]
fn selection_lets_an_exact_version_be_changed() {
    let versions = texts(&["1.20", "1.21.4"]);
    let mut shown = profile("a", "One");
    shown.loader = ProfileLoader::Vanilla;
    shown.loader_version = ProfileLoaderVersion::Exact("0.16".to_string());
    shown.java_memory_mb = Some(2048);
    let refreshed = editor_fields(&shown, &versions);
    assert!(!refreshed.exact_sensitive && !refreshed.mode_sensitive);
    let selected = selected_fields(&shown, &versions);
    assert!(selected.exact_sensitive);
    assert_eq!(selected.name, "One");
    assert_eq!(selected.version_index, Some(1));
    assert_eq!((selected.loader_index, selected.mode_index), (0, 2));
    assert_eq!(selected.exact_version, "0.16");
    assert_eq!(selected.java_policy_index, 0);
    assert_eq!(selected.memory, "2048");
    assert_eq!((selected.java_binary.as_str(), selected.java_args.as_str()), ("", ""));
    shown.loader_version = ProfileLoaderVersion::Latest;
    let selected = selected_fields(&shown, &versions);
    assert!(!selected.exact_sensitive);
    assert_eq!(selected.exact_version, "");
    assert_eq!(selected_fields(&shown, &Vec::new()).version_index, None);
}

#[test]
fn edits_keep_the_list_valid() {
    let versions = texts(&["1.21.4"]);
    let mut profiles = vec![profile("a", "One")];
    let names = |profiles: &[LauncherProfile]| -> Vec<String> {
        profiles.iter().map(|profile| profile.name.clone()).collect()
    };
    assert_eq!(delete_profile(&mut profiles, 0), Err(EditError::LastProfile));
    create_profile(&mut profiles, &versions, &form(" "), "b".to_string()).unwrap();
    assert_eq!(names(&profiles), texts(&["One", "Profile 2"]));
    assert_eq!(
        create_profile(&mut profiles, &versions, &form("ONE"), "c".to_string()),
        Err(EditError::NameExists)
    );
    assert_eq!(
        save_profile(&mut profiles, &versions, &form("profile 2"), 0),
        Err(EditError::NameTaken)
    );
    assert_eq!(
        save_profile(&mut profiles, &versions, &form(""), 0),
        Err(EditError::NameEmpty)
    );
    assert_eq!(names(&profiles), texts(&["One", "Profile 2"]));
    delete_profile(&mut profiles, 0).unwrap();
    assert_eq!(delete_profile(&mut profiles, 0), Err(EditError::LastProfile));
    assert_eq!(names(&profiles), texts(&["Profile 2"]));
}

#[test]
fn models_follow_the_profiles() {
    let versions = texts(&["1.21.4"]);
    let models = refresh_profile_models(&Vec::new(), &versions, None);
    assert_eq!(models.names, texts(&["No profiles"]));
    assert!(models.fields.is_none() && models.can_create && !models.can_save);
    let profiles = vec![profile("a", "One"), profile("b", "Two")];
    let models = refresh_profile_models(&profiles, &Vec::new(), Some("Two"));
    assert_eq!(models.names, texts(&["One", "Two"]));
    assert_eq!(models.selected, 1);
    assert!(!models.can_create && models.can_save && models.can_delete);
    let fields = models.fields.unwrap();
    assert_eq!(fields.version_index, None);
    assert_eq!(fields.name, "Two");
    assert_eq!(refresh_profile_models(&profiles, &versions, Some("Gone")).selected, 0);
}

#[test]
fn fields_follow_each_other() {
    let change = exact_field_after_mode(1, 2);
    assert!(change.sensitive && !change.cleared);
    let change = exact_field_after_mode(0, 2);
    assert!(!change.sensitive && !change.cleared);
    assert!(exact_field_after_mode(1, 0).cleared);
    assert!(exact_field_after_loader(0, 2).cleared);
    assert!(exact_field_after_loader(3, 2).sensitive);
    assert!(color_field_after_mode(1).sensitive);
    assert!(color_field_after_mode(0).cleared);
}

#[test]
fn colors_have_one_form() {
    assert_eq!(normalize_hex_color(" #7c5cff ").as_deref(), Some("#7C5CFF"));
    assert_eq!(normalize_hex_color("#7C5CFF").as_deref(), Some("#7C5CFF"));
    assert_eq!(normalize_hex_color("##7C5CF"), None);
    assert_eq!(normalize_hex_color("7C5CF"), None);
    assert_eq!(hex_to_rgb("7c5cff"), Some((0x7c, 0x5c, 0xff)));
    assert_eq!(hex_to_rgb("red"), None);
    assert_eq!(automatic_hue(""), 0);
    assert_eq!(automatic_hue("ab"), (97 * 31 + 98) % 360);
    let mut colored = profile("a", "ab");
    assert_eq!(card_color(&colored), CardColor::Hue((97 * 31 + 98) % 360));
    colored.color_mode = ProfileColorMode::Custom;
    colored.color_hex = Some("#010203".to_string());
    assert_eq!(card_color(&colored), CardColor::Rgb(1, 2, 3));
    colored.color_hex = Some("none".to_string());
    assert_eq!(card_color(&colored), CardColor::Hue((97 * 31 + 98) % 360));
}

#[test]
fn loaders_are_listed() {
    for index in 0..5 {
        assert_eq!(index_from_loader(&loader_from_index(index)), index);
    }
    assert_eq!(loader_from_index(9), ProfileLoader::Vanilla);
    let exact = ProfileLoaderVersion::Exact("1".to_string());
    assert_eq!(loader_version_mode_index(&exact), 2);
    assert_eq!(loader_version_from_mode_and_text(2, " 1 "), Some(exact));
    assert_eq!(loader_version_from_mode_and_text(2, " "), None);
    assert_eq!(
        loader_version_from_mode_and_text(7, ""),
        Some(ProfileLoaderVersion::LatestStable)
    );
    assert_eq!(parse_optional_u32(" 12 "), Some(12));
    assert_eq!(parse_optional_u32("+12"), Some(12));
    assert_eq!(parse_optional_u32("4294967296"), None);
    assert_eq!(normalize_optional_text(" a "), Some("a".to_string()));
    assert_eq!(normalize_optional_text("  "), None);
}

#[test]
fn releases_are_kept() {
    let entry = |id: &str, version_type: &str| VersionEntry {
        id: id.to_string(),
        version_type: version_type.to_string(),
    };
    let list = vec![entry("1.21.4", "release"), entry("24w1a", "snapshot"), entry("1.0", "release")];
    assert_eq!(release_versions(&list), texts(&["1.21.4", "1.0"]));
}

fn show(actions: &[UiAction]) -> Vec<String> {
    actions.iter().map(|action| format!("{action:?}")).collect()
}

#[test]
fn versions_bring_profiles_up() {
    let mut state = UiState::new();
    let actions = state.dispatch(AppEvent::versions_loaded(Vec::new()), String::new());
    assert_eq!(show(&actions), vec!["Status(\"No versions available\")"]);
    let actions = state.dispatch(
        AppEvent::versions_loaded(texts(&["1.21.4", "1.20"])),
        "profile-1-0".to_string(),
    );
    assert_eq!(state.profiles[0].id, "profile-1-0");
    assert_eq!(state.profiles[0].name, "Default");
    assert_eq!(
        show(&actions),
        vec![
            "SaveProfiles(\"[WARN] Failed writing default profile to disk: \")",
            "RefreshProfiles(\"Default\")",
            "Status(\"2 versions available\")",
        ]
    );
    let actions = state.dispatch(AppEvent::versions_loaded(texts(&["1.22"])), String::new());
    assert_eq!(state.profiles.len(), 1);
    assert_eq!(state.profiles[0].version_id, "1.22");
    assert_eq!(
        show(&actions)[0],
        "Log(\"[WARN] Profile 'Default' used unsupported version '1.21.4'; migrated to '1.22'\")"
    );
    assert_eq!(
        show(&actions)[1],
        "SaveProfiles(\"[WARN] Failed saving migrated profiles: \")"
    );
    let actions = state.dispatch(AppEvent::versions_loaded(texts(&["1.22"])), String::new());
    assert_eq!(actions.len(), 2);
}

#[test]
fn games_are_started_and_end() {
    let mut state = UiState::new();
    state.profiles = vec![profile("a", "One"), profile("b", "Two")];
    state.versions = texts(&["1.21.4"]);
    assert!(matches!(state.play(0), PlayDecision::Ignore));
    state.offline_login("Alex");
    assert!(matches!(state.play(2), PlayDecision::Ignore));
    assert!(state.can_play());
    assert!(matches!(
        state.play(0),
        PlayDecision::Launch { at: 0, java_policy: JavaInstallPolicy::Auto, .. }
    ));
    assert!(!state.can_play());
    let actions = state.dispatch(AppEvent::launch_ready("a".to_string()), String::new());
    assert_eq!(
        show(&actions),
        vec!["Status(\"Game Running\")", "Play(true)", "ShowProgress(false)"]
    );
    state.profiles[1].java_auto_download = false;
    assert!(matches!(
        state.play(1),
        PlayDecision::Launch { at: 1, java_policy: JavaInstallPolicy::Never, .. }
    ));
    state.dispatch(AppEvent::launch_ready("b".to_string()), String::new());
    let actions = state.dispatch(AppEvent::launch_finished("a".to_string()), String::new());
    assert_eq!(show(&actions)[0], "Status(\"Game Running\")");
    let actions = state.dispatch(
        AppEvent::launch_failed("b".to_string(), "crash".to_string()),
        String::new(),
    );
    assert_eq!(
        show(&actions),
        vec![
            "Log(\"[ERROR] crash\")",
            "Status(\"Execution Error!\")",
            "Play(true)",
            "ShowProgress(false)",
        ]
    );
    state.versions = Vec::new();
    match state.play(0) {
        PlayDecision::Refuse(error) => assert_eq!(
            error,
            "Profile 'One' references unsupported Minecraft version '1.21.4'. Open Profile Editor and choose a valid version."
        ),
        other => panic!("{other:?}"),
    }
}

#[test]
fn second_launch_of_a_running_profile_leaves_the_game_running() {
    let mut state = UiState::new();
    state.session = Some(Session::Offline { username: "Alex".to_string() });
    state.versions = texts(&["1.21.4"]);
    state.profiles = vec![profile("a", "First")];
    state.play(0);
    state.dispatch(AppEvent::launch_ready("a".to_string()), String::new());
    state.play(0);
    let actions = state.dispatch(
        AppEvent::launch_failed("a".to_string(), "locked".to_string()),
        String::new(),
    );
    assert_eq!(show(&actions)[1], "Status(\"Game Running\")");
    assert_eq!(state.running, texts(&["a"]));
    assert!(state.starting.is_empty());
    let actions = state.dispatch(AppEvent::launch_finished("a".to_string()), String::new());
    assert_eq!(show(&actions)[0], "Status(\"Game Closed / Task Completed\")");
    assert!(state.running.is_empty());
}

#[test]
fn players_sign_in_and_out() {
    let mut state = UiState::new();
    assert_eq!(
        show(&state.offline_login("  ")),
        vec!["Account(\"Enter a username to sign in\")"]
    );
    let actions = state.offline_login(" Alex ");
    assert_eq!(show(&actions)[0], "Welcome(\"Hello, Alex\")");
    assert_eq!(state.session, Some(Session::Offline { username: "Alex".to_string() }));
    assert_eq!(show(&actions)[3], "Play(false)");
    state.profiles = vec![profile("a", "One")];
    state.versions = texts(&["1.21.4"]);
    state.play(0);
    assert_eq!(show(&state.offline_login("Alex"))[3], "Play(true)");
    let actions = state.sign_out();
    assert_eq!(state.session, None);
    assert_eq!(actions.len(), 9);
    let actions = state.dispatch(
        AppEvent::auth_success(
            "Alex".to_string(),
            "u".to_string(),
            "t".to_string(),
            "r".to_string(),
        ),
        String::new(),
    );
    assert_eq!(show(&actions)[1], "Account(\"Signed in with Microsoft as Alex\")");
    let actions = state.dispatch(AppEvent::auth_failed("no".to_string()), String::new());
    assert_eq!(show(&actions)[0], "Status(\"Microsoft sign-in failed\")");
    assert_eq!(microsoft_login(Some("  ".to_string())).len(), 3);
    assert_eq!(
        show(&microsoft_login(Some("id".to_string()))),
        vec!["MicrosoftLogin(false)", "StartLogin(\"id\")"]
    );
    assert_eq!(restore_at_start("id".to_string(), Ok(Some("t".to_string()))).len(), 3);
    assert!(restore_at_start("id".to_string(), Ok(None)).is_empty());
    assert_eq!(
        show(&restore_at_start("id".to_string(), Err("x".to_string()))),
        vec!["Log(\"[WARN] Could not read keyring token: x\")"]
    );
}

#[test]
fn content_events_are_shown() {
    let mut state = UiState::new();
    let card = DiscoveryCardData {
        project_id: "p".to_string(),
        title: "T".to_string(),
        description: "D".to_string(),
    };
    let actions = state.dispatch(
        AppEvent::discovery_search_results(DiscoveryKind::Mods, "q".to_string(), vec![card]),
        String::new(),
    );
    assert!(show(&actions)[1].contains("1 result(s) for 'q'"));
    let actions = state.dispatch(
        AppEvent::discovery_search_failed(DiscoveryKind::Shaders, "x".to_string()),
        String::new(),
    );
    assert!(show(&actions)[0].contains("Modrinth search failed for shaders"));
    assert_eq!(show(&actions)[1], "Log(\"[ERROR] Shaders search failed: x\")");
    let actions = state.dispatch(
        AppEvent::discovery_install_finished(
            DiscoveryKind::Mods,
            "T".to_string(),
            "/m/t.jar".to_string(),
        ),
        String::new(),
    );
    assert_eq!(
        show(&actions),
        vec![
            "Status(\"Mods installed\")",
            "Log(\"Installed 'T' to /m/t.jar\")",
            "RefreshInstalled(Mods)",
        ]
    );
    let actions = state.dispatch(
        AppEvent::discovery_failed(DiscoveryKind::Mods, "x".to_string()),
        String::new(),
    );
    assert_eq!(show(&actions), vec!["Status(\"Execution Error!\")", "Log(\"[ERROR] x\")"]);
    let actions = state.dispatch(
        AppEvent::discovery_installed_changed(DiscoveryKind::Shaders),
        String::new(),
    );
    assert_eq!(show(&actions), vec!["RefreshInstalled(Shaders)"]);
    let actions = state.dispatch(AppEvent::versions_failed("x".to_string()), String::new());
    assert_eq!(show(&actions), vec!["Status(\"Execution Error!\")", "Log(\"[ERROR] x\")"]);
}

#[test]
fn searches_need_a_query_and_a_loader() {
    let vanilla = profile("a", "One");
    let mut fabric = profile("b", "Two");
    fabric.loader = ProfileLoader::Fabric;
    let decide = |kind, query, profile| search_decision(kind, query, profile);
    assert_eq!(decide(DiscoveryKind::Mods, " ", Some(&fabric)), SearchDecision::EmptyQuery);
    assert_eq!(decide(DiscoveryKind::Mods, "q", None), SearchDecision::NoProfile);
    let refused = decide(DiscoveryKind::Mods, "q", Some(&vanilla));
    assert_eq!(refused, SearchDecision::NoLoader);
    assert_eq!(
        search_label(&refused),
        "Selected profile uses Vanilla loader: mods are incompatible"
    );
    let search = SearchDecision::Search("q".to_string());
    assert_eq!(decide(DiscoveryKind::Mods, " q ", Some(&fabric)), search);
    assert_eq!(decide(DiscoveryKind::Shaders, "q", None), search);
    assert_eq!(search_label(&search), "Searching Modrinth…");
}

#[test]
fn labels_are_filled() {
    assert_eq!(card_subtitle(&profile("a", "One")), "1.21.4 • Vanilla • LatestStable");
    assert_eq!(
        installed_label(DiscoveryKind::Mods, Some("One"), Some(3)),
        "Installed mods for One: 3"
    );
    assert_eq!(
        installed_label(DiscoveryKind::Shaders, None, None),
        "Installed shaderpacks for this profile"
    );
    assert_eq!(
        installed_label(DiscoveryKind::Shaders, Some("One"), None),
        "Installed shaders unavailable"
    );
    assert_eq!(tab_scroll_height(100), 220);
    assert_eq!(tab_scroll_height(614), 444);
    assert_eq!(tab_scroll_height(4000), 900);
}
