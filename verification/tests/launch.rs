use lucent_launcher::command::{Account, LaunchCommand, LibraryEntry};
use lucent_launcher::forge::{
    configured_java, forge_installer_path, forge_java, resolve_latest_forge_version_for_minecraft, ForgeAction,
    ForgeReply, ForgeRun,
};
use lucent_launcher::launch::{
    install_lock_path, is_game_ready_line, profile_launch_options, profile_lock_path, GameOutput,
    JavaInstallPolicy, LaunchAction, LaunchReply, LaunchService,
};
use lucent_launcher::maven::{
    ensure_maven_fallback_libraries_present, maven_artifact_relative_path, missing_library_line,
};
use lucent_launcher::messages::{AppEvent, LaunchEvent};
use lucent_launcher::profile::{LauncherProfile, ProfileLoader, ProfileLoaderVersion};
use lucent_launcher::repair::ModRepairSummary;
use lucent_launcher::runtime::{apply_profile_runtime_jvm_overrides, parse_extra_jvm_arguments};
use lucent_launcher::session::Session;
use lucent_launcher::signin::SignedIn;

fn texts(list: &[&str]) -> Vec<String> {
    list.iter().map(|text| text.to_string()).collect()
}

#[test]
fn heap_limit_is_replaced_before_the_main_class() {
    let mut args = texts(&["-Xmx2G", "-cp", "x", "game.Main", "-Xmx1G"]);
    let added = apply_profile_runtime_jvm_overrides(
        &mut args,
        Some("game.Main"),
        Some(4096),
        Some(" -Da=b   -Dc "),
    );
    assert_eq!(added, 3);
    assert_eq!(
        args,
        texts(&["-cp", "x", "-Xmx4096M", "-Da=b", "-Dc", "game.Main", "-Xmx1G"])
    );
}

#[test]
fn overrides_without_settings_change_nothing() {
    let mut args = texts(&["-Xmx2G", "game.Main"]);
    assert_eq!(
        apply_profile_runtime_jvm_overrides(&mut args, Some("game.Main"), Some(0), Some("  ")),
        0
    );
    assert_eq!(args, texts(&["-Xmx2G", "game.Main"]));
    assert_eq!(
        apply_profile_runtime_jvm_overrides(&mut args, Some("game.Main"), Some(0), Some("-Da")),
        1
    );
    assert_eq!(args, texts(&["-Da", "game.Main"]));
    assert_eq!(apply_profile_runtime_jvm_overrides(&mut args, None, None, Some("-Db")), 1);
    assert_eq!(args, texts(&["-Da", "game.Main", "-Db"]));
    assert!(parse_extra_jvm_arguments(None).is_empty());
}

#[test]
fn maven_coordinates_are_paths() {
    assert_eq!(
        maven_artifact_relative_path("org.ow2.asm:asm:9.6").as_deref(),
        Some("org/ow2/asm/asm/9.6/asm-9.6.jar")
    );
    assert_eq!(
        maven_artifact_relative_path("a.b:c:1:natives").as_deref(),
        Some("a/b/c/1/c-1-natives.jar")
    );
    assert_eq!(maven_artifact_relative_path("a:b"), None);
    assert_eq!(maven_artifact_relative_path("a:b:c:d:e"), None);
}

#[test]
fn libraries_without_a_download_are_fetched() {
    let library = |name: &str, artifact: bool, natives: bool, url: Option<&str>| LibraryEntry {
        name: name.to_string(),
        has_artifact: artifact,
        has_natives: natives,
        url: url.map(str::to_string),
    };
    let libraries = vec![
        library("a:b:1", true, false, None),
        library("a:b:2", false, true, None),
        library("broken", false, false, None),
        library("a:b:3", false, false, None),
        library("a:b:4", false, false, Some("https://maven.example")),
    ];
    let found = ensure_maven_fallback_libraries_present(&libraries, "/mc");
    assert_eq!(found.len(), 2);
    assert_eq!(found[0].name, "a:b:3");
    assert_eq!(found[0].destination, "/mc/libraries/a/b/3/b-3.jar");
    assert_eq!(found[0].url, "https://libraries.minecraft.net/a/b/3/b-3.jar");
    assert_eq!(found[1].url, "https://maven.example/a/b/4/b-4.jar");
    assert_eq!(missing_library_line("a:b:3"), "Downloading missing library: a:b:3");
}

#[test]
fn latest_forge_belongs_to_the_game() {
    let versions = texts(&["1.20.1-47.0", "1.20.1-47.1", "1.20-46.0"]);
    assert_eq!(
        resolve_latest_forge_version_for_minecraft(&versions, "1.20.1").unwrap(),
        "1.20.1-47.1"
    );
    assert_eq!(
        resolve_latest_forge_version_for_minecraft(&versions, "1.20").unwrap(),
        "1.20-46.0"
    );
    assert_eq!(
        resolve_latest_forge_version_for_minecraft(&versions, "1.2").unwrap_err(),
        "No Forge versions found for Minecraft 1.2. Choose Exact loader version or a different Minecraft version."
    );
}

#[test]
fn forge_is_installed_by_its_installer() {
    let (mut run, actions) = ForgeRun::start(
        "1.8.9".to_string(),
        "1.8.9-11".to_string(),
        "/mc".to_string(),
        "/path/to/binary".to_string(),
    );
    assert_eq!(actions, vec![ForgeAction::InstallBase("1.8.9".to_string())]);
    assert_eq!(run.step(ForgeReply::Done), vec![ForgeAction::EnsureProfileFile]);
    let actions = run.step(ForgeReply::Done);
    let path = "/mc/installers/forge-1.8.9-11-installer.jar";
    assert_eq!(actions[1], ForgeAction::FindInstaller(path.to_string()));
    let actions = run.step(ForgeReply::Installer { exists: false, url: "https://f".to_string() });
    assert_eq!(
        actions[1],
        ForgeAction::Download { url: "https://f".to_string(), target: path.to_string() }
    );
    let actions = run.step(ForgeReply::Done);
    assert_eq!(
        actions[0],
        ForgeAction::Log("Running Forge installer with Java 'java'".to_string())
    );
    assert_eq!(actions.len(), 3);
    assert_eq!(actions[2], ForgeAction::ProbeJava("java".to_string()));
    let actions = run.step(ForgeReply::Failed("no java".to_string()));
    assert_eq!(
        actions,
        vec![ForgeAction::RunInstaller {
            java: "java".to_string(),
            args: texts(&["-jar", path, "--installClient", "/mc"]),
        }]
    );
    run.step(ForgeReply::Exited { success: false, status: "exit status: 1".to_string() });
    assert_eq!(
        run.outcome(),
        Some(Err(
            "Forge installer exited with status exit status: 1. For older Forge (1.7/1.8), configure Java 8 in Profile Editor > Runtime Settings."
                .to_string()
        ))
    );
}

#[test]
fn forge_installer_that_is_there_is_used() {
    let (mut run, _) = ForgeRun::start(
        "1.20.1".to_string(),
        "1.20.1-47".to_string(),
        "/mc".to_string(),
        "/opt/java".to_string(),
    );
    run.step(ForgeReply::Done);
    run.step(ForgeReply::Done);
    let actions = run.step(ForgeReply::Installer { exists: true, url: "https://f".to_string() });
    assert_eq!(actions.len(), 2);
    run.step(ForgeReply::Done);
    let actions = run.step(ForgeReply::Exited { success: true, status: String::new() });
    assert_eq!(actions, vec![ForgeAction::ResolveInstalled("1.20.1-47".to_string())]);
    run.step(ForgeReply::Installed("1.20.1-forge-47".to_string()));
    assert_eq!(run.outcome(), Some(Ok("1.20.1-forge-47".to_string())));
    assert_eq!(forge_java(""), "java");
    assert_eq!(forge_java("/opt/java"), "/opt/java");
    assert_eq!(forge_java("/path/to/binary"), "java");
    assert_eq!(configured_java(""), None);
    assert_eq!(configured_java("/path/to/binary"), None);
    assert_eq!(configured_java("/opt/java"), Some("/opt/java".to_string()));
    assert_eq!(
        forge_installer_path("/mc", "x"),
        "/mc/installers/forge-x-installer.jar"
    );
}

#[test]
fn readiness_is_read_from_the_output() {
    assert!(is_game_ready_line("[Render thread/INFO]: Backend library: LWJGL 3.3"));
    assert!(is_game_ready_line("OpenGL Version 4.6"));
    assert!(is_game_ready_line("Sound engine started"));
    assert!(!is_game_ready_line("Loading tweak class"));
}

#[test]
fn game_is_ready_once() {
    let mut output = GameOutput::new();
    let events = output.forward_process_line("starting".to_string(), None, "p");
    assert_eq!(events.len(), 1);
    let events = output.forward_process_line("OpenGL version 4".to_string(), Some("[stderr] "), "p");
    assert!(matches!(&events[0], AppEvent::Launch(LaunchEvent::Ready { profile_id })
        if profile_id == "p"));
    assert!(matches!(&events[1], AppEvent::Log(line) if line == "[stderr] OpenGL version 4"));
    let events = output.forward_process_line("Sound engine started".to_string(), None, "p");
    assert_eq!(events.len(), 1);
}

fn profile(loader: ProfileLoader, version: ProfileLoaderVersion) -> LauncherProfile {
    let mut profile = LauncherProfile::default_with_version("p-1".to_string(), "1.21.4".to_string());
    profile.name = "Pack".to_string();
    profile.loader = loader;
    profile.loader_version = version;
    profile
}

fn offline() -> Session {
    Session::Offline { username: "Alex".to_string() }
}

fn failure(actions: &[LaunchAction]) -> (&str, &str) {
    match actions.last() {
        Some(LaunchAction::Send(AppEvent::Launch(LaunchEvent::Failed { profile_id, error }))) => {
            (profile_id, error)
        }
        other => panic!("{other:?}"),
    }
}

/// Goes from the lock of the profile to the lock of the installation.
fn up_to_installation(service: &mut LaunchService) -> Vec<LaunchAction> {
    let actions = service.step(LaunchReply::Done);
    assert!(matches!(actions[2], LaunchAction::ResolveJava));
    let actions = service.step(LaunchReply::Java(None));
    assert!(matches!(actions[1], LaunchAction::ResolveGameRoot));
    let actions = service.step(LaunchReply::Done);
    assert!(matches!(actions[1], LaunchAction::LockInstallation));
    service.step(LaunchReply::Done)
}

/// Goes from the installation to the launch command.
fn up_to_command(service: &mut LaunchService) -> Vec<LaunchAction> {
    let actions = service.step(LaunchReply::Version("1.21.4".to_string()));
    assert!(matches!(&actions[2], LaunchAction::LoadVersion(id) if id == "1.21.4"));
    service.step(LaunchReply::Loaded { main_class: Some("game.Main".to_string()) });
    service.step(LaunchReply::Done);
    service.step(LaunchReply::Directory("/g".to_string()));
    let summary = ModRepairSummary {
        checked: 2,
        updated: 1,
        disabled: 0,
        unknown: 1,
        disabled_mods: Vec::new(),
    };
    let actions = service.step(LaunchReply::Repaired(summary));
    assert!(matches!(&actions[0], LaunchAction::Send(AppEvent::Log(line))
        if line == "Auto-repair summary: checked=2, updated=1, disabled=0, unknown=1"));
    assert!(matches!(&actions[1], LaunchAction::CountContent { mods, shaders }
        if mods == "/g/mods" && shaders == "/g/shaderpacks"));
    service.step(LaunchReply::Counted { mods: 3, shaders: 0 })
}

fn launch(profile: LauncherProfile, session: Session) -> (LaunchService, Vec<LaunchAction>) {
    LaunchService::run(profile, session, String::new(), JavaInstallPolicy::Auto)
}

#[test]
fn launch_runs_to_the_end() {
    let mut chosen = profile(ProfileLoader::Fabric, ProfileLoaderVersion::Latest);
    chosen.java_memory_mb = Some(2048);
    let (mut service, actions) = launch(chosen, offline());
    assert!(matches!(&actions[0], LaunchAction::LockProfile(busy)
        if busy == "Profile 'Pack' is already running in another launcher instance."));
    let actions = up_to_installation(&mut service);
    match &actions[1] {
        LaunchAction::Install { minecraft_version, loader: Some(loader), java } => {
            assert_eq!(minecraft_version, "1.21.4");
            assert_eq!(*java, JavaInstallPolicy::Auto);
            assert_eq!(loader.loader, ProfileLoader::Fabric);
            assert_eq!(loader.version, ProfileLoaderVersion::Latest);
        }
        other => panic!("{other:?}"),
    }
    let actions = up_to_command(&mut service);
    assert!(matches!(&actions[1], LaunchAction::Send(AppEvent::Log(line))
        if line == "Profile content: 3 enabled mod(s), 0 enabled shaderpack(s)"));
    assert!(matches!(&actions[2], LaunchAction::EnsureJava(id) if id == "1.21.4"));
    let actions = service.step(LaunchReply::Java(None));
    assert!(matches!(actions[1], LaunchAction::DiscoverJava));
    let actions = service.step(LaunchReply::Java(Some("/usr/bin/java".to_string())));
    assert!(matches!(&actions[0], LaunchAction::BuildCommand { java, .. }
        if java.as_deref() == Some("/usr/bin/java")));
    let command = LaunchCommand {
        executable: "java".to_string(),
        args: texts(&["-cp", "/l/libraries/a/b/1/b-1.jar:/l/libraries/a/b/2/b-2.jar", "game.Main"]),
        working_dir: "/g".to_string(),
        env: Vec::new(),
    };
    let actions = service.step(LaunchReply::Command(command));
    assert!(matches!(&actions[0], LaunchAction::Send(AppEvent::Log(line))
        if line == "Applied 1 profile JVM override argument(s)"));
    assert!(matches!(&actions[1], LaunchAction::Send(AppEvent::Log(line))
        if line == "Deduplicated 1 conflicting library entries from classpath"));
    assert!(matches!(actions[5], LaunchAction::ReleaseInstallation));
    assert!(matches!(&actions[6], LaunchAction::Spawn(exe) if exe == "java"));
    assert_eq!(
        service.command().unwrap().args,
        texts(&["-cp", "/l/libraries/a/b/2/b-2.jar", "-Xmx2048M", "game.Main"])
    );
    let actions =
        service.step(LaunchReply::SpawnFailed { not_found: true, error: "none".to_string() });
    assert!(matches!(&actions[1], LaunchAction::Spawn(exe) if exe == "/usr/bin/java"));
    let actions = service.step(LaunchReply::Done);
    assert!(matches!(&actions[0], LaunchAction::Send(AppEvent::StatusUpdate(status))
        if status == "Waiting for Minecraft to initialize…"));
    assert!(matches!(actions[1], LaunchAction::Watch));
    let actions = service.step(LaunchReply::Exited { success: true, status: String::new() });
    assert!(matches!(
        &actions[0],
        LaunchAction::Send(AppEvent::Launch(LaunchEvent::Finished { profile_id }))
            if profile_id == "p-1"
    ));
    assert!(service.step(LaunchReply::Done).is_empty());
}

#[test]
fn installation_keeps_to_the_java_policy() {
    let chosen = profile(ProfileLoader::Vanilla, ProfileLoaderVersion::LatestStable);
    let (mut service, _) = LaunchService::run(
        chosen,
        offline(),
        String::new(),
        JavaInstallPolicy::Never,
    );
    let actions = up_to_installation(&mut service);
    assert!(matches!(
        &actions[1],
        LaunchAction::Install { java: JavaInstallPolicy::Never, .. }
    ));
}

#[test]
fn busy_profile_is_not_launched() {
    let chosen = profile(ProfileLoader::Vanilla, ProfileLoaderVersion::LatestStable);
    let (mut service, actions) = launch(chosen, offline());
    assert_eq!(actions.len(), 1);
    let actions = service.step(LaunchReply::Failed("taken".to_string()));
    assert_eq!(actions.len(), 1);
    assert_eq!(failure(&actions), ("p-1", "taken"));
    assert!(service.step(LaunchReply::Done).is_empty());
}

#[test]
fn launch_does_not_go_back() {
    let chosen = profile(ProfileLoader::Vanilla, ProfileLoaderVersion::LatestStable);
    let (mut service, _) = launch(chosen, offline());
    let actions = up_to_installation(&mut service);
    assert!(matches!(&actions[1], LaunchAction::Install { loader: None, .. }));
    assert!(service.step(LaunchReply::Done).is_empty());
    assert!(service.step(LaunchReply::Java(None)).is_empty());
    let actions = service.step(LaunchReply::Version("1.21.4".to_string()));
    assert!(matches!(&actions[2], LaunchAction::LoadVersion(_)));
}

#[test]
fn same_executable_is_not_tried_again() {
    let chosen = profile(ProfileLoader::Vanilla, ProfileLoaderVersion::LatestStable);
    let (mut service, _) = launch(chosen, offline());
    up_to_installation(&mut service);
    up_to_command(&mut service);
    service.step(LaunchReply::Java(Some("/usr/bin//java".to_string())));
    service.step(LaunchReply::Command(LaunchCommand {
        executable: "/usr/bin/java".to_string(),
        args: Vec::new(),
        working_dir: "/g".to_string(),
        env: Vec::new(),
    }));
    let actions =
        service.step(LaunchReply::SpawnFailed { not_found: true, error: "gone".to_string() });
    assert!(failure(&actions).1.starts_with("Failed to spawn Java execution process: gone."));
}

#[test]
fn missing_executable_is_tried_once_more() {
    let chosen = profile(ProfileLoader::Vanilla, ProfileLoaderVersion::LatestStable);
    let (mut service, _) = launch(chosen, offline());
    let actions = up_to_installation(&mut service);
    assert!(matches!(&actions[1], LaunchAction::Install { loader: None, .. }));
    up_to_command(&mut service);
    service.step(LaunchReply::Java(Some("/jre".to_string())));
    service.step(LaunchReply::Command(LaunchCommand {
        executable: "java".to_string(),
        args: Vec::new(),
        working_dir: "/g".to_string(),
        env: Vec::new(),
    }));
    let gone = || LaunchReply::SpawnFailed { not_found: true, error: "gone".to_string() };
    assert_eq!(service.step(gone()).len(), 2);
    let actions = service.step(gone());
    assert_eq!(
        failure(&actions).1,
        "Failed to spawn Java execution process: gone. Configure a valid Java binary in Profile Editor > Runtime Settings, or keep Runtime Java policy on Auto to download a managed runtime."
    );
}

#[test]
fn disabled_mods_stop_the_launch() {
    let chosen = profile(ProfileLoader::Vanilla, ProfileLoaderVersion::LatestStable);
    let (mut service, _) = launch(chosen, offline());
    up_to_installation(&mut service);
    service.step(LaunchReply::Version("1.21.4".to_string()));
    service.step(LaunchReply::Loaded { main_class: None });
    service.step(LaunchReply::Done);
    service.step(LaunchReply::Directory("/g".to_string()));
    let actions = service.step(LaunchReply::Repaired(ModRepairSummary {
        checked: 2,
        updated: 0,
        disabled: 2,
        unknown: 0,
        disabled_mods: texts(&["a.jar.disabled", "b.jar.disabled"]),
    }));
    assert_eq!(
        failure(&actions),
        (
            "p-1",
            "Mod repair disabled incompatible mods with no compatible replacements for profile 'Pack': a.jar.disabled, b.jar.disabled"
        )
    );
}

#[test]
fn forge_goes_its_own_way() {
    let chosen = profile(ProfileLoader::Forge, ProfileLoaderVersion::LatestStable);
    let (mut service, _) = LaunchService::run(
        chosen,
        offline(),
        "/jdk".to_string(),
        JavaInstallPolicy::Auto,
    );
    let actions = up_to_installation(&mut service);
    assert!(matches!(&actions[0], LaunchAction::ResolveForge(version) if version == "1.21.4"));
    let actions = service.step(LaunchReply::Version("1.21.4-54".to_string()));
    match &actions[3] {
        LaunchAction::InstallForge { minecraft_version, forge_version, java, auto_download } => {
            assert_eq!(minecraft_version, "1.21.4");
            assert_eq!(forge_version, "1.21.4-54");
            assert_eq!(java, "/jdk");
            assert!(*auto_download);
        }
        other => panic!("{other:?}"),
    }
    let exact = profile(ProfileLoader::Forge, ProfileLoaderVersion::Exact("f".to_string()));
    let (mut service, _) = launch(exact, offline());
    let actions = up_to_installation(&mut service);
    assert!(matches!(&actions[2], LaunchAction::InstallForge { forge_version, .. }
        if forge_version == "f"));
    let actions = service.step(LaunchReply::Failed("broken".to_string()));
    assert_eq!(failure(&actions).1, "Installation pipeline aborted: broken");
}

#[test]
fn signed_in_session_is_renewed() {
    let session = Session::Microsoft {
        username: "Alex".to_string(),
        uuid: "u".to_string(),
        access_token: "old".to_string(),
        refresh_token: "r".to_string(),
    };
    let chosen = profile(ProfileLoader::Vanilla, ProfileLoaderVersion::LatestStable);
    let (mut service, _) = launch(chosen.clone(), session.clone());
    let actions = service.step(LaunchReply::Done);
    assert!(matches!(actions[0], LaunchAction::ReadClientId));
    let actions = service.step(LaunchReply::ClientId(Some("id".to_string())));
    assert!(matches!(&actions[1], LaunchAction::RefreshSession { client_id, refresh_token }
        if client_id == "id" && refresh_token == "r"));
    let actions = service.step(LaunchReply::SignedIn(SignedIn {
        username: "Alexa".to_string(),
        uuid: "u".to_string(),
        access_token: "new".to_string(),
        refresh_token: "r2".to_string(),
    }));
    assert!(matches!(&actions[0], LaunchAction::SaveToken(token) if token == "r2"));
    let actions = service.step(LaunchReply::Failed("locked".to_string()));
    assert!(matches!(&actions[2], LaunchAction::Send(AppEvent::Log(line))
        if line == "Initializing launch pipeline for user: Alexa (profile: Pack)"));
    let (mut service, _) = launch(chosen.clone(), session.clone());
    service.step(LaunchReply::Done);
    let actions = service.step(LaunchReply::ClientId(None));
    assert_eq!(actions.len(), 4);
    let (mut service, _) = launch(chosen, session);
    service.step(LaunchReply::Done);
    service.step(LaunchReply::ClientId(Some("id".to_string())));
    let actions = service.step(LaunchReply::Failed("revoked".to_string()));
    assert_eq!(failure(&actions).1, "Microsoft token refresh failed before launch: revoked");
}

#[test]
fn failures_name_their_stage() {
    let chosen = profile(ProfileLoader::Vanilla, ProfileLoaderVersion::LatestStable);
    let failed = || LaunchReply::Failed("x".to_string());
    let (mut service, _) = launch(chosen.clone(), offline());
    assert_eq!(failure(&service.step(failed())).1, "x");
    let (mut service, _) = launch(chosen.clone(), offline());
    service.step(LaunchReply::Done);
    assert_eq!(failure(&service.step(failed())).1, "Java configuration error: x");
    let (mut service, _) = launch(chosen.clone(), offline());
    up_to_installation(&mut service);
    service.step(LaunchReply::Version("v".to_string()));
    assert_eq!(
        failure(&service.step(failed())).1,
        "Failed loading version structural profile: x"
    );
    let (mut service, _) = launch(chosen, offline());
    up_to_installation(&mut service);
    up_to_command(&mut service);
    assert_eq!(failure(&service.step(failed())).1, "Java runtime auto-install failed: x");
}

#[test]
fn launch_options_take_the_session() {
    let options = profile_launch_options(offline(), "/g".to_string(), Some("/jre".to_string()));
    assert_eq!(options.account, Account::Offline { username: "Alex".to_string() });
    assert_eq!(options.game_directory.as_deref(), Some("/g"));
    assert_eq!(options.java_executable.as_deref(), Some("/jre"));
    assert_eq!(profile_lock_path("/g"), "/g/.lucent-launch.lock");
    assert_eq!(install_lock_path("/mc"), "/mc/.lucent-install.lock");
}
