use lucent_launcher::profile::LauncherProfile;
use lucent_launcher::storage::{
    first_base_action, load_profiles, minecraft_root_dir, next_base_action, override_directory,
    preferred_base, profiles_document, profiles_file_path, read_profiles_document, BaseAction,
    BaseContents, DocumentError, ProfileIds, ProfilesDocument, ProfilesFormat, StorageError,
    StoredProfiles, PROFILE_SCHEMA_VERSION,
};
use std::time::{SystemTime, UNIX_EPOCH};

fn profile(id: &str) -> LauncherProfile {
    LauncherProfile::default_with_version(id.to_string(), "1.21.4".to_string())
}

#[test]
fn generated_profile_ids_are_distinct() {
    let now = SystemTime::now()
        .duration_since(UNIX_EPOCH)
        .map(|duration| duration.as_nanos())
        .unwrap_or_default();
    let mut ids = ProfileIds::new();
    assert_ne!(ids.new_profile_id(now), ids.new_profile_id(now));
}

#[test]
fn profile_ids_are_made_of_time_and_counter() {
    let mut ids = ProfileIds::new();
    assert_eq!(ids.new_profile_id(255), "profile-ff-0");
    assert_eq!(ids.new_profile_id(255), "profile-ff-1");
    assert_eq!(ids.new_profile_id(0), "profile-0-2");
}

#[test]
fn array_is_the_older_form() {
    let (format, _) = read_profiles_document("[]").unwrap();
    assert_eq!(format, ProfilesFormat::Legacy);
    let (format, document) =
        read_profiles_document("{\"schema_version\": 1, \"profiles\": []}").unwrap();
    assert_eq!(format, ProfilesFormat::Versioned);
    assert!(document.get("profiles").is_some());
}

#[test]
fn malformed_document_is_refused() {
    assert!(matches!(read_profiles_document("{"), Err(DocumentError::Malformed(_))));
}

#[test]
fn newer_schema_is_refused() {
    let mut ids = ProfileIds::new();
    let stored = StoredProfiles::Versioned(ProfilesDocument {
        schema_version: 2,
        profiles: Vec::new(),
    });
    let error = load_profiles(stored, &mut ids, 7).unwrap_err();
    assert_eq!(error, StorageError::UnsupportedSchema { version: 2 });
    assert_eq!(
        error.message("/data/profiles.json"),
        "profile document /data/profiles.json uses unsupported schema version 2"
    );
}

#[test]
fn missing_ids_are_added_and_persisted() {
    let mut ids = ProfileIds::new();
    let stored = StoredProfiles::Versioned(ProfilesDocument {
        schema_version: 1,
        profiles: vec![profile(""), profile("kept"), profile("")],
    });
    let loaded = load_profiles(stored, &mut ids, 16).unwrap();
    assert!(loaded.rewrite);
    assert_eq!(loaded.profiles[0].id, "profile-10-0");
    assert_eq!(loaded.profiles[1].id, "kept");
    assert_eq!(loaded.profiles[2].id, "profile-10-1");
    assert_eq!(loaded.profiles[1], profile("kept"));
}

#[test]
fn older_form_is_rewritten() {
    let mut ids = ProfileIds::new();
    let loaded = load_profiles(StoredProfiles::Legacy(vec![profile("a")]), &mut ids, 1).unwrap();
    assert!(loaded.rewrite);
    assert_eq!(loaded.profiles, vec![profile("a")]);
}

#[test]
fn saved_profiles_load_unchanged() {
    let mut ids = ProfileIds::new();
    let profiles = vec![profile("a"), profile("b")];
    let document = profiles_document(profiles.clone());
    assert_eq!(document.schema_version, PROFILE_SCHEMA_VERSION);
    let loaded = load_profiles(StoredProfiles::Versioned(document), &mut ids, 1).unwrap();
    assert!(!loaded.rewrite);
    assert_eq!(loaded.profiles, profiles);
}

#[test]
fn profiles_are_upgraded_once() {
    let mut ids = ProfileIds::new();
    let stored = StoredProfiles::Legacy(vec![profile(""), profile("b")]);
    let first = load_profiles(stored, &mut ids, 1).unwrap();
    assert!(first.rewrite);
    let document = profiles_document(first.profiles.clone());
    let second = load_profiles(StoredProfiles::Versioned(document), &mut ids, 2).unwrap();
    assert!(!second.rewrite);
    assert_eq!(second.profiles, first.profiles);
}

#[test]
fn base_directory_is_chosen() {
    assert_eq!(override_directory(Some("  /data ")), Some("/data".to_string()));
    assert_eq!(override_directory(Some("   ")), None);
    assert_eq!(override_directory(None), None);
    assert_eq!(preferred_base(Some("/l"), Some("/d"), "/w"), "/l/lucent-launcher");
    assert_eq!(preferred_base(None, Some("/d"), "/w"), "/d/lucent-launcher");
    assert_eq!(preferred_base(None, None, "/w"), "/w/lucent-launcher");
    assert_eq!(profiles_file_path("/d"), "/d/profiles.json");
    assert_eq!(minecraft_root_dir("/d"), "/d/.minecraft");
}

#[test]
fn migration_overwrites_nothing() {
    let nothing = BaseContents { profiles: false, game: false };
    let all = BaseContents { profiles: true, game: true };
    let game = BaseContents { profiles: false, game: true };
    assert_eq!(first_base_action(all, all), BaseAction::UsePreferred);
    assert_eq!(first_base_action(game, all), BaseAction::UsePreferred);
    assert_eq!(first_base_action(nothing, nothing), BaseAction::UsePreferred);
    assert_eq!(first_base_action(nothing, all), BaseAction::CopyProfiles);
    assert_eq!(first_base_action(nothing, game), BaseAction::MoveGame);
    assert_eq!(next_base_action(BaseAction::CopyProfiles, true, all), BaseAction::MoveGame);
    assert_eq!(next_base_action(BaseAction::MoveGame, true, all), BaseAction::UsePreferred);
}

#[test]
fn failed_migration_falls_back() {
    let all = BaseContents { profiles: true, game: true };
    assert_eq!(next_base_action(BaseAction::CopyProfiles, false, all), BaseAction::UseWorking);
    assert_eq!(next_base_action(BaseAction::MoveGame, false, all), BaseAction::UseWorking);
    assert_eq!(next_base_action(BaseAction::UseWorking, false, all), BaseAction::UseWorking);
}
