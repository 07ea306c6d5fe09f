use lucent_launcher::atomic::{temporary_path, write_bytes, WriteAction, WriteReply};
use lucent_launcher::checksum::{sha1_hex, sha256_hex};
use lucent_launcher::classpath::{classpath_key, deduplicate_classpath_string};
use lucent_launcher::command::{
    build_launch_command, build_launch_command_for_platform, find_jvm_boundary, launch_context,
    Account, ArgumentExpansion, CompatibilityPolicy, LaunchCommand, LaunchOptions, Os, Platform,
    VersionJson,
};
use lucent_launcher::download::{
    execute_plan, should_skip_existing, Checksum, DownloadPlan, DownloadTask, ExistingFile,
    PlanAction, PlanEvent,
};
use lucent_launcher::error::LauncherError;
use lucent_launcher::path::{
    file_name, has_extension, is_same_path, join_path, parent, with_file_name,
};
use lucent_launcher::progress::{
    indeterminate_progress, install_stage_label, InstallStage, ProgressEvent, ProgressTracker,
    SkipReason,
};
use lucent_launcher::text::{
    decimal_text, equal_ignoring_ascii_case, hexadecimal_text, join_texts, parse_number,
    replace_chars, split_text, split_words, strip_prefix, strip_suffix, to_ascii_lower,
    to_ascii_upper, trim_text,
};
use std::collections::BTreeMap;

fn texts(list: &[&str]) -> Vec<String> {
    list.iter().map(|text| text.to_string()).collect()
}

/// Writes to a set of files in memory.
fn write(
    files: &mut BTreeMap<String, Vec<u8>>,
    path: &str,
    bytes: &[u8],
    replaces: bool,
    broken: &str,
) -> bool {
    let (mut run, first) = write_bytes(path, replaces);
    let mut next = Some(first);
    while let Some(action) = next {
        let reply = match action {
            WriteAction::CreateDirectory(_) => WriteReply::Done,
            WriteAction::WriteTemporary(temporary) => {
                files.insert(temporary, bytes.to_vec());
                WriteReply::Done
            }
            WriteAction::CheckDestination => WriteReply::Exists(files.contains_key(path)),
            WriteAction::RemoveDestination => {
                if broken == "remove" {
                    WriteReply::Failed
                } else {
                    files.remove(path);
                    WriteReply::Done
                }
            }
            WriteAction::Publish(temporary) => {
                if broken == "publish" || (!replaces && files.contains_key(path)) {
                    WriteReply::Failed
                } else {
                    let contents = files.remove(&temporary).unwrap();
                    files.insert(path.to_string(), contents);
                    WriteReply::Done
                }
            }
            WriteAction::RemoveTemporary(temporary) => {
                files.remove(&temporary);
                WriteReply::Done
            }
        };
        next = run.step(reply);
    }
    run.is_complete()
}

#[test]
fn replaces_existing_file_with_complete_contents() {
    for replaces in [true, false] {
        let path = "directory/metadata.json";
        let mut files = BTreeMap::new();
        files.insert(path.to_string(), b"old".to_vec());

        assert!(write(&mut files, path, b"new contents", replaces, ""));

        assert_eq!(files[path], b"new contents");
        assert!(!files.contains_key("directory/.metadata.json.lucent-tmp"));
    }
}

#[test]
fn failed_write_keeps_the_old_file() {
    let path = "directory/metadata.json";
    let mut files = BTreeMap::new();
    files.insert(path.to_string(), b"old".to_vec());
    assert!(!write(&mut files, path, b"new", true, "publish"));
    assert_eq!(files[path], b"old");
    assert_eq!(files.len(), 1);
    assert!(!write(&mut files, path, b"new", false, "remove"));
    assert_eq!(files[path], b"old");
    assert_eq!(files.len(), 1);
}

#[test]
fn old_file_is_removed_only_where_a_move_cannot_replace_it() {
    let (mut run, _) = write_bytes("a/b", true);
    run.step(WriteReply::Done);
    assert_eq!(
        run.step(WriteReply::Done),
        Some(WriteAction::Publish("a/.b.lucent-tmp".to_string()))
    );
    let (mut run, _) = write_bytes("a/b", false);
    run.step(WriteReply::Done);
    assert_eq!(run.step(WriteReply::Done), Some(WriteAction::CheckDestination));
    assert_eq!(run.step(WriteReply::Exists(true)), Some(WriteAction::RemoveDestination));
    assert_eq!(
        run.step(WriteReply::Done),
        Some(WriteAction::Publish("a/.b.lucent-tmp".to_string()))
    );
    assert_eq!(
        run.step(WriteReply::Failed),
        Some(WriteAction::RemoveTemporary("a/.b.lucent-tmp".to_string()))
    );
    assert!(!run.is_complete());
}

#[test]
fn temporary_files_are_siblings() {
    assert_eq!(temporary_path("a/b.json"), "a/.b.json.lucent-tmp");
    assert_eq!(temporary_path("b.json"), ".b.json.lucent-tmp");
    assert_eq!(temporary_path("/"), "/.launcher-file.lucent-tmp");
}

#[test]
fn paths_are_taken_apart() {
    assert_eq!(file_name("/a/b.jar").as_deref(), Some("b.jar"));
    assert_eq!(file_name("/a/b/").as_deref(), Some("b"));
    assert_eq!(file_name("a/.."), None);
    assert_eq!(file_name("/"), None);
    assert_eq!(parent("/a/b").as_deref(), Some("/a"));
    assert_eq!(parent("b").as_deref(), Some(""));
    assert_eq!(parent("/"), None);
    assert_eq!(join_path("/a", "b"), "/a/b");
    assert_eq!(join_path("/a/", "b"), "/a/b");
    assert_eq!(join_path("/a", "/b"), "/b");
    assert_eq!(with_file_name("/a/b", "c"), "/a/c");
    assert!(is_same_path("m//b.jar", "m/./b.jar/"));
    assert!(!is_same_path("/m/b.jar", "m/b.jar"));
    assert!(!is_same_path("m/b.jar", "m/c.jar"));
    assert!(!is_same_path("./b.jar", "b.jar"));
    assert!(!is_same_path("", "/"));
    assert!(has_extension("a.jar", "jar"));
    assert!(!has_extension(".jar", "jar"));
    assert!(!has_extension("a.jar.disabled", "jar"));
}

#[test]
fn texts_are_taken_apart() {
    assert_eq!(split_text("a::b", ':'), texts(&["a", "", "b"]));
    assert_eq!(split_words("  a \t b\n"), texts(&["a", "b"]));
    assert_eq!(join_texts(&texts(&["a", "b"]), ", "), "a, b");
    assert_eq!(join_texts(&split_text("x/y//z", '/'), "/"), "x/y//z");
    assert_eq!(trim_text("\u{2003} a b \n"), "a b");
    assert_eq!(strip_prefix("#fff", "#").as_deref(), Some("fff"));
    assert_eq!(strip_prefix("fff", "#"), None);
    assert_eq!(strip_suffix("a.jar", ".jar").as_deref(), Some("a"));
    assert_eq!(replace_chars("a\\b\\c", '\\', '/'), "a/b/c");
    assert_eq!(to_ascii_lower("ÄbC"), "Äbc");
    assert_eq!(to_ascii_upper("äbC"), "äBC");
    assert!(equal_ignoring_ascii_case("FaBric", "fabric"));
    assert!(!equal_ignoring_ascii_case("Ä", "ä"));
    assert_eq!(decimal_text(0), "0");
    assert_eq!(decimal_text(u64::MAX as u128 + 1), "18446744073709551616");
    assert_eq!(hexadecimal_text(0xdead_beef), "deadbeef");
    assert_eq!(parse_number("65535", 65535), Some(65535));
    assert_eq!(parse_number("65536", 65535), None);
    assert_eq!(parse_number("-1", 65535), None);
}

#[test]
fn classpath_keeps_the_last_version() {
    assert_eq!(classpath_key("C:\\mc\\libraries\\a\\b\\1\\b-1.jar"), "maven:a:b:");
    assert_eq!(
        classpath_key("/mc/libraries/a/c/b/1/b-1-natives.jar"),
        "maven:a.c:b:natives"
    );
    assert_eq!(classpath_key("/mc/versions/v.jar"), "path:/mc/versions/v.jar");
    assert_eq!(
        deduplicate_classpath_string(
            "/l/libraries/a/b/1/b-1.jar::/x.jar:/l/libraries/a/b/2/b-2.jar:/x.jar"
        ),
        ("/l/libraries/a/b/2/b-2.jar:/x.jar".to_string(), 2)
    );
    assert_eq!(
        deduplicate_classpath_string("C:\\x.jar;C:\\x.jar"),
        ("C:\\x.jar".to_string(), 1)
    );
    assert_eq!(deduplicate_classpath_string(""), (String::new(), 0));
}

#[test]
fn command_without_classpath_is_left_alone() {
    let mut command = LaunchCommand {
        executable: "java".to_string(),
        args: texts(&["-Xmx1G", "game.Main", "-cp"]),
        working_dir: ".".to_string(),
        env: Vec::new(),
    };
    assert_eq!(command.deduplicate_classpath(), 0);
    assert_eq!(
        command.to_process_parts(),
        ("java".to_string(), texts(&["-Xmx1G", "game.Main", "-cp"]))
    );
    assert_eq!(find_jvm_boundary(&command.args, Some("game.Main")), 1);
    assert_eq!(find_jvm_boundary(&command.args, Some("other")), 3);
    assert_eq!(find_jvm_boundary(&command.args, None), 3);
    assert_eq!(command.insert_jvm_arguments(None, texts(&["-Da"])), 1);
    assert_eq!(command.args, texts(&["-Xmx1G", "game.Main", "-cp", "-Da"]));
}

fn version() -> VersionJson {
    VersionJson {
        id: Some("1.21.4".to_string()),
        main_class: Some("game.Main".to_string()),
        assets: None,
        version_type: None,
        minecraft_arguments: Some("--username ${name} --old".to_string()),
        libraries: Vec::new(),
    }
}

#[test]
fn context_is_taken_from_the_metadata() {
    let options = LaunchOptions::default();
    assert_eq!(options.account, Account::Offline { username: "Steve".to_string() });
    assert_eq!(options.compatibility, CompatibilityPolicy::Auto);
    let context = launch_context(&version(), "/mc", &options).unwrap();
    assert_eq!(context.game_dir, "/mc/versions/1.21.4");
    assert_eq!(context.natives_dir, "/mc/versions/1.21.4/natives");
    assert_eq!(context.assets_index, "1.21.4");
    assert_eq!(context.version_type, "release");
    assert_eq!(context.legacy_arguments, Some(texts(&["--username", "${name}", "--old"])));
    let mut nameless = version();
    nameless.id = None;
    assert_eq!(
        launch_context(&nameless, "/mc", &options),
        Err(LauncherError::MissingField {
            context: "version json".to_string(),
            field: "id".to_string(),
        })
    );
    let mut headless = version();
    headless.main_class = None;
    assert_eq!(
        launch_context(&headless, "/mc", &options),
        Err(LauncherError::MissingField {
            context: "1.21.4".to_string(),
            field: "mainClass".to_string(),
        })
    );
}

#[test]
fn command_is_built_in_process_order() {
    let mut options = LaunchOptions::default();
    options.custom_resolution = Some((800, 600));
    options.demo = true;
    options.server = Some(("play.example".to_string(), Some(25565)));
    options.disable_multiplayer = true;
    options.disable_chat = true;
    let expansion = ArgumentExpansion {
        classpath: Ok("/a.jar".to_string()),
        jvm: Vec::new(),
        legacy: texts(&["--username", "Steve", "--old"]),
        game: texts(&["--template"]),
    };
    let platform = Platform { os: Os::MacOs };
    let command =
        build_launch_command_for_platform(&version(), "/mc", options, platform, expansion).unwrap();
    assert_eq!(command.executable, "java");
    assert_eq!(command.working_dir, "/mc/versions/1.21.4");
    assert_eq!(
        command.args,
        texts(&[
            "-XstartOnFirstThread",
            "-Djava.library.path=/mc/versions/1.21.4/natives",
            "-cp",
            "/a.jar",
            "game.Main",
            "--username",
            "Steve",
            "--old",
            "--width",
            "800",
            "--height",
            "600",
            "--demo",
            "--server",
            "play.example",
            "--port",
            "25565",
            "--disableMultiplayer",
            "--disableChat",
        ])
    );
    let failing = ArgumentExpansion {
        classpath: Err(LauncherError::InvalidLibrary("x".to_string())),
        jvm: Vec::new(),
        legacy: Vec::new(),
        game: Vec::new(),
    };
    assert_eq!(
        build_launch_command(
            &version(),
            "/mc",
            LaunchOptions::default(),
            Platform { os: Os::Linux },
            failing
        ),
        Err(LauncherError::InvalidLibrary("x".to_string()))
    );
    let modern = ArgumentExpansion {
        classpath: Ok("/a.jar".to_string()),
        jvm: texts(&["-cp", "/a.jar"]),
        legacy: Vec::new(),
        game: texts(&["--template"]),
    };
    let mut templated = version();
    templated.minecraft_arguments = None;
    let command = build_launch_command(
        &templated,
        "/mc",
        LaunchOptions::default(),
        Platform { os: Os::Linux },
        modern,
    )
    .unwrap();
    assert_eq!(command.args, texts(&["-cp", "/a.jar", "game.Main", "--template"]));
}

#[test]
fn progress_follows_the_events() {
    let mut tracker = ProgressTracker::new("p".to_string());
    assert_eq!(tracker.current().stage, "Preparing installation");
    tracker.report(ProgressEvent::StageStarted { stage: InstallStage::DownloadAssets });
    tracker.report(ProgressEvent::PlanStarted { total_tasks: 2 });
    tracker.report(ProgressEvent::TaskSkipped {
        label: "a".to_string(),
        reason: SkipReason::ChecksumMatched,
    });
    tracker.report(ProgressEvent::TaskStarted { label: "b".to_string(), path: "/b".to_string() });
    tracker.report(ProgressEvent::BytesReceived {
        label: "b".to_string(),
        received: 5,
        total: Some(10),
    });
    let progress = tracker.report(ProgressEvent::TaskFinished { label: "b".to_string() });
    assert_eq!(progress.stage, "Downloading assets");
    assert_eq!((progress.completed_tasks, progress.total_tasks), (2, Some(2)));
    assert_eq!((progress.bytes_received, progress.total_bytes), (10, Some(10)));
    assert_eq!(progress.current_task.as_deref(), Some("b"));
    assert_eq!(install_stage_label(&InstallStage::Verify), "Verifying installation");
    let progress = indeterminate_progress("p", "Running".to_string());
    assert_eq!((progress.completed_tasks, progress.total_tasks), (0, None));
}

fn task(checksum: Option<Checksum>) -> DownloadTask {
    DownloadTask {
        url: "https://x".to_string(),
        destination: "/d/f".to_string(),
        checksum,
        label: "f".to_string(),
    }
}

#[test]
fn existing_files_are_reused() {
    let sha1 = Some(Checksum::Sha1(sha1_hex(b"abc")));
    let contents = |bytes: &[u8]| ExistingFile::Contents(bytes.to_vec());
    assert_eq!(should_skip_existing(&task(None), ExistingFile::Missing), Ok(false));
    assert_eq!(should_skip_existing(&task(None), ExistingFile::Unread), Ok(true));
    assert_eq!(should_skip_existing(&task(sha1.clone()), contents(b"abc")), Ok(true));
    assert_eq!(should_skip_existing(&task(sha1.clone()), contents(b"abd")), Ok(false));
    let denied = LauncherError::Io("denied".to_string());
    assert_eq!(
        should_skip_existing(&task(sha1), ExistingFile::Unreadable(denied.clone())),
        Err(denied)
    );
    let sha256 = Some(Checksum::Sha256(sha256_hex(b"abc")));
    assert_eq!(should_skip_existing(&task(sha256.clone()), contents(b"abc")), Ok(true));
    assert_eq!(should_skip_existing(&task(sha256.clone()), contents(b"abd")), Ok(false));
    assert_eq!(should_skip_existing(&task(sha256.clone()), ExistingFile::Unread), Ok(false));
    assert_eq!(should_skip_existing(&task(sha256), ExistingFile::Missing), Ok(false));
}

#[test]
fn digests_are_hexadecimal() {
    assert_eq!(sha1_hex(b"abc"), "a9993e364706816aba3e25717850c26c9cd0d89d");
    assert_eq!(
        sha256_hex(b"abc"),
        "ba7816bf8f01cfea414140de5dae2223b00361a396177a9cb410ff61f20015ad"
    );
}

#[test]
fn long_checksums_are_verified_too() {
    let expected = sha256_hex(b"abc");
    let plan = DownloadPlan { tasks: vec![task(Some(Checksum::Sha256(expected.clone())))] };
    let (mut run, actions) = execute_plan(plan.clone());
    assert_eq!(actions[1], PlanAction::Inspect { task: 0, read_contents: true });
    let actions = run.step(PlanEvent::Inspected(ExistingFile::Contents(b"abc".to_vec())));
    assert_eq!(
        actions,
        vec![
            PlanAction::Report(ProgressEvent::TaskSkipped {
                label: "f".to_string(),
                reason: SkipReason::ChecksumMatched,
            }),
            PlanAction::Finish,
        ]
    );
    assert_eq!(run.outcome(), Some(Ok(())));

    let (mut run, _) = execute_plan(plan);
    run.step(PlanEvent::Inspected(ExistingFile::Missing));
    run.step(PlanEvent::Done);
    run.step(PlanEvent::Opened { total: None });
    assert_eq!(run.step(PlanEvent::Chunk { count: 0 }), vec![PlanAction::ReadBack { task: 0 }]);
    run.step(PlanEvent::Contents(b"broken".to_vec()));
    assert_eq!(
        run.outcome(),
        Some(Err(LauncherError::ChecksumMismatch {
            path: "/d/f".to_string(),
            expected,
            actual: sha256_hex(b"broken"),
        }))
    );
}

#[test]
fn repeated_plan_is_skipped() {
    let plan = DownloadPlan {
        tasks: vec![task(Some(Checksum::Sha1(sha1_hex(b"abc")))), task(None)],
    };
    let (mut run, actions) = execute_plan(plan);
    assert_eq!(actions[0], PlanAction::Report(ProgressEvent::PlanStarted { total_tasks: 2 }));
    let actions = run.step(PlanEvent::Inspected(ExistingFile::Contents(b"abc".to_vec())));
    assert!(matches!(&actions[0], PlanAction::Report(ProgressEvent::TaskSkipped { .. })));
    assert_eq!(actions[1], PlanAction::Inspect { task: 1, read_contents: false });
    let actions = run.step(PlanEvent::Inspected(ExistingFile::Unread));
    assert!(matches!(&actions[0], PlanAction::Report(ProgressEvent::TaskSkipped { .. })));
    assert_eq!(actions[1], PlanAction::Finish);
    assert_eq!(run.outcome(), Some(Ok(())));
}

#[test]
fn download_is_verified_before_it_is_published() {
    let expected = sha1_hex(b"abc");
    let plan = DownloadPlan { tasks: vec![task(Some(Checksum::Sha1(expected.clone())))] };
    let (mut run, actions) = execute_plan(plan.clone());
    assert_eq!(actions[1], PlanAction::Inspect { task: 0, read_contents: true });
    let actions = run.step(PlanEvent::Inspected(ExistingFile::Missing));
    assert_eq!(actions[1], PlanAction::CreateDirectory { task: 0 });
    assert_eq!(run.step(PlanEvent::Done), vec![PlanAction::Open { task: 0 }]);
    run.step(PlanEvent::Opened { total: Some(3) });
    let actions = run.step(PlanEvent::Chunk { count: 3 });
    assert_eq!(
        actions[0],
        PlanAction::Report(ProgressEvent::BytesReceived {
            label: "f".to_string(),
            received: 3,
            total: Some(3),
        })
    );
    assert_eq!(run.step(PlanEvent::Chunk { count: 0 }), vec![PlanAction::ReadBack { task: 0 }]);
    assert_eq!(
        run.step(PlanEvent::Contents(b"abc".to_vec())),
        vec![PlanAction::Publish { task: 0 }]
    );
    run.step(PlanEvent::Done);
    assert_eq!(run.outcome(), Some(Ok(())));

    let (mut run, _) = execute_plan(plan);
    run.step(PlanEvent::Inspected(ExistingFile::Missing));
    run.step(PlanEvent::Done);
    run.step(PlanEvent::Opened { total: None });
    run.step(PlanEvent::Chunk { count: 0 });
    let actions = run.step(PlanEvent::Contents(b"broken".to_vec()));
    assert_eq!(actions, vec![PlanAction::Discard { task: 0 }, PlanAction::Finish]);
    assert_eq!(
        run.outcome(),
        Some(Err(LauncherError::ChecksumMismatch {
            path: "/d/f".to_string(),
            expected,
            actual: sha1_hex(b"broken"),
        }))
    );
}

#[test]
fn skipped_task_leads_to_the_next() {
    let plan = DownloadPlan { tasks: vec![task(None), task(None)] };
    let (mut run, _) = execute_plan(plan);
    let actions = run.step(PlanEvent::Inspected(ExistingFile::Unread));
    assert_eq!(
        actions[0],
        PlanAction::Report(ProgressEvent::TaskSkipped {
            label: "f".to_string(),
            reason: SkipReason::FileExistsWithoutChecksum,
        })
    );
    assert_eq!(actions[1], PlanAction::Inspect { task: 1, read_contents: false });
    run.step(PlanEvent::Inspected(ExistingFile::Missing));
    let failed = LauncherError::Io("full".to_string());
    assert_eq!(run.step(PlanEvent::Failed(failed.clone())), vec![PlanAction::Finish]);
    assert_eq!(run.outcome(), Some(Err(failed)));
}
