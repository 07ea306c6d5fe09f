use lucent_launcher::command::LaunchCommand;
use lucent_launcher::download::{execute_plan, temporary_download_path, DownloadPlan, PlanAction};
use lucent_launcher::progress::ProgressEvent;

#[test]
fn inserts_arguments_before_main_class() {
    let mut command = LaunchCommand {
        executable: "java".into(),
        args: vec![
            "-cp".into(),
            "libraries.jar".into(),
            "game.Main".into(),
            "--demo".into(),
        ],
        working_dir: ".".into(),
        env: Vec::new(),
    };

    assert_eq!(
        command.insert_jvm_arguments(Some("game.Main"), vec!["-Xmx2G".into()]),
        1
    );
    assert_eq!(command.args[2], "-Xmx2G");
    assert_eq!(command.args[3], "game.Main");
}

#[test]
fn keeps_last_maven_artifact_version() {
    let mut command = LaunchCommand {
        executable: "java".into(),
        args: vec![
            "-cp".into(),
            "/game/libraries/org/example/demo/1.0/demo-1.0.jar:/game/libraries/org/example/demo/2.0/demo-2.0.jar".into(),
            "game.Main".into(),
        ],
        working_dir: ".".into(),
        env: Vec::new(),
    };

    assert_eq!(command.deduplicate_classpath(), 1);
    assert_eq!(
        command.args[1],
        "/game/libraries/org/example/demo/2.0/demo-2.0.jar"
    );
}

#[test]
fn temporary_download_stays_next_to_destination() {
    let path = "libraries/example/library.jar";
    assert_eq!(
        temporary_download_path(path),
        "libraries/example/.library.jar.lucent-part"
    );
}

#[test]
fn empty_plan_reports_zero_tasks() {
    let (run, actions) = execute_plan(DownloadPlan::default());
    let mut events = Vec::new();
    for action in actions {
        if let PlanAction::Report(event) = action {
            events.push(event);
        }
    }

    assert_eq!(events, vec![ProgressEvent::PlanStarted { total_tasks: 0 }]);
    assert_eq!(run.outcome(), Some(Ok(())));
}
