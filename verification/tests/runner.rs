use ffrenc::tasks::{Phase, Task, TaskAction, TaskEvent};
use ffrenc::ui::{CommandExit, ExitCode, UiMessage, UiMessagePayload};
use ffrenc::{Args, OutputFormat};

fn args(no_audio: bool, no_video: bool, extra: &[&str]) -> Args {
    Args {
        input: "in.mkv".to_string(),
        output: "{SLUG}.renc.mp4".to_string(),
        no_audio,
        no_video,
        overwrite_output: false,
        format: OutputFormat::Human,
        ffmpeg_args: extra.iter().map(|arg| arg.to_string()).collect(),
    }
}

fn task(id: usize) -> Task {
    Task::new(id, "/in/a.mkv".to_string(), "/out/a.mp4".to_string(), args(false, false, &[]), 90)
}

fn exit(success: Option<bool>) -> TaskEvent {
    TaskEvent::Exited {
        exit: CommandExit { exit_code: success.map(|success| ExitCode { success }) },
    }
}

fn report(action: TaskAction) -> Option<UiMessage> {
    match action {
        TaskAction::Enqueue { report } => Some(report),
        TaskAction::Launch { report, .. } => Some(report),
        TaskAction::Relay { report } => Some(report),
        TaskAction::Conclude { report } => Some(report),
        TaskAction::Ignore | TaskAction::Abandon => None,
    }
}

fn kind(payload: &UiMessagePayload) -> &'static str {
    match payload {
        UiMessagePayload::Created { .. } => "created",
        UiMessagePayload::Started => "started",
        UiMessagePayload::Progress { .. } => "progress",
        UiMessagePayload::Finished { .. } => "finished",
        UiMessagePayload::Failed { .. } => "failed",
    }
}

#[test]
fn a_new_job_is_not_yet_announced() {
    let task = task(3);
    assert_eq!(task.id(), 3);
    assert_eq!(task.phase(), Phase::Created);
}

#[test]
fn a_job_is_announced_before_it_waits() {
    let mut task = task(3);
    match task.step(TaskEvent::Begin) {
        TaskAction::Enqueue { report } => {
            assert_eq!(report.task_id, 3);
            match report.payload {
                UiMessagePayload::Created { input, output, total } => {
                    assert_eq!(input, "/in/a.mkv");
                    assert_eq!(output, "/out/a.mp4");
                    assert_eq!(total, 90);
                }
                other => panic!("not an announcement: {other:?}"),
            }
        }
        other => panic!("not enqueued: {other:?}"),
    }
    assert_eq!(task.phase(), Phase::Queued);
}

#[test]
fn an_admitted_job_starts_and_launches() {
    let mut task = task(1);
    task.step(TaskEvent::Begin);
    match task.step(TaskEvent::Admitted) {
        TaskAction::Launch { report, command } => {
            assert_eq!(report.task_id, 1);
            assert!(matches!(report.payload, UiMessagePayload::Started));
            assert_eq!(command, task.command());
        }
        other => panic!("not launched: {other:?}"),
    }
    assert_eq!(task.phase(), Phase::Active);
}

#[test]
fn samples_are_passed_on_with_the_total() {
    let mut task = task(1);
    task.step(TaskEvent::Begin);
    task.step(TaskEvent::Admitted);
    for current in [0u64, 30, 60, 95] {
        match task.step(TaskEvent::Sample { current }) {
            TaskAction::Relay { report } => {
                assert_eq!(report.task_id, 1);
                match report.payload {
                    UiMessagePayload::Progress { total, current: sent } => {
                        assert_eq!(total, 90);
                        assert_eq!(sent, current);
                    }
                    other => panic!("not progress: {other:?}"),
                }
            }
            other => panic!("not relayed: {other:?}"),
        }
        assert_eq!(task.phase(), Phase::Active);
    }
}

#[test]
fn the_end_is_judged_by_the_exit_code() {
    for (success, phase) in [
        (Some(true), Phase::Succeeded),
        (Some(false), Phase::Failed),
        (None, Phase::Failed),
    ] {
        let mut task = task(2);
        task.step(TaskEvent::Begin);
        task.step(TaskEvent::Admitted);
        match task.step(exit(success)) {
            TaskAction::Conclude { report } => {
                assert_eq!(report.task_id, 2);
                match report.payload {
                    UiMessagePayload::Finished { exit } => {
                        assert_eq!(exit.exit_code.map(|code| code.success), success)
                    }
                    other => panic!("not finished: {other:?}"),
                }
            }
            other => panic!("not concluded: {other:?}"),
        }
        assert_eq!(task.phase(), phase);
    }
}

#[test]
fn a_broken_run_is_reported_as_failed() {
    let mut task = task(2);
    task.step(TaskEvent::Begin);
    task.step(TaskEvent::Admitted);
    match task.step(TaskEvent::Crashed { error: "killed".to_string() }) {
        TaskAction::Conclude { report } => match report.payload {
            UiMessagePayload::Failed { error } => assert_eq!(error, "killed"),
            other => panic!("not failed: {other:?}"),
        },
        other => panic!("not concluded: {other:?}"),
    }
    assert_eq!(task.phase(), Phase::Failed);
}

#[test]
fn a_job_that_is_never_let_in_gives_up_silently() {
    let mut task = task(2);
    task.step(TaskEvent::Begin);
    assert!(matches!(task.step(TaskEvent::Shut), TaskAction::Abandon));
    assert_eq!(task.phase(), Phase::Abandoned);
    assert!(matches!(task.step(TaskEvent::Admitted), TaskAction::Ignore));
    assert!(matches!(task.step(exit(Some(true))), TaskAction::Ignore));
    assert_eq!(task.phase(), Phase::Abandoned);
}

#[test]
fn events_out_of_turn_are_ignored() {
    let mut task = task(0);
    for event in [
        TaskEvent::Admitted,
        TaskEvent::Shut,
        TaskEvent::Sample { current: 1 },
        exit(Some(true)),
        TaskEvent::Crashed { error: "x".to_string() },
    ] {
        assert!(matches!(task.step(event), TaskAction::Ignore));
        assert_eq!(task.phase(), Phase::Created);
    }
    task.step(TaskEvent::Begin);
    for event in [TaskEvent::Begin, TaskEvent::Sample { current: 1 }, exit(Some(true))] {
        assert!(matches!(task.step(event), TaskAction::Ignore));
        assert_eq!(task.phase(), Phase::Queued);
    }
    task.step(TaskEvent::Admitted);
    for event in [TaskEvent::Begin, TaskEvent::Admitted, TaskEvent::Shut] {
        assert!(matches!(task.step(event), TaskAction::Ignore));
        assert_eq!(task.phase(), Phase::Active);
    }
    task.step(exit(Some(true)));
    for event in [
        TaskEvent::Begin,
        TaskEvent::Admitted,
        TaskEvent::Sample { current: 1 },
        exit(Some(false)),
        TaskEvent::Crashed { error: "x".to_string() },
    ] {
        assert!(matches!(task.step(event), TaskAction::Ignore));
        assert_eq!(task.phase(), Phase::Succeeded);
    }
}

#[test]
fn reports_follow_the_life_of_a_job_whatever_happens() {
    let runs: Vec<Vec<TaskEvent>> = vec![
        vec![
            TaskEvent::Sample { current: 1 },
            TaskEvent::Begin,
            TaskEvent::Begin,
            exit(Some(true)),
            TaskEvent::Admitted,
            TaskEvent::Sample { current: 1 },
            TaskEvent::Admitted,
            TaskEvent::Sample { current: 2 },
            TaskEvent::Crashed { error: "x".to_string() },
            exit(Some(true)),
            TaskEvent::Sample { current: 3 },
            TaskEvent::Crashed { error: "y".to_string() },
        ],
        vec![TaskEvent::Begin, TaskEvent::Admitted, exit(None), exit(Some(true))],
        vec![TaskEvent::Begin, TaskEvent::Shut, TaskEvent::Admitted, exit(Some(true))],
    ];
    let expected: Vec<Vec<&str>> = vec![
        vec!["created", "started", "progress", "progress", "failed"],
        vec!["created", "started", "finished"],
        vec!["created"],
    ];
    for (events, expected) in runs.into_iter().zip(expected) {
        let mut task = task(4);
        let mut kinds = Vec::new();
        for event in events {
            if let Some(message) = report(task.step(event)) {
                assert_eq!(message.task_id, 4);
                kinds.push(kind(&message.payload));
            }
        }
        assert_eq!(kinds, expected);
        let finals = kinds.iter().filter(|kind| **kind == "finished" || **kind == "failed").count();
        assert!(finals <= 1);
    }
}

#[test]
fn command_reencodes_video_and_copies_audio() {
    let task = task(0);
    assert_eq!(
        task.command(),
        vec![
            "-y",
            "-i",
            "/in/a.mkv",
            "-c:a",
            "copy",
            "-c:v",
            "libx264",
            "-crf",
            "18",
            "-preset",
            "ultrafast",
            "-movflags",
            "+frag_keyframe+empty_moov",
            "-f",
            "mp4",
            "/out/a.mp4",
        ]
    );
}

#[test]
fn command_strips_what_is_not_wanted() {
    let no_audio = Task::new(0, "i".to_string(), "o".to_string(), args(true, false, &[]), 1);
    assert_eq!(
        no_audio.command(),
        vec![
            "-y", "-i", "i", "-an", "-c:v", "libx264", "-crf", "18", "-preset", "ultrafast",
            "-movflags", "+frag_keyframe+empty_moov", "-f", "mp4", "o",
        ]
    );
    let no_video = Task::new(0, "i".to_string(), "o".to_string(), args(false, true, &[]), 1);
    assert_eq!(
        no_video.command(),
        vec![
            "-y", "-i", "i", "-c:a", "copy", "-vn", "-movflags", "+frag_keyframe+empty_moov",
            "-f", "mp4", "o",
        ]
    );
    let neither = Task::new(0, "i".to_string(), "o".to_string(), args(true, true, &[]), 1);
    assert_eq!(
        neither.command(),
        vec!["-y", "-i", "i", "-an", "-vn", "-movflags", "+frag_keyframe+empty_moov", "-f", "mp4", "o"]
    );
}

#[test]
fn command_puts_extra_arguments_before_the_output() {
    let extra = ["-t", "5", "--", "-weird"];
    let task = Task::new(0, "i".to_string(), "o".to_string(), args(true, true, &extra), 1);
    assert_eq!(
        task.command(),
        vec![
            "-y", "-i", "i", "-an", "-vn", "-movflags", "+frag_keyframe+empty_moov", "-f", "mp4",
            "-t", "5", "--", "-weird", "o",
        ]
    );
}
