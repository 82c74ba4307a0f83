use ffrenc::orchestrator::{
    plan_jobs, Candidate, RunAction, RunError, RunEvent, RunPhase, StartError, Supervisor, UiEnd,
    MAX_ACTIVE_JOBS, QUEUE_CAPACITY, SHUTDOWN_GRACE_NANOS,
};
use ffrenc::{substitute, Args, OutputFormat};

fn args(input: &str, output: &str, overwrite_output: bool) -> Args {
    Args {
        input: input.to_string(),
        output: output.to_string(),
        no_audio: false,
        no_video: false,
        overwrite_output,
        format: OutputFormat::Human,
        ffmpeg_args: Vec::new(),
    }
}

fn candidate(input: &str, output_exists: bool) -> Candidate {
    Candidate { input: input.to_string(), output: format!("{input}.mp4"), output_exists }
}

#[test]
fn policy_values() {
    assert_eq!(MAX_ACTIVE_JOBS, 1);
    assert_eq!(QUEUE_CAPACITY, 100);
    assert_eq!(SHUTDOWN_GRACE_NANOS, 1_000_000_000);
}

#[test]
fn a_dash_asks_for_a_list() {
    assert!(args("-", "o", false).reads_list());
    assert!(!args("", "o", false).reads_list());
    assert!(!args("--", "o", false).reads_list());
    assert!(!args("a", "o", false).reads_list());
    assert!(!args("-a", "o", false).reads_list());
    assert!(!args("./-", "o", false).reads_list());
}

#[test]
fn the_stem_takes_the_place_of_the_mark() {
    assert_eq!(args("i", "{SLUG}.renc.mp4", false).output_name("film"), "film.renc.mp4");
    assert_eq!(args("i", "out/{SLUG}/{SLUG}.mp4", false).output_name("a"), "out/a/a.mp4");
    assert_eq!(args("i", "fixed.mp4", false).output_name("film"), "fixed.mp4");
    assert_eq!(args("i", "{SLUG}", false).output_name(""), "");
    assert_eq!(args("i", "{SLUG}{SLUG}", false).output_name("ab"), "abab");
    assert_eq!(args("i", "{slug}.mp4", false).output_name("film"), "{slug}.mp4");
    assert_eq!(args("i", "{{SLUG}}", false).output_name("x"), "{x}");
    assert_eq!(args("i", "{SLUG", false).output_name("x"), "{SLUG");
    assert_eq!(args("i", "é{SLUG}ü", false).output_name("ñ"), "éñü");
    assert_eq!(args("i", "", false).output_name("x"), "");
}

#[test]
fn substitution_is_from_left_to_right_without_overlap() {
    assert_eq!(substitute("aaa", "aa", "b"), "ba");
    assert_eq!(substitute("aaaa", "aa", "b"), "bb");
    assert_eq!(substitute("abcabc", "bc", ""), "aa");
    assert_eq!(substitute("abc", "", "x"), "abc");
    assert_eq!(substitute("ab", "abc", "x"), "ab");
    assert_eq!(substitute("xx", "x", "xx"), "xxxx");
}

#[test]
fn substitution_agrees_with_the_standard_library() {
    let texts = ["", "a", "{SLUG}", "a{SLUG}b{SLUG}", "{S{SLUG}LUG}", "{SLUG}{SLUG}{", "ab{SLU"];
    let marks = ["{SLUG}", "a", "{S", "}{"];
    for text in texts {
        for mark in marks {
            assert_eq!(substitute(text, mark, "<>"), text.replace(mark, "<>"));
        }
    }
}

#[test]
fn no_input_no_run() {
    let plan = plan_jobs(&args("-", "o", true), &Vec::new());
    assert!(matches!(plan, Err(StartError::NoInputs)));
}

#[test]
fn jobs_are_numbered_in_the_order_given() {
    let candidates = vec![candidate("c", false), candidate("a", false), candidate("b", false)];
    let jobs = plan_jobs(&args("-", "o", false), &candidates).expect("nothing stands in the way");
    assert_eq!(jobs.len(), 3);
    for (position, job) in jobs.iter().enumerate() {
        assert_eq!(job.id, position);
        assert_eq!(job.input, candidates[position].input);
        assert_eq!(job.output, candidates[position].output);
    }
}

#[test]
fn an_output_that_exists_stops_the_run() {
    let candidates = vec![
        candidate("a", false),
        candidate("b", true),
        candidate("c", true),
    ];
    match plan_jobs(&args("-", "o", false), &candidates) {
        Err(StartError::OutputExists { output }) => assert_eq!(output, "b.mp4"),
        other => panic!("the run was not refused: {other:?}"),
    }
}

#[test]
fn an_output_that_exists_may_be_overwritten_on_request() {
    let candidates = vec![candidate("a", true), candidate("b", true)];
    let jobs = plan_jobs(&args("-", "o", true), &candidates).expect("overwriting was asked for");
    assert_eq!(jobs.len(), 2);
    assert_eq!(jobs[1].id, 1);
    assert_eq!(jobs[1].output, "b.mp4");
}

#[test]
fn the_run_waits_for_every_job() {
    let mut run = Supervisor::new(3);
    assert_eq!(run.phase, RunPhase::Running);
    assert_eq!(run.step(RunEvent::JobEnded), RunAction::Wait);
    assert_eq!(run.step(RunEvent::JobEnded), RunAction::Wait);
    assert_eq!(run.pending, 1);
    assert_eq!(
        run.step(RunEvent::JobEnded),
        RunAction::CancelUi { grace_nanos: SHUTDOWN_GRACE_NANOS }
    );
    assert_eq!(run.phase, RunPhase::Draining);
    assert_eq!(run.pending, 0);
    assert_eq!(
        run.step(RunEvent::UiEnded { end: UiEnd::Clean }),
        RunAction::Exit { result: Ok(()) }
    );
    assert_eq!(run.phase, RunPhase::Over);
}

#[test]
fn an_aggregator_that_overstays_is_a_failure() {
    let mut run = Supervisor::new(1);
    assert_eq!(
        run.step(RunEvent::JobEnded),
        RunAction::CancelUi { grace_nanos: 1_000_000_000 }
    );
    assert_eq!(
        run.step(RunEvent::GraceExpired),
        RunAction::Exit { result: Err(RunError::ShutdownTimeout) }
    );
    assert_eq!(run.phase, RunPhase::Over);
    assert_eq!(run.step(RunEvent::UiEnded { end: UiEnd::Clean }), RunAction::Wait);
    assert_eq!(run.phase, RunPhase::Over);
}

#[test]
fn the_aggregators_failure_is_the_runs_failure() {
    for (end, result) in [
        (UiEnd::Clean, Ok(())),
        (UiEnd::Failed, Err(RunError::UiFailed)),
        (UiEnd::Panicked, Err(RunError::UiPanicked)),
    ] {
        assert_eq!(Supervisor::verdict(end), result);
        let mut run = Supervisor::new(1);
        run.step(RunEvent::JobEnded);
        assert_eq!(run.step(RunEvent::UiEnded { end }), RunAction::Exit { result });
    }
}

#[test]
fn an_aggregator_that_ends_early_is_judged_when_the_jobs_are_done() {
    let mut run = Supervisor::new(2);
    assert_eq!(run.step(RunEvent::UiEnded { end: UiEnd::Failed }), RunAction::Wait);
    assert_eq!(run.phase, RunPhase::Running);
    assert_eq!(run.step(RunEvent::JobEnded), RunAction::Wait);
    assert_eq!(
        run.step(RunEvent::JobEnded),
        RunAction::Exit { result: Err(RunError::UiFailed) }
    );
    assert_eq!(run.phase, RunPhase::Over);
}

#[test]
fn the_grace_period_does_not_run_while_jobs_run() {
    let mut run = Supervisor::new(2);
    assert_eq!(run.step(RunEvent::GraceExpired), RunAction::Wait);
    assert_eq!(run.phase, RunPhase::Running);
    assert_eq!(run.pending, 2);
}
