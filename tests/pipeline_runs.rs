use gdcbot::pipeline::{DownloadOutcome, PipelineRun, RefreshOutcome, RunContext, SourceOutcome};

fn outcome(descriptor: &str, failure: Option<&str>) -> SourceOutcome {
    SourceOutcome { descriptor: descriptor.to_string(), failure: failure.map(|s| s.to_string()) }
}

#[test]
fn manual_run_header_names_requester() {
    let run = PipelineRun::start(RunContext::Manual { requester: "op#0001".to_string() }, 730);
    let v = run.status();
    assert_eq!(v.title, "Gamedata Checker");
    assert_eq!(v.footer, Some("Requested by: op#0001".to_string()));
    assert_eq!(v.description, "```\nPulling latest sourcemod...\n```");
    assert!(v.fields.is_empty());
}

#[test]
fn automatic_run_header_names_title() {
    let run = PipelineRun::start(RunContext::Automatic { title: "Counter-Strike".to_string() }, 730);
    let v = run.status();
    assert_eq!(v.title, "Counter-Strike update detected");
    assert_eq!(v.footer, None);
}

#[test]
fn rendering_twice_is_identical() {
    let mut run = PipelineRun::start(RunContext::Automatic { title: "TF2".to_string() }, 440);
    run.refresh_done(RefreshOutcome::Success);
    assert_eq!(run.status(), run.status());
}

#[test]
fn stages_log_in_order() {
    let mut run = PipelineRun::start(RunContext::Manual { requester: "a".to_string() }, 730);
    let v = run.refresh_done(RefreshOutcome::Success);
    assert_eq!(v.description, "```\nPulling latest sourcemod...\nDownloading appid '730'\n```");
    run.download_done(DownloadOutcome::Status("exit status: 8".to_string()));
    let report = run.validation_done(&vec![]);
    assert_eq!(
        run.log(),
        vec![
            "Pulling latest sourcemod...",
            "Downloading appid '730'",
            "Exited with status code exit status: 8",
            "Download completed. Running gdc...",
            "Execution completed.",
        ]
    );
    assert!(report.description.ends_with("Execution completed.\n```"));
}

#[test]
fn one_failed_source_gives_one_field() {
    let mut run = PipelineRun::start(RunContext::Automatic { title: "CS".to_string() }, 730);
    run.refresh_done(RefreshOutcome::Success);
    run.download_done(DownloadOutcome::Success);
    let report = run.validation_done(&vec![
        outcome("http://a.test/x", None),
        outcome("/srv/b", Some("bad offset")),
        outcome("http://c.test/y", None),
    ]);
    assert_eq!(report.fields, vec![("/srv/b".to_string(), "```\nbad offset\n```".to_string())]);
}

#[test]
fn refresh_failure_does_not_abort() {
    let mut run = PipelineRun::start(RunContext::Manual { requester: "a".to_string() }, 730);
    run.refresh_done(RefreshOutcome::LaunchFailed("No such file".to_string()));
    run.download_done(DownloadOutcome::Success);
    let report = run.validation_done(&vec![outcome("x", None)]);
    assert!(report.fields.is_empty());
    assert!(run.log().contains(&"SourceMod pull failed: No such file".to_string()));
    assert!(report.description.contains("SourceMod pull failed: No such file"));
}

#[test]
fn failed_exit_and_download_error_are_logged() {
    let mut run = PipelineRun::start(RunContext::Manual { requester: "a".to_string() }, -1);
    run.refresh_done(RefreshOutcome::ExitFailed("code 1".to_string()));
    run.download_done(DownloadOutcome::Error("unreachable".to_string()));
    let log = run.log();
    assert_eq!(log[1], "SourceMod pull failed! (git exited with code 1)");
    assert_eq!(log[2], "Downloading appid '-1'");
    assert_eq!(log[3], "Fatal error: unreachable");
}
