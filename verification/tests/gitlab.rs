use seed_trials::gitlab::{Gitlab, Payload, UploadedArtifacts};

fn payload(commit_id: Option<&str>) -> Payload {
    Payload::new(
        "/tmp/w/logs".to_string(),
        "{\n  \"Msg\": \"X\"\n}\n".to_string(),
        Some("out".to_string()),
        None,
        7,
        commit_id.map(String::from),
    )
}

#[test]
fn reporting_needs_a_token_and_a_project() {
    let host = || "gitlab.com".to_string();
    let token = || Some("SECRET-REDACTED".to_string());
    assert!(Gitlab::from_settings(None, host(), None).is_none());
    assert!(Gitlab::from_settings(token(), host(), None).is_none());
    assert!(Gitlab::from_settings(None, host(), Some(12)).is_none());
    let api = Gitlab::from_settings(token(), host(), Some(12)).unwrap();
    assert_eq!(api.endpoint(), "gitlab.com");
    assert_eq!(api.token(), "SECRET-REDACTED");
    assert_eq!(api.project_id(), 12);
}

#[test]
fn requests_go_to_the_project() {
    let api = Gitlab::new("gitlab.example.org".to_string(), "t".to_string(), 4711);
    assert_eq!(api.uploads_url(), "https://gitlab.example.org/api/v4/projects/4711/uploads");
    assert_eq!(api.issues_url(), "https://gitlab.example.org/api/v4/projects/4711/issues");
    let first = Gitlab::new("h".to_string(), "t".to_string(), 0);
    assert_eq!(first.uploads_url(), "https://h/api/v4/projects/0/uploads");
}

#[test]
fn artifacts_are_named_after_seed_and_time() {
    let names = payload(None).artifact_names(1700000000);
    assert_eq!(names.stdout, "simulation_stdout_seed_7_1700000000.txt");
    assert_eq!(names.stderr, "simulation_stderr_seed_7_1700000000.txt");
    assert_eq!(names.logs, "simulation_logs_seed_7_1700000000.tar.gz");
}

#[test]
fn a_payload_gives_back_what_it_holds() {
    let payload = payload(Some("abc123"));
    assert_eq!(payload.seed(), 7);
    assert_eq!(payload.logs(), "/tmp/w/logs");
    assert_eq!(payload.filtered_output(), "{\n  \"Msg\": \"X\"\n}\n");
    assert_eq!(payload.stdout_text(), "out");
    assert_eq!(payload.stderr_text(), "");
}

#[test]
fn the_issue_links_the_uploads() {
    let api = Gitlab::new("gitlab.com".to_string(), "t".to_string(), 9);
    let uploads = UploadedArtifacts {
        stdout_url: "/uploads/1/out.txt".to_string(),
        stderr_url: "/uploads/2/err.txt".to_string(),
        logs_url: "/uploads/3/logs.tar.gz".to_string(),
    };
    let issue = api.create_issue(&payload(Some("abc123")), &uploads);
    assert_eq!(issue.url, "https://gitlab.com/api/v4/projects/9/issues");
    assert_eq!(issue.title, "Investigate Faulty Seed #7");
    assert_eq!(
        issue.description,
        "- Commit ID: abc123\n- Output: [simulation.out](/uploads/1/out.txt)\n- Stderr : [simulation.err](/uploads/2/err.txt)\n- Full logs: [logs.tar.gz](/uploads/3/logs.tar.gz)\n- Layer errors:\n```json\n{\n  \"Msg\": \"X\"\n}\n\n```\n"
    );
    let unknown = api.create_issue(&payload(None), &uploads);
    assert!(unknown.description.starts_with("- Commit ID: Non specified\n- Output: "));
}

#[test]
fn without_a_tracker_the_report_is_printed() {
    let report = payload(None).console_report();
    assert_eq!(
        report.out,
        "stdout:\n\nout\nstderr:\n\nlayer errors (filtered_output):\n\n{\n  \"Msg\": \"X\"\n}\n\n"
    );
    assert_eq!(report.err, "");
    let bare = Payload::new(String::new(), String::new(), None, Some("boom".to_string()), 1, None);
    let report = bare.console_report();
    assert_eq!(report.out, "stdout:\n\nstderr:\n\nlayer errors (filtered_output):\n\n");
    assert_eq!(report.err, "boom\n");
}
