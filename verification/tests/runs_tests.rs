use hellox::workflow_runs::{
    build_failure_record, build_success_record, check_run_id, derive_workflow_name_from_source,
    is_safe_run_id, latest_workflow_run, matches_workflow_filter, normalize_filter,
    select_workflow_runs, summary_from_report, summary_from_steps, workflow_run_path,
    RunReport, StepReport, SummaryReport, WorkflowRunInvocation, WorkflowRunRecord,
    WorkflowRunStepRecord, WorkflowRunSummary, WorkflowRunTarget,
};

fn record(run_id: &str, finished_at: u64, name: Option<&str>, source: Option<&str>) -> WorkflowRunRecord {
    WorkflowRunRecord {
        run_id: run_id.to_string(),
        status: "completed".to_string(),
        workflow_name: name.map(|n| n.to_string()),
        workflow_source: source.map(|s| s.to_string()),
        requested_script_path: None,
        started_at: 0,
        finished_at,
        shared_context: None,
        continue_on_error: None,
        summary: WorkflowRunSummary::default(),
        steps: Vec::new(),
        error: None,
        result_text: String::new(),
    }
}

fn ids(records: &[WorkflowRunRecord]) -> Vec<&str> {
    records.iter().map(|r| r.run_id.as_str()).collect()
}

fn step(status: &str) -> WorkflowRunStepRecord {
    WorkflowRunStepRecord {
        name: "s".to_string(),
        status: status.to_string(),
        result_text: None,
        error: None,
        reason: None,
    }
}

#[test]
fn run_listing_is_newest_first_with_run_id_tiebreak() {
    let records = vec![
        record("run-1", 10, Some("release"), None),
        record("run-3", 30, Some("release"), None),
        record("run-2a", 20, Some("other"), None),
        record("run-2b", 20, Some("release"), None),
    ];
    let listed = select_workflow_runs(records, None, 10).expect("list");
    assert_eq!(ids(&listed), vec!["run-3", "run-2b", "run-2a", "run-1"]);
}

#[test]
fn run_listing_filters_by_workflow_and_limits() {
    let records = vec![
        record("run-1", 10, Some("Release"), None),
        record("run-2", 20, None, Some("/work/.hellox/workflows/release.json")),
        record("run-3", 30, Some("other"), None),
        record("run-4", 40, None, Some("C:\\work\\.hellox\\workflows\\release.json")),
    ];
    let listed = select_workflow_runs(records, Some("  release "), 2).expect("list");
    assert_eq!(ids(&listed), vec!["run-4", "run-2"]);
    let refused = select_workflow_runs(Vec::new(), None, 0).err();
    assert_eq!(refused.as_deref(), Some("workflow runs limit must be at least 1"));
}

#[test]
fn latest_run_or_why_there_is_none() {
    let records = vec![record("run-1", 10, Some("a"), None), record("run-2", 20, Some("b"), None)];
    let latest = latest_workflow_run(records, Some("a"), "/work").expect("latest");
    assert_eq!(latest.run_id, "run-1");
    assert_eq!(
        latest_workflow_run(Vec::new(), Some(" deploy "), "/work").err().as_deref(),
        Some("no workflow runs found for `deploy` under `/work/.hellox/workflow-runs`")
    );
    assert_eq!(
        latest_workflow_run(Vec::new(), None, "/work").err().as_deref(),
        Some("no workflow runs found under `/work/.hellox/workflow-runs`")
    );
}

#[test]
fn workflow_names_come_from_script_paths() {
    assert_eq!(
        derive_workflow_name_from_source("/repo/.hellox/workflows/ops/release.json").as_deref(),
        Some("ops/release")
    );
    assert_eq!(
        derive_workflow_name_from_source("C:\\repo\\.hellox\\workflows\\deploy.json.json").as_deref(),
        Some("deploy")
    );
    assert_eq!(derive_workflow_name_from_source("/repo/.hellox/workflows/.json"), None);
    assert_eq!(derive_workflow_name_from_source("/repo/scripts/deploy.json"), None);
    let run = record("run-9", 1, None, Some("/repo/.hellox/workflows/Deploy.json"));
    assert!(matches_workflow_filter(&run, "deploy"));
    assert!(!matches_workflow_filter(&run, "release"));
}

#[test]
fn run_ids_are_checked_before_lookup() {
    assert!(is_safe_run_id("run-1700000000_01"));
    assert!(!is_safe_run_id("../etc"));
    assert_eq!(check_run_id("  run-1 ").as_deref(), Ok("run-1"));
    assert_eq!(
        check_run_id("   "),
        Err("workflow run id cannot be empty".to_string())
    );
    assert_eq!(
        check_run_id("run/1"),
        Err("workflow run id must only contain ASCII letters, numbers, `-`, or `_`".to_string())
    );
    assert_eq!(normalize_filter(Some("  ")), None);
    assert_eq!(workflow_run_path("/work", "run-1"), "/work/.hellox/workflow-runs/run-1.json");
}

#[test]
fn step_tally_counts_each_outcome() {
    let steps = vec![
        step("completed"),
        step("coordinated"),
        step("failed"),
        step("running"),
        step("skipped"),
        step("skipped"),
        step("queued"),
    ];
    assert_eq!(
        summary_from_steps(&steps),
        WorkflowRunSummary {
            total_steps: 7,
            completed_steps: 2,
            failed_steps: 1,
            running_steps: 1,
            skipped_steps: 2,
        }
    );
}

#[test]
fn success_record_reads_the_report() {
    let invocation = WorkflowRunInvocation::from_target(
        &WorkflowRunTarget::Path("C:\\repo\\.hellox\\workflows\\ship.json".to_string()),
        Some("  context ".to_string()),
        Some(true),
    );
    assert_eq!(invocation.requested_script_path.as_deref(), Some("C:/repo/.hellox/workflows/ship.json"));
    assert_eq!(invocation.shared_context.as_deref(), Some("context"));
    let report = RunReport {
        workflow_source: Some(" /repo/.hellox/workflows/ship.json ".to_string()),
        status: Some("  ".to_string()),
        steps: Some(vec![
            StepReport {
                name: Some(" review ".to_string()),
                status: Some("completed".to_string()),
                result: Some(" done ".to_string()),
                error: Some(" ".to_string()),
                reason: None,
            },
            StepReport { name: None, status: None, result: None, error: None, reason: Some("x".to_string()) },
        ]),
        summary: None,
    };
    let run = build_success_record("run-5".to_string(), invocation, 1, 2, "{}", Some(report));
    assert_eq!(run.status, "completed");
    assert_eq!(run.workflow_name.as_deref(), Some("ship"));
    assert_eq!(run.workflow_source.as_deref(), Some("/repo/.hellox/workflows/ship.json"));
    assert_eq!(run.steps.len(), 2);
    assert_eq!(run.steps[0].name, "review");
    assert_eq!(run.steps[0].result_text.as_deref(), Some(" done "));
    assert_eq!(run.steps[0].error, None);
    assert_eq!(run.steps[1].name, "(unnamed)");
    assert_eq!(run.steps[1].status, "unknown");
    assert_eq!(run.summary.total_steps, 2);
    assert_eq!(run.summary.completed_steps, 1);

    let reported = summary_from_report(SummaryReport {
        total_steps: Some(3),
        completed_steps: Some(2),
        failed_steps: None,
        running_steps: Some(0),
        skipped_steps: Some(1),
    });
    assert_eq!(reported.total_steps, 3);
    assert_eq!(reported.failed_steps, 0);

    let plain = WorkflowRunInvocation::from_target(&WorkflowRunTarget::Named(" ship ".to_string()), None, None);
    let unparsed = build_success_record("run-6".to_string(), plain, 1, 2, "not json", None);
    assert_eq!(unparsed.workflow_name.as_deref(), Some("ship"));
    assert_eq!(unparsed.status, "completed");
    assert_eq!(unparsed.summary, WorkflowRunSummary::default());
    assert_eq!(unparsed.result_text, "not json");
}

#[test]
fn failure_record_keeps_the_error() {
    let invocation = WorkflowRunInvocation::from_target(
        &WorkflowRunTarget::Path("/repo/x.json".to_string()),
        None,
        None,
    );
    let run = build_failure_record("run-7".to_string(), invocation, 3, 4, "boom");
    assert_eq!(run.status, "failed");
    assert_eq!(run.workflow_source.as_deref(), Some("/repo/x.json"));
    assert_eq!(run.error.as_deref(), Some("boom"));
    assert_eq!(run.result_text, "boom");
    assert!(run.steps.is_empty());
}
