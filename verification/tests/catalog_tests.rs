use hellox::brief::{
    attachment_path_input, format_brief, missing_brief_text, new_brief, removed_brief_text,
    BriefAttachment, BriefRecord,
};
use hellox::onboarding::{
    default_model, model_answer, optional_answer, provider_answer, required_answer, wizard_next,
    wizard_outcome, WizardEvent, WizardState,
};
use hellox::onboarding_copy::{ModelPreset, ProviderOption};
use hellox::text::str_less;
use hellox::workflow_catalog::{
    invocable_workflows, resolve_existing_workflow_name, resolve_named_workflow, sort_by_name,
};
use hellox::workflow_doc::{DocValue, FieldValue, StepEntry};
use hellox::workflow_render::{render_workflow_list, WorkflowScriptSummary};
use hellox::workflow_validation::{
    check_workflow_name, detail_from_file, render_workflow_validation, unreadable_script_summary,
    unreadable_validation, validation_from_file, workflow_template, WorkflowScriptFile,
    WorkflowStepFile,
};

const ROOT: &str = "/work/project";

fn step_file(name: Option<&str>, prompt: &str) -> WorkflowStepFile {
    WorkflowStepFile {
        name: name.map(|n| n.to_string()),
        prompt: prompt.to_string(),
        has_when: false,
        model: None,
        backend: None,
        cwd: None,
        run_in_background: None,
    }
}

fn script_path(relative: &str) -> String {
    format!("{ROOT}/.hellox/workflows/{relative}")
}

#[test]
fn discovers_and_renders_workflows() {
    let release = WorkflowScriptFile {
        steps: vec![
            step_file(Some("review"), "review release notes"),
            WorkflowStepFile {
                backend: Some("detached_process".to_string()),
                ..step_file(Some("summarize"), "summarize findings")
            },
        ],
        continue_on_error: None,
        shared_context: Some("ship carefully".to_string()),
    };
    let deploy = WorkflowScriptFile {
        steps: vec![WorkflowStepFile {
            run_in_background: Some(true),
            ..step_file(None, "deploy staging")
        }],
        continue_on_error: Some(true),
        shared_context: None,
    };
    let discovered = vec![
        detail_from_file(
            "release-review".to_string(),
            script_path("release-review.json"),
            release,
        )
        .summary,
        detail_from_file("nested/deploy".to_string(), script_path("nested/deploy.json"), deploy)
            .summary,
        unreadable_script_summary(
            "broken".to_string(),
            script_path("broken.json"),
            "failed to parse workflow script".to_string(),
        ),
    ];
    let workflows = sort_by_name(discovered);
    assert_eq!(workflows.len(), 3);
    assert_eq!(workflows[0].name, "broken");
    assert!(workflows[0].validation_error.is_some());
    assert_eq!(workflows[1].name, "nested/deploy");
    assert_eq!(workflows[2].name, "release-review");

    let rendered = render_workflow_list(ROOT, &workflows);
    assert!(rendered.contains("release-review"));
    assert!(rendered.contains("nested/deploy"));
    assert!(rendered.contains("broken"));
    assert!(rendered.contains("invalid"));
    assert!(rendered.contains("ship carefully"));

    let invocable = invocable_workflows(workflows);
    assert_eq!(invocable.len(), 1);
    assert_eq!(invocable[0].name, "release-review");
}

#[test]
fn loads_named_workflow_detail() {
    let file = WorkflowScriptFile {
        steps: vec![WorkflowStepFile {
            name: Some("review".to_string()),
            prompt: "review release notes".to_string(),
            has_when: true,
            model: Some("mock-model".to_string()),
            backend: None,
            cwd: Some("docs".to_string()),
            run_in_background: Some(true),
        }],
        continue_on_error: None,
        shared_context: None,
    };
    let listed = vec![detail_from_file(
        "release-review".to_string(),
        script_path("release-review.json"),
        WorkflowScriptFile { steps: Vec::new(), continue_on_error: None, shared_context: None },
    )
    .summary];
    let name = resolve_existing_workflow_name(&listed, "release-review", ROOT).expect("resolve");
    let detail = detail_from_file(name, script_path("release-review.json"), file);
    assert_eq!(detail.summary.name, "release-review");
    assert_eq!(detail.summary.step_count, 1);
    assert!(detail.summary.dynamic_command);
    assert_eq!(detail.steps[0].name.as_deref(), Some("review"));
    assert!(detail.steps[0].when);
    assert_eq!(detail.steps[0].model.as_deref(), Some("mock-model"));
    assert_eq!(detail.steps[0].cwd.as_deref(), Some("docs"));
    assert!(detail.steps[0].run_in_background);
}

#[test]
fn validates_workflows_and_renders_diagnostics() {
    let release = WorkflowScriptFile {
        steps: vec![
            step_file(Some("review"), "review release notes"),
            step_file(Some("review"), "duplicate review name"),
            step_file(None, "unnamed step"),
        ],
        continue_on_error: None,
        shared_context: None,
    };
    let nested = validation_from_file(
        "ops/release".to_string(),
        script_path("ops/release.json"),
        &release,
        false,
    );
    let broken = unreadable_validation(
        "broken".to_string(),
        script_path("broken.json"),
        true,
        "failed to parse workflow script".to_string(),
    );
    let all = sort_by_name(vec![nested, broken]);
    assert_eq!(all.len(), 2);
    assert!(all.iter().any(|item| !item.valid));
    assert!(all.iter().any(|item| item
        .messages
        .iter()
        .any(|message| message.contains("duplicate step names"))));

    let nested = &all[1];
    assert_eq!(nested.name, "ops/release");
    assert!(nested.valid);
    assert!(!nested.dynamic_command);
    assert!(nested
        .messages
        .iter()
        .any(|message| message.contains("dynamic `/name` invocation is unavailable")));

    let rendered = render_workflow_validation(&all, ROOT);
    assert!(rendered.contains("Workflow validation"));
    assert!(rendered.contains("broken"));
    assert!(rendered.contains("duplicate step names"));
}

#[test]
fn validation_lists_each_duplicate_once_in_order() {
    let file = WorkflowScriptFile {
        steps: vec![
            step_file(Some("zeta"), "a"),
            step_file(Some(" alpha "), "b"),
            step_file(Some("zeta"), "c"),
            step_file(Some("alpha"), "d"),
            step_file(Some("zeta"), "e"),
            step_file(Some("  "), "f"),
            step_file(Some("solo"), "g"),
        ],
        continue_on_error: None,
        shared_context: None,
    };
    let report = validation_from_file("review".to_string(), script_path("review.json"), &file, true);
    assert!(report.valid);
    assert_eq!(report.step_count, Some(7));
    assert_eq!(
        report.messages,
        vec![
            "duplicate step names: alpha, zeta".to_string(),
            "unnamed steps: 1 (allowed, but they cannot be referenced via `steps.<name>` placeholders)"
                .to_string(),
        ]
    );
}

#[test]
fn validation_of_empty_script_is_invalid() {
    let file = WorkflowScriptFile { steps: Vec::new(), continue_on_error: None, shared_context: None };
    let report = validation_from_file("empty".to_string(), script_path("empty.json"), &file, true);
    assert!(!report.valid);
    assert_eq!(report.step_count, Some(0));
    assert_eq!(report.messages, vec!["workflow must define at least one step".to_string()]);
    let rendered = render_workflow_validation(&vec![report], ROOT);
    assert_eq!(
        rendered,
        "Workflow validation under `/work/project/.hellox/workflows`:\n- empty — invalid, 0 step(s), dynamic_command: yes, path: /work/project/.hellox/workflows/empty.json\n  - workflow must define at least one step"
    );
}

#[test]
fn validation_report_of_nothing_says_so() {
    assert_eq!(
        render_workflow_validation(&Vec::new(), ROOT),
        "No workflow scripts found under `/work/project/.hellox/workflows`."
    );
}

#[test]
fn workflow_names_must_stay_inside_the_directory() {
    assert_eq!(check_workflow_name("  release-review ").as_deref(), Ok("release-review"));
    assert_eq!(check_workflow_name("ops/release").as_deref(), Ok("ops/release"));
    assert_eq!(check_workflow_name("my..name").as_deref(), Ok("my..name"));
    assert_eq!(
        check_workflow_name("   "),
        Err("workflow name cannot be empty".to_string())
    );
    let outside = Err("workflow name must stay within `.hellox/workflows`".to_string());
    assert_eq!(check_workflow_name("/etc/passwd"), outside);
    assert_eq!(check_workflow_name("../escape"), outside);
    assert_eq!(check_workflow_name("ops/../../escape"), outside);
    assert_eq!(check_workflow_name("ops/.."), outside);
}

#[test]
fn initializes_workflow_template_document() {
    let doc = workflow_template(Some(" ship carefully ".to_string()), true);
    match doc.fields.get("shared_context") {
        Some(DocValue::Field(FieldValue::Text(text))) => assert_eq!(text, "ship carefully"),
        _ => panic!("shared context missing"),
    }
    assert!(matches!(
        doc.fields.get("continue_on_error"),
        Some(DocValue::Field(FieldValue::Flag(true)))
    ));
    match doc.fields.get("steps") {
        Some(DocValue::Steps(steps)) => {
            assert_eq!(steps.len(), 2);
            match &steps[1] {
                StepEntry::Object(fields) => match fields.get("prompt") {
                    Some(FieldValue::Text(prompt)) => {
                        assert!(prompt.contains("{{workflow.previous_result}}"))
                    }
                    _ => panic!("prompt missing"),
                },
                StepEntry::Other(_) => panic!("step is not an object"),
            }
        }
        _ => panic!("steps missing"),
    }
    let bare = workflow_template(Some("   ".to_string()), false);
    assert_eq!(bare.fields.len(), 1);
}

fn summary(name: &str, valid: bool) -> WorkflowScriptSummary {
    let mut s = detail_from_file(
        name.to_string(),
        script_path(&format!("{name}.json")),
        WorkflowScriptFile { steps: Vec::new(), continue_on_error: None, shared_context: None },
    )
    .summary;
    if !valid {
        s.validation_error = Some("broken".to_string());
    }
    s
}

#[test]
fn named_lookup_ignores_case_and_unreadable_scripts() {
    let listed = vec![summary("Deploy", false), summary("deploy", true), summary("other", true)];
    assert_eq!(resolve_named_workflow(&listed, " DEPLOY "), Some("deploy".to_string()));
    assert_eq!(resolve_named_workflow(&listed, "  "), None);
    assert_eq!(
        resolve_existing_workflow_name(&listed, "missing", ROOT),
        Err("workflow `missing` was not found under `/work/project/.hellox/workflows`".to_string())
    );
}

#[test]
fn sorting_by_name_is_stable() {
    let sorted = sort_by_name(vec![summary("b", true), summary("a", false), summary("b", false), summary("a", true)]);
    let names: Vec<(&str, bool)> = sorted
        .iter()
        .map(|s| (s.name.as_str(), s.validation_error.is_none()))
        .collect();
    assert_eq!(names, vec![("a", false), ("a", true), ("b", true), ("b", false)]);
}

#[test]
fn code_point_order_of_texts() {
    assert!(str_less("", "a"));
    assert!(str_less("a", "b"));
    assert!(str_less("ab", "b"));
    assert!(str_less("a", "ab"));
    assert!(str_less("Z", "a"));
    assert!(!str_less("b", "ab"));
    assert!(!str_less("same", "same"));
}

#[test]
fn brief_shows_message_status_and_attachments() {
    let record = BriefRecord {
        message: "Ship the current release review flow.".to_string(),
        attachments: vec![BriefAttachment {
            path: "notes/review.md".to_string(),
            label: Some("review".to_string()),
        }],
        status: Some("in_progress".to_string()),
        updated_at: 42,
    };
    assert_eq!(
        format_brief(ROOT, &record),
        "brief_path: /work/project/.hellox/brief.json\nmessage: Ship the current release review flow.\nstatus: in_progress\nupdated_at: 42\nattachments:\n- notes/review.md (review)"
    );
}

#[test]
fn new_brief_trims_status_and_keeps_attachments() {
    let record = new_brief(
        "Need review on the release checklist.".to_string(),
        vec!["notes/review.md".to_string()],
        Some("  ".to_string()),
        7,
    );
    assert_eq!(record.status, None);
    assert_eq!(record.attachments.len(), 1);
    assert_eq!(
        format_brief(ROOT, &record),
        "brief_path: /work/project/.hellox/brief.json\nmessage: Need review on the release checklist.\nstatus: (none)\nupdated_at: 7\nattachments:\n- notes/review.md"
    );
    let empty = new_brief("m".to_string(), Vec::new(), Some(" done ".to_string()), 1);
    assert_eq!(empty.status.as_deref(), Some("done"));
    assert!(format_brief(ROOT, &empty).ends_with("attachments: (none)"));
    assert_eq!(
        attachment_path_input("  "),
        Err("brief attachment paths cannot be empty".to_string())
    );
    assert_eq!(attachment_path_input(" notes/a.md ").as_deref(), Ok("notes/a.md"));
    assert_eq!(missing_brief_text(ROOT), "No brief file found at `/work/project/.hellox/brief.json`.");
    assert_eq!(removed_brief_text(ROOT), "Removed brief file `/work/project/.hellox/brief.json`.");
}

#[test]
fn wizard_walks_through_provider_model_endpoint_and_key() {
    let mut state = WizardState::ChooseProvider;
    state = wizard_next(state, WizardEvent::ProviderChosen(ProviderOption::Anthropic));
    assert!(matches!(state, WizardState::ChooseModel { provider: ProviderOption::Anthropic }));
    state = wizard_next(state, WizardEvent::ModelChosen(None));
    assert!(matches!(state, WizardState::ChooseProvider));
    state = wizard_next(state, WizardEvent::ProviderChosen(ProviderOption::OpenAiCompatible));
    state = wizard_next(state, WizardEvent::ModelChosen(Some(ModelPreset::OpenAiSonnet)));
    state = wizard_next(state, WizardEvent::ReviewConfirmed);
    assert!(matches!(state, WizardState::EnterEndpoint { .. }));
    state = wizard_next(state, WizardEvent::EndpointEntered("http://127.0.0.1:9000".to_string()));
    state = wizard_next(state, WizardEvent::ApiKeyEntered("sk-test".to_string()));
    assert!(wizard_outcome(&state).is_none());
    state = wizard_next(state, WizardEvent::ReviewConfirmed);
    match &state {
        WizardState::Confirmed { provider, model, base_url, api_key } => {
            assert_eq!(*provider, ProviderOption::OpenAiCompatible);
            assert_eq!(*model, ModelPreset::OpenAiSonnet);
            assert_eq!(base_url, "http://127.0.0.1:9000");
            assert_eq!(api_key, "sk-test");
        }
        _ => panic!("wizard did not confirm"),
    }
    let outcome = wizard_outcome(&state).expect("finished");
    assert!(!outcome.exit_requested);
    assert!(outcome.model_override.is_some());

    let exited = wizard_next(WizardState::ChooseProvider, WizardEvent::ProviderChosen(ProviderOption::Exit));
    let outcome = wizard_outcome(&exited).expect("finished");
    assert!(outcome.exit_requested);
    assert!(outcome.model_override.is_none());
}

#[test]
fn wizard_answers_fall_back_on_blank_input() {
    assert_eq!(optional_answer("  \n", "http://current".to_string()), "http://current");
    assert_eq!(optional_answer(" http://new \n", "http://current".to_string()), "http://new");
    assert_eq!(required_answer(" \n"), None);
    assert_eq!(required_answer(" key \n").as_deref(), Some("key"));
    assert_eq!(provider_answer("\n", ProviderOption::OpenAiCompatible), Some(ProviderOption::OpenAiCompatible));
    assert_eq!(default_model(ProviderOption::Anthropic), Some(ModelPreset::AnthropicOpus));
    assert_eq!(default_model(ProviderOption::Exit), None);
    assert_eq!(
        model_answer(" ", ProviderOption::Anthropic, ModelPreset::AnthropicOpus),
        Some(ModelPreset::AnthropicOpus)
    );
}

#[test]
fn launch_model_comes_from_override_then_session_then_config() {
    match hellox::onboarding::select_model_source(Some(" sonnet "), Some("s-1"), "opus") {
        hellox::onboarding::ModelSource::Override(m) => assert_eq!(m, " sonnet "),
        other => panic!("unexpected source: {other:?}"),
    }
    match hellox::onboarding::select_model_source(Some("  "), Some("s-1"), "opus") {
        hellox::onboarding::ModelSource::StoredSession(id) => assert_eq!(id, "s-1"),
        other => panic!("unexpected source: {other:?}"),
    }
    match hellox::onboarding::select_model_source(None, None, "opus") {
        hellox::onboarding::ModelSource::Configured(m) => assert_eq!(m, "opus"),
        other => panic!("unexpected source: {other:?}"),
    }
}
