use hellox::named_map::NamedMap;
use hellox::step_input::{
    execute_workflow_step_navigation, parse_workflow_step_navigation, parse_workflow_step_shortcut,
    WorkflowStepNavigationResult, WorkflowStepNavigationShortcut, WorkflowStepShortcut,
};
use hellox::workflow_doc::{
    add_workflow_step, duplicate_workflow_step, execute_workflow_step_shortcut,
    move_workflow_step, remove_workflow_step, set_workflow_continue_on_error,
    set_workflow_shared_context, unique_duplicate_name, update_workflow_step, DocValue,
    FieldValue, StepEditError, StepEntry, WorkflowDocument, WorkflowStepDraft, WorkflowStepPatch,
};
use hellox::workflow_render::{
    is_invocable_workflow_name, render_workflow_detail, render_workflow_list,
    WorkflowScriptDetail, WorkflowScriptSummary, WorkflowStepSummary,
};

fn step(name: Option<&str>, prompt: &str) -> StepEntry {
    let mut m = NamedMap::new();
    if let Some(n) = name {
        m.insert("name".to_string(), FieldValue::Text(n.to_string()));
    }
    m.insert("prompt".to_string(), FieldValue::Text(prompt.to_string()));
    StepEntry::Object(m)
}

fn document(steps: Vec<StepEntry>) -> WorkflowDocument {
    let mut fields = NamedMap::new();
    fields.insert("steps".to_string(), DocValue::Steps(steps));
    WorkflowDocument { fields }
}

fn steps_of(doc: &WorkflowDocument) -> &Vec<StepEntry> {
    match doc.fields.get("steps") {
        Some(DocValue::Steps(v)) => v,
        _ => panic!("steps must be a list"),
    }
}

fn text_field(entry: &StepEntry, key: &str) -> Option<String> {
    match entry {
        StepEntry::Object(m) => match m.get(key) {
            Some(FieldValue::Text(t)) => Some(t.clone()),
            _ => None,
        },
        StepEntry::Other(_) => None,
    }
}

fn has_field(entry: &StepEntry, key: &str) -> bool {
    match entry {
        StepEntry::Object(m) => m.contains_key(key),
        StepEntry::Other(_) => false,
    }
}

fn shared_context(doc: &WorkflowDocument) -> Option<String> {
    match doc.fields.get("shared_context") {
        Some(DocValue::Field(FieldValue::Text(t))) => Some(t.clone()),
        _ => None,
    }
}

fn continue_on_error(doc: &WorkflowDocument) -> bool {
    matches!(
        doc.fields.get("continue_on_error"),
        Some(DocValue::Field(FieldValue::Flag(true)))
    )
}

#[test]
fn parses_navigation_shortcuts() {
    assert_eq!(
        parse_workflow_step_navigation("next"),
        Some(Ok(WorkflowStepNavigationShortcut::Next))
    );
    assert_eq!(
        parse_workflow_step_navigation("prev"),
        Some(Ok(WorkflowStepNavigationShortcut::Previous))
    );
    assert_eq!(
        parse_workflow_step_navigation("first"),
        Some(Ok(WorkflowStepNavigationShortcut::First))
    );
    assert_eq!(
        parse_workflow_step_navigation("last"),
        Some(Ok(WorkflowStepNavigationShortcut::Last))
    );
    assert_eq!(
        parse_workflow_step_navigation("previous"),
        Some(Ok(WorkflowStepNavigationShortcut::Previous))
    );
}

#[test]
fn invalid_navigation_shortcuts_return_usage() {
    assert_eq!(
        parse_workflow_step_navigation("next now"),
        Some(Err("Usage: next".to_string()))
    );
    assert_eq!(parse_workflow_step_navigation("/workflow panel"), None);
    assert_eq!(parse_workflow_step_navigation("mystery"), None);
}

#[test]
fn executes_navigation_with_boundary_handling() {
    assert_eq!(
        execute_workflow_step_navigation(1, 3, WorkflowStepNavigationShortcut::Next),
        Ok(WorkflowStepNavigationResult {
            step_number: 2,
            changed: true,
        })
    );
    assert_eq!(
        execute_workflow_step_navigation(3, 3, WorkflowStepNavigationShortcut::Next),
        Ok(WorkflowStepNavigationResult {
            step_number: 3,
            changed: false,
        })
    );
    assert_eq!(
        execute_workflow_step_navigation(3, 3, WorkflowStepNavigationShortcut::Previous),
        Ok(WorkflowStepNavigationResult {
            step_number: 2,
            changed: true,
        })
    );
    assert_eq!(
        execute_workflow_step_navigation(2, 3, WorkflowStepNavigationShortcut::First),
        Ok(WorkflowStepNavigationResult {
            step_number: 1,
            changed: true,
        })
    );
    assert_eq!(
        execute_workflow_step_navigation(2, 3, WorkflowStepNavigationShortcut::Last),
        Ok(WorkflowStepNavigationResult {
            step_number: 3,
            changed: true,
        })
    );
    assert_eq!(
        execute_workflow_step_navigation(1, 0, WorkflowStepNavigationShortcut::Next),
        Err("No workflow steps are available yet.".to_string())
    );
}

#[test]
fn parses_duplicate_move_remove_and_field_shortcuts() {
    assert_eq!(
        parse_workflow_step_shortcut("dup 3"),
        Some(Ok(WorkflowStepShortcut::Duplicate {
            to_step_number: Some(3),
        }))
    );
    assert_eq!(
        parse_workflow_step_shortcut("move 1"),
        Some(Ok(WorkflowStepShortcut::Move { to_step_number: 1 }))
    );
    assert_eq!(
        parse_workflow_step_shortcut("rm"),
        Some(Ok(WorkflowStepShortcut::Remove))
    );
    assert_eq!(
        parse_workflow_step_shortcut("name ship review"),
        Some(Ok(WorkflowStepShortcut::SetName {
            value: "ship review".to_string(),
        }))
    );
    assert_eq!(
        parse_workflow_step_shortcut("prompt summarize findings"),
        Some(Ok(WorkflowStepShortcut::SetPrompt {
            value: "summarize findings".to_string(),
        }))
    );
    assert_eq!(
        parse_workflow_step_shortcut("when {\"previous_status\":\"completed\"}"),
        Some(Ok(WorkflowStepShortcut::SetWhen {
            value: "{\"previous_status\":\"completed\"}".to_string(),
        }))
    );
    assert_eq!(
        parse_workflow_step_shortcut("clear-model"),
        Some(Ok(WorkflowStepShortcut::ClearModel))
    );
    assert_eq!(
        parse_workflow_step_shortcut("backend detached_process"),
        Some(Ok(WorkflowStepShortcut::SetBackend {
            value: "detached_process".to_string(),
        }))
    );
    assert_eq!(
        parse_workflow_step_shortcut("cwd docs"),
        Some(Ok(WorkflowStepShortcut::SetStepCwd {
            value: "docs".to_string(),
        }))
    );
    assert_eq!(
        parse_workflow_step_shortcut("background"),
        Some(Ok(WorkflowStepShortcut::SetRunMode {
            run_in_background: true,
        }))
    );
    assert_eq!(
        parse_workflow_step_shortcut("foreground"),
        Some(Ok(WorkflowStepShortcut::SetRunMode {
            run_in_background: false,
        }))
    );
}

#[test]
fn invalid_shortcuts_return_usage() {
    assert_eq!(
        parse_workflow_step_shortcut("move"),
        Some(Err("Usage: move <to-step-number>".to_string()))
    );
    assert_eq!(
        parse_workflow_step_shortcut("name"),
        Some(Err("Usage: name <text>".to_string()))
    );
    assert_eq!(
        parse_workflow_step_shortcut("clear-name nope"),
        Some(Err("Usage: clear-name".to_string()))
    );
    assert_eq!(parse_workflow_step_shortcut("/workflow panel"), None);
    assert_eq!(parse_workflow_step_shortcut("mystery"), None);
}

fn summarize_draft() -> WorkflowStepDraft {
    WorkflowStepDraft {
        name: Some("summarize".to_string()),
        prompt: "summarize findings".to_string(),
        when: Some(r#"{"previous_status":"completed"}"#.to_string()),
        model: Some("mock-model".to_string()),
        backend: None,
        step_cwd: Some("docs".to_string()),
        run_in_background: true,
    }
}

fn ship_patch() -> WorkflowStepPatch {
    WorkflowStepPatch {
        name: Some(None),
        prompt: Some("ship release".to_string()),
        when: Some(None),
        model: Some(None),
        backend: Some(Some("detached_process".to_string())),
        step_cwd: Some(None),
        run_in_background: Some(false),
    }
}

#[test]
fn workflow_authoring_authoring_roundtrip_edits_workflow_script() {
    let mut doc = document(vec![step(Some("review"), "review release notes")]);

    let added = add_workflow_step(&mut doc, summarize_draft(), Some(2)).expect("add step");
    assert_eq!(added, 2);
    assert_eq!(steps_of(&doc).len(), 2);

    update_workflow_step(&mut doc, 2, ship_patch()).expect("update step");
    let steps = steps_of(&doc);
    assert_eq!(text_field(&steps[1], "name"), None);
    assert_eq!(
        text_field(&steps[1], "backend").as_deref(),
        Some("detached_process")
    );
    assert!(!has_field(&steps[1], "run_in_background"));

    set_workflow_shared_context(&mut doc, Some("ship carefully".to_string()));
    assert_eq!(shared_context(&doc).as_deref(), Some("ship carefully"));

    set_workflow_continue_on_error(&mut doc, true);
    assert!(continue_on_error(&doc));

    remove_workflow_step(&mut doc, 1).expect("remove step");
    assert_eq!(steps_of(&doc).len(), 1);
}

#[test]
fn workflow_authoring_tests_authoring_roundtrip_edits_workflow_script() {
    let mut doc = document(vec![step(Some("review"), "review release notes")]);

    let added = add_workflow_step(&mut doc, summarize_draft(), Some(2)).expect("add step");
    assert_eq!(added, 2);
    assert_eq!(steps_of(&doc).len(), 2);

    update_workflow_step(&mut doc, 2, ship_patch()).expect("update step");
    let steps = steps_of(&doc);
    assert_eq!(text_field(&steps[1], "name"), None);
    assert_eq!(
        text_field(&steps[1], "backend").as_deref(),
        Some("detached_process")
    );
    assert!(!has_field(&steps[1], "run_in_background"));

    let (number, name) =
        duplicate_workflow_step(&mut doc, 1, Some(2), None).expect("duplicate workflow step");
    assert_eq!(number, 2);
    assert_eq!(name.as_deref(), Some("review copy"));

    let (moved_to, moved_name) = move_workflow_step(&mut doc, 2, 1).expect("move workflow step");
    assert_eq!(moved_to, 1);
    assert_eq!(moved_name.as_deref(), Some("review copy"));

    set_workflow_shared_context(&mut doc, Some("ship carefully".to_string()));
    assert_eq!(shared_context(&doc).as_deref(), Some("ship carefully"));

    set_workflow_continue_on_error(&mut doc, true);
    assert!(continue_on_error(&doc));

    remove_workflow_step(&mut doc, 2).expect("remove step");
    assert_eq!(steps_of(&doc).len(), 2);
}

#[test]
fn step_edits_report_their_refusals() {
    let mut doc = document(vec![step(Some("a"), "p")]);
    let err = add_workflow_step(&mut doc, summarize_draft(), Some(0)).unwrap_err();
    assert_eq!(
        err.message(),
        "workflow step index `0` is out of range; expected 1..=2"
    );
    let err = remove_workflow_step(&mut doc, 5).unwrap_err();
    assert_eq!(
        err.message(),
        "workflow step number `5` is out of range; expected 1..=1"
    );
    let mut bad_when = summarize_draft();
    bad_when.when = Some("{not json".to_string());
    let err = add_workflow_step(&mut doc, bad_when, None).unwrap_err();
    assert!(matches!(err, StepEditError::WhenNotJson));
    let mut blank = summarize_draft();
    blank.prompt = "   ".to_string();
    let err = add_workflow_step(&mut doc, blank, None).unwrap_err();
    assert_eq!(err.message(), "workflow prompt cannot be empty");
    let empty = WorkflowStepPatch::default();
    let err = update_workflow_step(&mut doc, 1, empty).unwrap_err();
    assert_eq!(
        err.message(),
        "workflow update-step requires at least one field change"
    );
    assert_eq!(steps_of(&doc).len(), 1);

    let mut fields = NamedMap::new();
    fields.insert(
        "steps".to_string(),
        DocValue::Field(FieldValue::Text("oops".to_string())),
    );
    let mut broken = WorkflowDocument { fields };
    let err = remove_workflow_step(&mut broken, 1).unwrap_err();
    assert_eq!(err.message(), "workflow `steps` must be a JSON array");
}

#[test]
fn duplicate_names_skip_names_in_use() {
    let steps = vec![
        step(Some("review"), "p"),
        step(Some("review copy"), "p"),
        step(Some("review copy 2"), "p"),
    ];
    assert_eq!(unique_duplicate_name("review", &steps), "review copy 3");
    assert_eq!(unique_duplicate_name("ship", &steps), "ship copy");
}

#[test]
fn moving_down_then_back_restores_order() {
    let mut doc = document(vec![
        step(Some("a"), "p"),
        step(Some("b"), "p"),
        step(Some("c"), "p"),
    ]);
    let (at, name) = move_workflow_step(&mut doc, 1, 3).expect("move");
    assert_eq!(at, 2);
    assert_eq!(name.as_deref(), Some("a"));
    let order: Vec<_> = steps_of(&doc)
        .iter()
        .map(|s| text_field(s, "name").unwrap())
        .collect();
    assert_eq!(order, vec!["b", "a", "c"]);
    move_workflow_step(&mut doc, at, 1).expect("move back");
    let order: Vec<_> = steps_of(&doc)
        .iter()
        .map(|s| text_field(s, "name").unwrap())
        .collect();
    assert_eq!(order, vec!["a", "b", "c"]);
}

#[test]
fn adding_then_removing_the_reported_step_restores_the_list() {
    let mut doc = document(vec![step(Some("a"), "p"), step(Some("b"), "p")]);
    let n = add_workflow_step(&mut doc, summarize_draft(), Some(1)).expect("add");
    assert_eq!(n, 1);
    let removed = remove_workflow_step(&mut doc, n).expect("remove");
    assert_eq!(removed.as_deref(), Some("summarize"));
    let order: Vec<_> = steps_of(&doc)
        .iter()
        .map(|s| text_field(s, "name").unwrap())
        .collect();
    assert_eq!(order, vec!["a", "b"]);
}

#[test]
fn panel_shortcuts_report_what_they_did() {
    let mut doc = document(vec![step(Some("review"), "p"), step(None, "q")]);
    let dup = execute_workflow_step_shortcut(
        &mut doc,
        1,
        WorkflowStepShortcut::Duplicate {
            to_step_number: None,
        },
    )
    .expect("dup");
    assert_eq!(dup.selected_step, Some(2));
    assert_eq!(
        dup.message,
        "Duplicated workflow step 1 into step 2 (`review copy`)."
    );
    let renamed = execute_workflow_step_shortcut(
        &mut doc,
        3,
        WorkflowStepShortcut::SetName {
            value: "  final ".to_string(),
        },
    )
    .expect("rename");
    assert_eq!(renamed.message, "Updated workflow step 3 name.");
    assert_eq!(text_field(&steps_of(&doc)[2], "name").as_deref(), Some("final"));
    let mode = execute_workflow_step_shortcut(
        &mut doc,
        3,
        WorkflowStepShortcut::SetRunMode {
            run_in_background: true,
        },
    )
    .expect("mode");
    assert_eq!(mode.message, "Set workflow step 3 to background mode.");
    let cleared = execute_workflow_step_shortcut(&mut doc, 3, WorkflowStepShortcut::ClearModel)
        .expect("clear");
    assert_eq!(cleared.message, "Cleared workflow step 3 model.");
    let removed =
        execute_workflow_step_shortcut(&mut doc, 3, WorkflowStepShortcut::Remove).expect("rm");
    assert_eq!(removed.selected_step, Some(2));
    assert_eq!(removed.message, "Removed workflow step 3 (`final`).");
}

#[test]
fn detail_and_list_render_script_settings() {
    let detail = WorkflowScriptDetail {
        summary: WorkflowScriptSummary {
            name: "release-review".to_string(),
            path: "C:\\repo\\.hellox\\workflows\\release-review.json".to_string(),
            step_count: 2,
            continue_on_error: true,
            shared_context: None,
            dynamic_command: true,
            validation_error: None,
        },
        steps: vec![
            WorkflowStepSummary {
                name: Some("review".to_string()),
                prompt_chars: 20,
                when: false,
                model: None,
                backend: None,
                cwd: None,
                run_in_background: false,
            },
            WorkflowStepSummary {
                name: None,
                prompt_chars: 12,
                when: true,
                model: Some("mock".to_string()),
                backend: None,
                cwd: Some("docs".to_string()),
                run_in_background: true,
            },
        ],
    };
    assert_eq!(
        render_workflow_detail(&detail),
        "workflow: release-review\npath: C:/repo/.hellox/workflows/release-review.json\nsteps: 2\ncontinue_on_error: true\ndynamic_command: yes\nshared_context: (none)\nstep_details:\n  1. review [prompt_chars=20]\n  2. (unnamed) [prompt_chars=12, when=true, model=mock, cwd=docs, background=true]"
    );
    assert_eq!(
        render_workflow_list("/repo", &Vec::new()),
        "No workflow scripts found under `/repo/.hellox/workflows`."
    );
    assert!(is_invocable_workflow_name("release-review"));
    assert!(!is_invocable_workflow_name("nested/flow"));
    assert!(!is_invocable_workflow_name("two words"));
    assert!(!is_invocable_workflow_name(""));
}
