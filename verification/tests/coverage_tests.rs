use hellox::config::{
    default_gateway, default_session, provider_capabilities, ProviderConfig, ReasoningCompatibility,
};
use hellox::gateway::{gateway_base_url, gateway_not_ready_message, plan_gateway_start, GatewayPlan};
use hellox::interactive_select::{
    initial_selection_state, selection_step, SelectionOutcome, SelectionState,
};
use hellox::keys::{KeyCode, KeyInput, KeyKind};
use hellox::language::AppLanguage;
use hellox::onboarding_copy::{endpoint_prompt, provider_prompt, ProviderOption};
use hellox::paths::{
    config_root, default_config_path, memory_root, plugins_root, scheduled_tasks_path_for,
    session_file_path, telemetry_events_path,
};
use hellox::step_input::WorkflowStepNavigationShortcut;
use hellox::text::usize_text;
use hellox::workflow_doc::{
    add_workflow_step, DocValue, FieldValue, StepEntry, WorkflowDocument, WorkflowStepDraft,
};

fn key(code: KeyCode) -> KeyInput {
    KeyInput { code, control: false, kind: KeyKind::Press }
}

#[test]
fn selection_moves_wrap_and_digits_choose() {
    let state = initial_selection_state(7, 3);
    assert_eq!(state, SelectionState { selection: 2, exit_pending: false });
    let next = selection_step(state, key(KeyCode::Down), 3);
    assert_eq!(next, SelectionOutcome::Continue(SelectionState { selection: 0, exit_pending: false }));
    let prev = selection_step(SelectionState { selection: 0, exit_pending: false }, key(KeyCode::Up), 3);
    assert_eq!(prev, SelectionOutcome::Continue(SelectionState { selection: 2, exit_pending: false }));
    assert_eq!(selection_step(state, key(KeyCode::Char('2')), 3), SelectionOutcome::Chosen(1));
    assert_eq!(
        selection_step(state, key(KeyCode::Char('9')), 3),
        SelectionOutcome::Continue(state)
    );
    assert_eq!(selection_step(state, key(KeyCode::Enter), 3), SelectionOutcome::Chosen(2));
    assert_eq!(selection_step(state, key(KeyCode::Esc), 3), SelectionOutcome::Cancelled);
    let ctrl_c = KeyInput { code: KeyCode::Char('c'), control: true, kind: KeyKind::Press };
    let armed = selection_step(state, ctrl_c, 3);
    assert_eq!(armed, SelectionOutcome::Continue(SelectionState { selection: 2, exit_pending: true }));
    assert_eq!(
        selection_step(SelectionState { selection: 2, exit_pending: true }, ctrl_c, 3),
        SelectionOutcome::Cancelled
    );
}

#[test]
fn gateway_url_and_start_plan() {
    assert_eq!(gateway_base_url(None, "127.0.0.1:7821"), "http://127.0.0.1:7821");
    assert_eq!(
        gateway_base_url(Some("https://gw.example.com"), "127.0.0.1:7821"),
        "https://gw.example.com"
    );
    assert_eq!(
        gateway_not_ready_message("http://127.0.0.1:7821"),
        "local gateway did not become ready at http://127.0.0.1:7821"
    );
    match plan_gateway_start("http://127.0.0.1:7821".to_string(), false) {
        GatewayPlan::SpawnAndWait { base_url } => assert_eq!(base_url, "http://127.0.0.1:7821"),
        GatewayPlan::Ready => panic!("a silent local gateway is started"),
    }
    assert!(matches!(
        plan_gateway_start("http://127.0.0.1:7821".to_string(), true),
        GatewayPlan::Ready
    ));
    assert!(matches!(
        plan_gateway_start("https://gw.example.com".to_string(), false),
        GatewayPlan::Ready
    ));
    assert!(matches!(plan_gateway_start("not a url".to_string(), false), GatewayPlan::Ready));
}

#[test]
fn files_live_under_the_config_root() {
    let root = config_root();
    assert!(root.ends_with(".hellox"));
    assert_eq!(default_config_path(), format!("{root}/config.toml"));
    assert_eq!(memory_root(), format!("{root}/memory"));
    assert_eq!(plugins_root(), format!("{root}/plugins"));
    assert_eq!(telemetry_events_path(), format!("{root}/logs/telemetry-events.jsonl"));
    assert_eq!(session_file_path("abc"), format!("{root}/sessions/abc.json"));
    assert_eq!(
        scheduled_tasks_path_for("/tmp/cfg/config.toml"),
        "/tmp/cfg/tasks/scheduled_tasks.json"
    );
}

#[test]
fn configuration_defaults_and_capabilities() {
    assert_eq!(default_gateway().listen, "127.0.0.1:7821");
    let session = default_session();
    assert!(session.persist);
    assert_eq!(session.model, "opus");
    let anthropic = ProviderConfig::Anthropic {
        base_url: "https://api.anthropic.com".to_string(),
        anthropic_version: "2023-06-01".to_string(),
        api_key_env: "ANTHROPIC_API_KEY".to_string(),
    };
    let caps = provider_capabilities(Some(&anthropic));
    assert!(caps.tools && caps.streaming && caps.system_prompt);
    assert_eq!(caps.thinking, ReasoningCompatibility::Native);
    let none = provider_capabilities(None);
    assert!(!none.tools);
    assert_eq!(none.thinking, ReasoningCompatibility::Unsupported);
}

#[test]
fn small_texts() {
    assert_eq!(usize_text(0), "0");
    assert_eq!(usize_text(1207), "1207");
    assert_eq!(AppLanguage::SimplifiedChinese.locale_tag(), "zh-CN");
    assert_eq!(AppLanguage::English.locale_tag(), "en");
    assert_eq!(WorkflowStepNavigationShortcut::Next.boundary_name(), "last");
    assert_eq!(WorkflowStepNavigationShortcut::First.boundary_name(), "first");
    assert_eq!(provider_prompt(AppLanguage::English), "Choose provider [1/2/3, Enter=1]: ");
    assert_eq!(
        endpoint_prompt(AppLanguage::English, ProviderOption::Anthropic, "https://api.anthropic.com"),
        "Base URL (current: https://api.anthropic.com, Enter keeps it): "
    );
    assert_eq!(
        endpoint_prompt(AppLanguage::English, ProviderOption::Exit, "x"),
        "Press Enter to continue: "
    );
}

fn profile(name: &str, provider: &str, upstream: &str, display: Option<&str>, priced: bool) -> hellox::config::ProfileEntry {
    hellox::config::ProfileEntry {
        name: name.to_string(),
        provider: provider.to_string(),
        upstream_model: upstream.to_string(),
        display_name: display.map(|d| d.to_string()),
        has_pricing: priced,
    }
}

#[test]
fn profiles_become_models_with_their_provider_capabilities() {
    let mut providers = hellox::named_map::NamedMap::new();
    providers.insert(
        "openai".to_string(),
        ProviderConfig::OpenAiCompatible {
            base_url: "https://api.openai.com/v1".to_string(),
            api_key_env: "OPENAI_API_KEY".to_string(),
        },
    );
    let profiles = vec![
        profile("fast", "openai", "gpt-x", Some("Fast"), false),
        profile("ghost", "missing", "g-1", None, false),
    ];
    let models = hellox::config::materialize_profiles(&profiles, &providers);
    assert_eq!(models.len(), 2);
    assert_eq!(models[0].display_name, "Fast");
    assert_eq!(models[0].capabilities.thinking, ReasoningCompatibility::Simulated);
    assert_eq!(models[1].display_name, "ghost");
    assert!(!models[1].capabilities.tools);
}

#[test]
fn pricing_follows_the_profile_name_then_the_upstream_model() {
    let profiles = vec![
        profile("a", "openai", "up-1", None, true),
        profile("b", "openai", "up-2", None, false),
        profile("c", "openai", "up-2", None, true),
        profile("up-1", "openai", "other", None, false),
    ];
    assert_eq!(hellox::config::pricing_for_model(&profiles, "a"), Some(0));
    assert_eq!(hellox::config::pricing_for_model(&profiles, "up-2"), None);
    assert_eq!(hellox::config::pricing_for_model(&profiles, "up-1"), Some(0));
    assert_eq!(hellox::config::pricing_for_model(&profiles, "nothing"), None);
}

#[test]
fn requests_resolve_models_by_name_then_upstream() {
    let providers = hellox::named_map::NamedMap::new();
    let profiles = vec![
        profile("opus", "anthropic", "upstream-x", None, false),
        profile("fast", "openai", "opus", None, false),
        profile("alt", "openai", "upstream-x", None, false),
    ];
    let models = hellox::config::materialize_profiles(&profiles, &providers);
    assert_eq!(hellox::config::resolve_profile(&models, "opus"), Some(0));
    assert_eq!(hellox::config::resolve_profile(&models, "upstream-x"), Some(0));
    assert_eq!(hellox::config::resolve_profile(&models, "none"), None);
    assert_eq!(hellox::config::card_capabilities(&models[0].capabilities), vec!["messages".to_string()]);
    let mut with_provider = hellox::named_map::NamedMap::new();
    with_provider.insert(
        "anthropic".to_string(),
        ProviderConfig::Anthropic {
            base_url: "https://api.anthropic.com".to_string(),
            anthropic_version: "2023-06-01".to_string(),
            api_key_env: "ANTHROPIC_API_KEY".to_string(),
        },
    );
    let models = hellox::config::materialize_profiles(&profiles, &with_provider);
    assert_eq!(
        hellox::config::card_capabilities(&models[0].capabilities),
        vec!["messages".to_string(), "tools".to_string(), "streaming".to_string()]
    );
}

#[test]
fn requests_are_routed_to_a_registered_provider() {
    let providers = hellox::named_map::NamedMap::new();
    let profiles = vec![
        profile("opus", "anthropic", "upstream-opus", None, false),
        profile("fast", "openai", "gpt-fast", None, false),
    ];
    let models = hellox::config::materialize_profiles(&profiles, &providers);
    let adapters = vec!["anthropic".to_string()];
    let route = hellox::gateway::route_request(&models, &adapters, "upstream-opus").ok().expect("route");
    assert_eq!(route.profile_index, 0);
    assert_eq!(route.upstream_model, "upstream-opus");
    assert!(route.allow_unresolved_file_source);
    let missing = hellox::gateway::route_request(&models, &adapters, "fast").err().expect("refused");
    assert_eq!(missing.message(), "provider adapter not registered: openai");
    let unknown = hellox::gateway::route_request(&models, &adapters, "nope").err().expect("refused");
    assert_eq!(unknown.message(), "unknown model profile: nope");
}

#[test]
fn clock_reads_seconds_since_the_epoch() {
    let now = hellox::paths::unix_timestamp();
    assert!(now > 1_600_000_000);
    let path = hellox::paths::default_share_path("/tmp/shares", Some("s1"));
    assert!(path.starts_with("/tmp/shares/s1-"));
    assert!(path.ends_with(".md"));
}

#[test]
fn step_conditions_are_stored_as_parsed_json() {
    let mut fields = hellox::named_map::NamedMap::new();
    fields.insert("steps".to_string(), DocValue::Steps(Vec::new()));
    let mut doc = WorkflowDocument { fields };
    let draft = WorkflowStepDraft {
        name: Some("gate".to_string()),
        prompt: "check".to_string(),
        when: Some(r#" {"previous_status": "completed"} "#.to_string()),
        model: None,
        backend: None,
        step_cwd: None,
        run_in_background: false,
    };
    assert_eq!(add_workflow_step(&mut doc, draft, None).expect("added"), 1);
    match doc.fields.get("steps") {
        Some(DocValue::Steps(steps)) => match &steps[0] {
            StepEntry::Object(step) => match step.get("when") {
                Some(FieldValue::Json(value)) => {
                    assert_eq!(value["previous_status"], serde_json::Value::String("completed".to_string()))
                }
                _ => panic!("condition is not JSON"),
            },
            StepEntry::Other(_) => panic!("step is not an object"),
        },
        _ => panic!("steps missing"),
    }
}

#[test]
fn scope_and_mode_names_read_back() {
    let scopes = [
        hellox::config::McpScope::Local,
        hellox::config::McpScope::User,
        hellox::config::McpScope::Project,
        hellox::config::McpScope::Dynamic,
        hellox::config::McpScope::Enterprise,
        hellox::config::McpScope::Managed,
        hellox::config::McpScope::Claudeai,
    ];
    for scope in scopes {
        assert_eq!(scope.as_str().parse::<hellox::config::McpScope>(), Ok(scope));
    }
    assert_eq!(hellox::config::McpScope::default().as_str(), "user");
    for mode in [
        hellox::config::PermissionMode::Default,
        hellox::config::PermissionMode::AcceptEdits,
        hellox::config::PermissionMode::BypassPermissions,
    ] {
        assert_eq!(mode.as_str().parse::<hellox::config::PermissionMode>(), Ok(mode));
    }
}

#[test]
fn trust_store_updates_in_place_or_appends() {
    let mut store = hellox::trust::WorkspaceTrustStore::new();
    store.insert("/a", 1);
    store.insert("/b", 2);
    store.insert("/a", 3);
    let entries: Vec<(&str, u64)> = store
        .trusted_workspaces
        .iter()
        .map(|e| (e.path.as_str(), e.accepted_at))
        .collect();
    assert_eq!(entries, vec![("/a", 3), ("/b", 2)]);
}

#[test]
fn enabling_continue_on_error_stores_true() {
    let mut fields = hellox::named_map::NamedMap::new();
    fields.insert("steps".to_string(), DocValue::Steps(Vec::new()));
    let mut doc = WorkflowDocument { fields };
    let shown = hellox::workflow_commands::apply_authoring_command(
        &mut doc,
        "/w/x.json",
        hellox::workflow_commands::WorkflowAuthoringCommand::EnableContinueOnError,
    );
    assert_eq!(shown.as_deref(), Ok("Enabled continue_on_error for `/w/x.json`.\n"));
    assert!(matches!(
        doc.fields.get("continue_on_error"),
        Some(DocValue::Field(FieldValue::Flag(true)))
    ));
}
