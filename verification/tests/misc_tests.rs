use hellox::config::{
    default_providers, LspServerConfig, McpScope, McpTransportConfig, PermissionMode,
    SchedulerConfig,
};
use hellox::language::AppLanguage;
use hellox::metrics::GatewayMetrics;
use hellox::named_map::NamedMap;
use hellox::onboarding::{
    apply_onboarding_selection, current_provider_base_url, onboarding_start,
    prepare_interactive_session_launch, prepare_noninteractive_session_launch,
    provider_requirement, LaunchPreparation, OnboardingOutcome, OnboardingStart,
    ProfileSummary, ProviderReadiness,
};
use hellox::onboarding_copy::{ModelPreset, ProviderOption};
use hellox::wrap::{wrap_text, CONTENT_WIDTH};
use hellox::paths::{default_share_path, join_path, share_path_at, tasks_root_for};
use hellox::session_text::{
    format_prompt_submission_error, render_tool_search, welcome_v2_lines, ToolInfo,
};
use hellox::gateway::{healthcheck_target, is_healthy_response};

fn tool(name: &str, description: Option<&str>) -> ToolInfo {
    ToolInfo {
        name: name.to_string(),
        description: description.map(|d| d.to_string()),
    }
}

fn local_tools() -> Vec<ToolInfo> {
    vec![
        tool("bash", Some("Run a shell command")),
        tool("mcp_list_resources", Some("List resources of an MCP server")),
        tool("read_file", Some("Read a file from the workspace")),
        tool("mcp_call_tool", Some("Call a tool exposed by an MCP server")),
    ]
}

#[test]
fn tools_search_lists_matching_local_tools() {
    let text = render_tool_search("mcp", 5, &local_tools());
    assert!(text.contains("query: mcp"));
    assert!(text.contains("mcp"));
}

#[test]
fn tool_search_limits_and_reports_no_match() {
    assert_eq!(
        render_tool_search("MCP", 1, &local_tools()),
        "query: MCP\nmatches: 1\nname\tdescription\nmcp_list_resources\tList resources of an MCP server"
    );
    assert_eq!(
        render_tool_search("zzz", 5, &local_tools()),
        "No local tools matched `zzz`."
    );
    assert_eq!(
        render_tool_search("   ", 5, &local_tools()),
        "Tool search query cannot be empty."
    );
}

#[test]
fn welcome_v2_lines_include_header_and_ascii_art() {
    let lines = welcome_v2_lines(AppLanguage::SimplifiedChinese, "0.1.0");
    assert_eq!(lines.first().expect("header"), &format!("欢迎使用 hellox v{} ", "0.1.0"));
    assert!(lines.iter().any(|line| line.contains("██▄█████▄██")));
}

#[test]
fn server_matches_extension_with_or_without_dot() {
    let server = LspServerConfig {
        enabled: true,
        description: None,
        command: "rust-analyzer".to_string(),
        args: Vec::new(),
        env: NamedMap::new(),
        cwd: None,
        language_id: Some("rust".to_string()),
        file_extensions: vec![".rs".to_string(), "ron".to_string()],
        root_markers: Vec::new(),
    };
    assert!(server.matches_extension("rs"));
    assert!(server.matches_extension("ron"));
    assert!(!server.matches_extension("py"));
    assert!(server.matches_extension("RS"));
}

#[test]
fn default_share_path_uses_session_id_and_markdown_extension() {
    let root = "/tmp/hellox-share-root";
    let path = default_share_path(root, Some("abc"));
    assert!(path.starts_with(root));
    assert!(path.contains("abc-"));
    assert!(path.ends_with(".md"));
    assert_eq!(
        share_path_at(root, None, 42),
        "/tmp/hellox-share-root/current-session-42.md"
    );
}

#[test]
fn paths_join_like_pathbuf() {
    assert_eq!(join_path("/a", "b"), "/a/b");
    assert_eq!(join_path("/a/", "b"), "/a/b");
    assert_eq!(join_path("", "b"), "b");
    assert_eq!(join_path("/a", "/b"), "/b");
    assert_eq!(tasks_root_for("/home/u/.hellox/config.toml"), "/home/u/.hellox/tasks");
    assert_eq!(tasks_root_for("config.toml"), "tasks");
}

#[test]
fn permission_modes_and_scopes_parse_aliases() {
    assert_eq!(PermissionMode::parse(" Bypass "), Ok(PermissionMode::BypassPermissions));
    assert_eq!(PermissionMode::parse("accept-edits"), Ok(PermissionMode::AcceptEdits));
    assert_eq!(
        PermissionMode::parse("nope"),
        Err("Unsupported permission mode. Use one of: default, accept_edits, bypass_permissions".to_string())
    );
    assert_eq!(PermissionMode::AcceptEdits.as_str(), "accept_edits");
    assert_eq!(
        PermissionMode::supported_values(),
        vec!["default", "accept_edits", "bypass_permissions"]
    );
    assert_eq!(McpScope::parse(" Claude_AI "), Ok(McpScope::Claudeai));
    assert_eq!(McpScope::parse("x"), Err("Unsupported MCP scope.".to_string()));
    assert_eq!(McpScope::default().as_str(), "user");
    let sse = McpTransportConfig::Sse {
        url: "http://x".to_string(),
        headers: NamedMap::new(),
    };
    assert_eq!(sse.kind(), "sse");
    let sched = SchedulerConfig::default();
    assert!(sched.enabled);
    assert_eq!(sched.max_jobs, 50);
}

#[test]
fn metrics_count_requests_and_render_prometheus() {
    let mut metrics = GatewayMetrics::new();
    metrics.observe_request_millis(12, true);
    metrics.observe_request_millis(30, false);
    metrics.observe_request(std::time::Duration::from_millis(5), true);
    let text = metrics.render_prometheus();
    assert!(text.contains("hellox_gateway_requests_total 3\n"));
    assert!(text.contains("hellox_gateway_requests_failed_total 1\n"));
    assert!(text.contains("hellox_gateway_request_latency_ms_sum 47\n"));
    assert!(text.contains("hellox_gateway_request_latency_ms_max 30\n"));
    assert!(text.starts_with("# HELP hellox_gateway_up"));
    assert!(text.ends_with("hellox_gateway_request_latency_ms_max 30\n"));
}

#[test]
fn onboarding_selection_is_read_back() {
    let mut providers = default_providers();
    let mut session_model = "opus".to_string();
    let mut selected = String::new();
    let key = apply_onboarding_selection(
        &mut providers,
        &mut session_model,
        &mut selected,
        ProviderOption::OpenAiCompatible,
        ModelPreset::OpenAiOpus,
        "https://openrouter.ai/api/v1".to_string(),
    )
    .expect("apply");
    assert_eq!(key, "openai");
    assert_eq!(session_model, "openai_opus");
    assert_eq!(selected, "openai_opus");
    assert_eq!(
        current_provider_base_url(&providers, "openai"),
        "https://openrouter.ai/api/v1"
    );
    assert!(apply_onboarding_selection(
        &mut providers,
        &mut session_model,
        &mut selected,
        ProviderOption::Exit,
        ModelPreset::OpenAiOpus,
        "x".to_string(),
    )
    .is_err());
}

#[test]
fn provider_readiness_names_provider_and_key_variable() {
    let profiles = vec![
        ProfileSummary {
            name: "openai_opus".to_string(),
            provider: "openai".to_string(),
            upstream_model: "gpt-5".to_string(),
        },
        ProfileSummary {
            name: "opus".to_string(),
            provider: "anthropic".to_string(),
            upstream_model: "opus-upstream-2025".to_string(),
        },
    ];
    let providers = default_providers();
    let req = provider_requirement(&profiles, &providers, "gpt-5").ok().expect("known");
    assert_eq!(req.provider_name, "openai");
    assert_eq!(req.provider_kind, "openai-compatible");
    assert_eq!(req.api_key_env, "OPENAI_API_KEY");
    let err = provider_requirement(&profiles, &providers, "nope").err().expect("unknown");
    assert_eq!(err.message(), "unknown model profile `nope`");
}

#[test]
fn launch_decisions_follow_readiness() {
    let readiness = ProviderReadiness {
        provider_name: "openai".to_string(),
        provider_kind: "openai-compatible",
        has_api_key: false,
    };
    assert_eq!(
        prepare_noninteractive_session_launch(AppLanguage::English, "openai_opus", &readiness),
        Err("Provider `openai` (openai-compatible) for model `openai_opus` does not have an API key configured. Run `hellox` for the interactive setup flow, or use `hellox auth set-key openai` first.".to_string())
    );
    let outcome = OnboardingOutcome {
        exit_requested: true,
        model_override: None,
    };
    assert!(matches!(
        prepare_interactive_session_launch(outcome),
        LaunchPreparation::Exit
    ));
    assert_eq!(onboarding_start(true, true, true), OnboardingStart::Skip);
    assert_eq!(onboarding_start(false, true, true), OnboardingStart::ConfirmExisting);
    assert_eq!(onboarding_start(false, false, true), OnboardingStart::Wizard);
    assert_eq!(onboarding_start(false, false, false), OnboardingStart::Skip);
    assert_eq!(
        format_prompt_submission_error(AppLanguage::English, "Missing API key for provider", Some(&readiness)),
        "The current provider `openai` (openai-compatible) is missing an API key.\nRun `hellox` for onboarding, or use `hellox auth set-key openai` and try again."
    );
    assert_eq!(
        format_prompt_submission_error(AppLanguage::English, "boom", None),
        "Request failed.\nboom"
    );
}

#[test]
fn gateway_health_check_targets_plain_http() {
    let target = healthcheck_target("http://127.0.0.1:7821/api/").expect("target");
    assert_eq!(target.host, "127.0.0.1");
    assert_eq!(target.port, 7821);
    assert_eq!(
        target.request,
        "GET /api/health HTTP/1.1\r\nHost: 127.0.0.1\r\nConnection: close\r\n\r\n"
    );
    assert!(healthcheck_target("https://127.0.0.1:7821").is_none());
    assert!(is_healthy_response("HTTP/1.1 200 OK\r\n"));
    assert!(!is_healthy_response("HTTP/1.1 503 Service Unavailable\r\n"));
}

fn without_whitespace(text: &str) -> String {
    text.chars().filter(|c| !c.is_whitespace()).collect()
}

#[test]
fn wrapped_lines_keep_every_visible_character() {
    let text = "Quick safety check:   Is this a project you created or one you trust?\nAn unbroken run: abcdefghijklmnopqrstuvwxyzabcdefghijklmnopqrstuvwxyzabcdefghijklmnopqrstuvwxyzabcdefghij and 快速安全检查：这是你创建的项目，或你信任的项目吗？例如你自己的代码、知名开源项目，或团队内部的工作目录。";
    let lines = wrap_text(text);
    assert!(lines.len() > 3);
    assert_eq!(without_whitespace(&lines.concat()), without_whitespace(text));
    for line in &lines {
        assert!(line.chars().count() <= CONTENT_WIDTH);
    }
}
