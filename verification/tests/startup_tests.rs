use hellox::config::default_providers;
use hellox::gateway::{is_local_loopback_gateway, normalize_base_url, url_health_path};
use hellox::interactive_select::{number_key_to_index, render_lines, InteractiveOption};
use hellox::language::{resolve_app_language, resolve_language_from, AppLanguage};
use hellox::onboarding::current_provider_base_url;
use hellox::onboarding_copy::{
    intro_cards, model_cards, review_cards, step_label, ModelPreset, ProviderOption,
};
use hellox::trust::normalize_workspace_path_text;
use hellox::trust_copy::{
    invalid_choice_text, prompt_label, trust_dialog_lines, TrustChoice, TrustSelection,
    DIALOG_WIDTH,
};

#[test]
fn normalize_base_url_adds_http_scheme_for_listen_addresses() {
    assert_eq!(
        normalize_base_url("127.0.0.1:7821".to_string()),
        "http://127.0.0.1:7821"
    );
}

#[test]
fn local_loopback_gateway_detection_accepts_standard_hosts() {
    assert!(is_local_loopback_gateway("http://127.0.0.1:7821"));
    assert!(is_local_loopback_gateway("http://localhost:7821"));
    assert!(!is_local_loopback_gateway("https://api.example.com"));
}

#[test]
fn healthcheck_path_appends_health_suffix() {
    assert_eq!(
        url_health_path("http://127.0.0.1:7821").expect("parse root url"),
        "/health"
    );
    assert_eq!(
        url_health_path("http://127.0.0.1:7821/api").expect("parse nested url"),
        "/api/health"
    );
}

#[test]
fn number_keys_map_to_visible_options() {
    assert_eq!(number_key_to_index('1', 3), Some(0));
    assert_eq!(number_key_to_index('3', 3), Some(2));
    assert_eq!(number_key_to_index('4', 3), None);
    assert_eq!(number_key_to_index('x', 3), None);
}

#[test]
fn render_lines_marks_selected_option_and_footer() {
    let lines = render_lines(
        &[
            InteractiveOption {
                label: "OpenAI Compatible 接口".to_string(),
                value: 1_u8,
            },
            InteractiveOption {
                label: "Anthropic 兼容接口".to_string(),
                value: 2_u8,
            },
        ],
        0,
        "Enter 确认 · Esc 退出引导",
    );

    assert_eq!(lines[0], "❯ 1. OpenAI Compatible 接口");
    assert_eq!(lines[1], "  2. Anthropic 兼容接口");
    assert_eq!(lines.last().expect("footer"), "Enter 确认 · Esc 退出引导");
}

#[test]
fn explicit_ui_language_overrides_detection() {
    assert_eq!(
        resolve_language_from(Some("zh-CN"), Some("en-US")),
        AppLanguage::SimplifiedChinese
    );
    assert_eq!(
        resolve_app_language(Some("zh-CN")),
        AppLanguage::SimplifiedChinese
    );
}

#[test]
fn trust_prompt_inputs_support_numeric_and_text_values() {
    assert!(AppLanguage::English.accepts_input("1"));
    assert!(AppLanguage::English.accepts_input("yes"));
    assert!(AppLanguage::English.rejects_input("2"));
    assert!(AppLanguage::English.rejects_input("no"));
    assert!(AppLanguage::SimplifiedChinese.accepts_input("是"));
    assert!(AppLanguage::SimplifiedChinese.rejects_input("否"));
}

#[test]
fn current_provider_base_url_matches_provider_name() {
    let providers = default_providers();
    assert_eq!(
        current_provider_base_url(&providers, "openai"),
        "https://api.openai.com/v1"
    );
    assert_eq!(
        current_provider_base_url(&providers, "anthropic"),
        "https://api.anthropic.com"
    );
}

fn flatten(cards: Vec<hellox::onboarding_copy::Card>) -> String {
    cards
        .into_iter()
        .flat_map(|card| card.lines.into_iter())
        .collect::<Vec<_>>()
        .join("\n")
}

#[test]
fn chinese_intro_cards_explain_local_gateway_path() {
    let flattened = flatten(intro_cards(AppLanguage::SimplifiedChinese));
    assert!(flattened.contains("本地 gateway"));
    assert!(flattened.contains("Anthropic Messages"));
}

#[test]
fn provider_specific_model_cards_are_localized() {
    let flattened = flatten(model_cards(
        AppLanguage::SimplifiedChinese,
        ProviderOption::OpenAiCompatible,
    ));
    assert!(flattened.contains("OpenAI Opus"));
    assert!(flattened.contains("均衡"));
}

#[test]
fn review_cards_include_trust_handoff_message() {
    let flattened = flatten(review_cards(
        AppLanguage::SimplifiedChinese,
        ProviderOption::OpenAiCompatible,
        ModelPreset::OpenAiOpus,
        "https://openrouter.ai/api/v1",
    ));
    assert!(flattened.contains("目录信任确认"));
}

#[test]
fn step_label_uses_expected_format() {
    assert_eq!(
        step_label(AppLanguage::English, 2, 4, "Model"),
        "Step 2/4 — Model"
    );
    assert_eq!(
        step_label(AppLanguage::SimplifiedChinese, 2, 4, "默认模型"),
        "步骤 2/4 —— 默认模型"
    );
}

#[test]
fn normalize_workspace_path_uses_forward_slashes() {
    let normalized = normalize_workspace_path_text("C:\\Users\\dev\\hellox-workspace-trust-1");
    assert!(normalized.contains('/'));
    assert!(!normalized.contains('\\'));
    let extended = normalize_workspace_path_text("\\\\?\\C:\\repo");
    assert_eq!(extended, "C:/repo");
}

#[test]
fn empty_input_defaults_to_trust() {
    assert_eq!(
        TrustChoice::from_input(AppLanguage::English, ""),
        Some(TrustChoice::Trust)
    );
}

#[test]
fn escape_aliases_exit_the_dialog() {
    assert_eq!(
        TrustChoice::from_input(AppLanguage::English, "esc"),
        Some(TrustChoice::Exit)
    );
    assert_eq!(
        TrustChoice::from_input(AppLanguage::SimplifiedChinese, "\u{1b}"),
        Some(TrustChoice::Exit)
    );
}

#[test]
fn trust_dialog_renders_boxed_layout_and_selected_option() {
    let lines = trust_dialog_lines(
        AppLanguage::English,
        "C:/repo/project",
        TrustSelection::Trust,
        false,
    );

    assert!(lines.iter().any(|line| line.contains("Accessing workspace")));
    assert!(lines
        .iter()
        .any(|line| line.starts_with('╭') && line.ends_with('╮')));
    assert!(lines.iter().any(|line| line == "  Accessing workspace:"));
    assert!(lines
        .iter()
        .any(|line| line.contains("❯ 1. Yes, I trust this folder")));
    assert!(lines.iter().any(|line| line.contains("2. No, exit")));
    assert!(lines.iter().any(|line| line.contains("Security guide")));
    assert!(lines
        .iter()
        .any(|line| line.contains("Enter to confirm · Esc to cancel")));
}

#[test]
fn dialog_footer_changes_when_exit_is_pending() {
    let lines = trust_dialog_lines(
        AppLanguage::SimplifiedChinese,
        "D:/workspace",
        TrustSelection::Exit,
        true,
    );
    assert!(lines.iter().any(|line| line.contains("再按一次 Ctrl+C")));
    assert!(lines.iter().any(|line| line.contains("❯ 2. 不，退出")));
}

#[test]
fn chinese_copy_wraps_without_spacing_breakage() {
    let lines = trust_dialog_lines(
        AppLanguage::SimplifiedChinese,
        "D:/一个非常长的目录/用于验证中文段落在没有空格时也能正常自动换行/而不是直接溢出终端边界",
        TrustSelection::Trust,
        false,
    );
    assert!(lines
        .iter()
        .all(|line| unicode_width::UnicodeWidthStr::width(line.as_str()) <= DIALOG_WIDTH + 2));
}

#[test]
fn fallback_prompt_is_localized() {
    assert_eq!(
        prompt_label(AppLanguage::English),
        "Select 1 or 2, then press Enter: "
    );
    assert_eq!(
        prompt_label(AppLanguage::SimplifiedChinese),
        "请输入 1 或 2，然后按 Enter："
    );
}

#[test]
fn invalid_choice_copy_matches_typed_fallback_flow() {
    assert_eq!(
        invalid_choice_text(AppLanguage::English),
        "Enter 1 to trust this folder, or type 2 / esc to cancel."
    );
    assert_eq!(
        invalid_choice_text(AppLanguage::SimplifiedChinese),
        "输入 1 信任此目录，或输入 2 / esc 取消。"
    );
}
