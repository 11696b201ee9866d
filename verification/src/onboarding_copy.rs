//! Text of the first-run provider setup: choices, prompts and summary cards.

use vstd::prelude::*;

use crate::language::AppLanguage;
use crate::text::{decimal, push_decimal, trim, views};

verus! {

/// Providers offered during setup, plus leaving setup.
#[derive(Clone, Copy, Debug, PartialEq, Eq, Structural)]
pub enum ProviderOption {
    OpenAiCompatible,
    Anthropic,
    Exit,
}

/// Model presets offered for each provider.
#[derive(Clone, Copy, Debug, PartialEq, Eq, Structural)]
pub enum ModelPreset {
    OpenAiOpus,
    OpenAiSonnet,
    AnthropicOpus,
    AnthropicSonnet,
    AnthropicHaiku,
}

/// A titled block of lines shown during setup.
#[derive(Debug)]
pub struct Card {
    pub title: String,
    pub lines: Vec<String>,
}

/// A card as its title and lines.
pub open spec fn card_view(c: Card) -> (Seq<char>, Seq<Seq<char>>) {
    (c.title@, views(c.lines@))
}

/// A list of cards as titles and lines.
pub open spec fn cards_view(cards: Seq<Card>) -> Seq<(Seq<char>, Seq<Seq<char>>)> {
    cards.map_values(|c: Card| card_view(c))
}

/// The provider a typed answer picks: `1`, `2` or `3` after trimming.
pub open spec fn provider_from_input_spec(value: Seq<char>) -> Option<ProviderOption> {
    let t = crate::text::trim_seq(value);
    if t == "1"@ {
        Some(ProviderOption::OpenAiCompatible)
    } else if t == "2"@ {
        Some(ProviderOption::Anthropic)
    } else if t == "3"@ {
        Some(ProviderOption::Exit)
    } else {
        None
    }
}

/// The preset a typed answer picks for `provider`.
pub open spec fn preset_from_input_spec(provider: ProviderOption, value: Seq<char>) -> Option<ModelPreset> {
    let t = crate::text::trim_seq(value);
    match provider {
        ProviderOption::OpenAiCompatible => if t == "1"@ {
            Some(ModelPreset::OpenAiOpus)
        } else if t == "2"@ {
            Some(ModelPreset::OpenAiSonnet)
        } else {
            None
        },
        ProviderOption::Anthropic => if t == "1"@ {
            Some(ModelPreset::AnthropicOpus)
        } else if t == "2"@ {
            Some(ModelPreset::AnthropicSonnet)
        } else if t == "3"@ {
            Some(ModelPreset::AnthropicHaiku)
        } else {
            None
        },
        ProviderOption::Exit => None,
    }
}

/// The configuration key of a provider (none for leaving setup).
pub open spec fn config_key_spec(p: ProviderOption) -> Option<Seq<char>> {
    match p {
        ProviderOption::OpenAiCompatible => Some("openai"@),
        ProviderOption::Anthropic => Some("anthropic"@),
        ProviderOption::Exit => None,
    }
}

/// Title of a provider option.
pub open spec fn step_title_spec(p: ProviderOption, language: AppLanguage) -> Seq<char> {
    match (p, language) {
        (ProviderOption::OpenAiCompatible, AppLanguage::English) => "OpenAI-compatible endpoint"@,
        (ProviderOption::OpenAiCompatible, AppLanguage::SimplifiedChinese) => "OpenAI Compatible 接口"@,
        (ProviderOption::Anthropic, AppLanguage::English) => "Anthropic-compatible endpoint"@,
        (ProviderOption::Anthropic, AppLanguage::SimplifiedChinese) => "Anthropic 兼容接口"@,
        (ProviderOption::Exit, AppLanguage::English) => "Exit setup"@,
        (ProviderOption::Exit, AppLanguage::SimplifiedChinese) => "退出引导"@,
    }
}

/// Profile key of a preset.
pub open spec fn profile_name_spec(m: ModelPreset) -> Seq<char> {
    match m {
        ModelPreset::OpenAiOpus => "openai_opus"@,
        ModelPreset::OpenAiSonnet => "openai_sonnet"@,
        ModelPreset::AnthropicOpus => "opus"@,
        ModelPreset::AnthropicSonnet => "sonnet"@,
        ModelPreset::AnthropicHaiku => "haiku"@,
    }
}

/// Shown name of a preset.
pub open spec fn display_name_spec(m: ModelPreset, language: AppLanguage) -> Seq<char> {
    match (m, language) {
        (ModelPreset::OpenAiOpus, AppLanguage::English) => "OpenAI Opus"@,
        (ModelPreset::OpenAiOpus, AppLanguage::SimplifiedChinese) => "OpenAI Opus（高能力）"@,
        (ModelPreset::OpenAiSonnet, AppLanguage::English) => "OpenAI Sonnet"@,
        (ModelPreset::OpenAiSonnet, AppLanguage::SimplifiedChinese) => "OpenAI Sonnet（平衡）"@,
        (ModelPreset::AnthropicOpus, AppLanguage::English) => "Opus"@,
        (ModelPreset::AnthropicOpus, AppLanguage::SimplifiedChinese) => "Opus（最高能力）"@,
        (ModelPreset::AnthropicSonnet, AppLanguage::English) => "Sonnet"@,
        (ModelPreset::AnthropicSonnet, AppLanguage::SimplifiedChinese) => "Sonnet（平衡）"@,
        (ModelPreset::AnthropicHaiku, AppLanguage::English) => "Haiku"@,
        (ModelPreset::AnthropicHaiku, AppLanguage::SimplifiedChinese) => "Haiku（更快更轻量）"@,
    }
}

impl ProviderOption {
    /// The provider a typed answer picks.
    pub fn from_input(value: &str) -> (res: Option<Self>)
        ensures
            res == provider_from_input_spec(value@),
    {
        let t = trim(value);
        let s = t.as_str();
        if crate::text::str_eq(s, "1") {
            Some(ProviderOption::OpenAiCompatible)
        } else if crate::text::str_eq(s, "2") {
            Some(ProviderOption::Anthropic)
        } else if crate::text::str_eq(s, "3") {
            Some(ProviderOption::Exit)
        } else {
            None
        }
    }

    /// The configuration key of the provider (none for leaving setup).
    pub fn config_key(self) -> (res: Option<&'static str>)
        ensures
            match res {
                Some(k) => config_key_spec(self) == Some(k@),
                None => config_key_spec(self) is None,
            },
    {
        match self {
            ProviderOption::OpenAiCompatible => Some("openai"),
            ProviderOption::Anthropic => Some("anthropic"),
            ProviderOption::Exit => None,
        }
    }

    /// Title of the option in `language`.
    pub fn step_title(self, language: AppLanguage) -> (res: &'static str)
        ensures
            res@ == step_title_spec(self, language),
    {
        match (self, language) {
            (ProviderOption::OpenAiCompatible, AppLanguage::English) => "OpenAI-compatible endpoint",
            (ProviderOption::OpenAiCompatible, AppLanguage::SimplifiedChinese) => "OpenAI Compatible 接口",
            (ProviderOption::Anthropic, AppLanguage::English) => "Anthropic-compatible endpoint",
            (ProviderOption::Anthropic, AppLanguage::SimplifiedChinese) => "Anthropic 兼容接口",
            (ProviderOption::Exit, AppLanguage::English) => "Exit setup",
            (ProviderOption::Exit, AppLanguage::SimplifiedChinese) => "退出引导",
        }
    }
}

impl ModelPreset {
    /// The preset a typed answer picks for `provider`.
    pub fn from_input(provider: ProviderOption, value: &str) -> (res: Option<Self>)
        ensures
            res == preset_from_input_spec(provider, value@),
    {
        let t = trim(value);
        let s = t.as_str();
        match provider {
            ProviderOption::OpenAiCompatible => if crate::text::str_eq(s, "1") {
                Some(ModelPreset::OpenAiOpus)
            } else if crate::text::str_eq(s, "2") {
                Some(ModelPreset::OpenAiSonnet)
            } else {
                None
            },
            ProviderOption::Anthropic => if crate::text::str_eq(s, "1") {
                Some(ModelPreset::AnthropicOpus)
            } else if crate::text::str_eq(s, "2") {
                Some(ModelPreset::AnthropicSonnet)
            } else if crate::text::str_eq(s, "3") {
                Some(ModelPreset::AnthropicHaiku)
            } else {
                None
            },
            ProviderOption::Exit => None,
        }
    }

    /// Profile key of the preset.
    pub fn profile_name(self) -> (res: &'static str)
        ensures
            res@ == profile_name_spec(self),
    {
        match self {
            ModelPreset::OpenAiOpus => "openai_opus",
            ModelPreset::OpenAiSonnet => "openai_sonnet",
            ModelPreset::AnthropicOpus => "opus",
            ModelPreset::AnthropicSonnet => "sonnet",
            ModelPreset::AnthropicHaiku => "haiku",
        }
    }

    /// Shown name of the preset in `language`.
    pub fn display_name(self, language: AppLanguage) -> (res: &'static str)
        ensures
            res@ == display_name_spec(self, language),
    {
        match (self, language) {
            (ModelPreset::OpenAiOpus, AppLanguage::English) => "OpenAI Opus",
            (ModelPreset::OpenAiOpus, AppLanguage::SimplifiedChinese) => "OpenAI Opus（高能力）",
            (ModelPreset::OpenAiSonnet, AppLanguage::English) => "OpenAI Sonnet",
            (ModelPreset::OpenAiSonnet, AppLanguage::SimplifiedChinese) => "OpenAI Sonnet（平衡）",
            (ModelPreset::AnthropicOpus, AppLanguage::English) => "Opus",
            (ModelPreset::AnthropicOpus, AppLanguage::SimplifiedChinese) => "Opus（最高能力）",
            (ModelPreset::AnthropicSonnet, AppLanguage::English) => "Sonnet",
            (ModelPreset::AnthropicSonnet, AppLanguage::SimplifiedChinese) => "Sonnet（平衡）",
            (ModelPreset::AnthropicHaiku, AppLanguage::English) => "Haiku",
            (ModelPreset::AnthropicHaiku, AppLanguage::SimplifiedChinese) => "Haiku（更快更轻量）",
        }
    }
}

/// Title of the setup flow.
pub open spec fn onboarding_title_spec(language: AppLanguage) -> Seq<char> {
    match language {
        AppLanguage::English => "hellox setup"@,
        AppLanguage::SimplifiedChinese => "hellox 首次配置"@,
    }
}

/// Title of the setup flow.
pub fn onboarding_title(language: AppLanguage) -> (res: &'static str)
    ensures
        res@ == onboarding_title_spec(language),
{
    match language {
        AppLanguage::English => "hellox setup",
        AppLanguage::SimplifiedChinese => "hellox 首次配置",
    }
}

/// Prompt for the provider choice.
pub open spec fn provider_prompt_spec(language: AppLanguage) -> Seq<char> {
    match language {
        AppLanguage::English => "Choose provider [1/2/3, Enter=1]: "@,
        AppLanguage::SimplifiedChinese => "请选择 provider [1/2/3，直接回车=1]："@,
    }
}

/// Prompt for the provider choice.
pub fn provider_prompt(language: AppLanguage) -> (res: &'static str)
    ensures
        res@ == provider_prompt_spec(language),
{
    match language {
        AppLanguage::English => "Choose provider [1/2/3, Enter=1]: ",
        AppLanguage::SimplifiedChinese => "请选择 provider [1/2/3，直接回车=1]：",
    }
}

/// Message for an invalid provider choice.
pub open spec fn provider_invalid_spec(language: AppLanguage) -> Seq<char> {
    match language {
        AppLanguage::English => "Enter 1, 2, or 3. Press Enter to accept the recommended option."@,
        AppLanguage::SimplifiedChinese => "请输入 1、2 或 3；直接回车可接受推荐选项。"@,
    }
}

/// Message for an invalid provider choice.
pub fn provider_invalid(language: AppLanguage) -> (res: &'static str)
    ensures
        res@ == provider_invalid_spec(language),
{
    match language {
        AppLanguage::English => "Enter 1, 2, or 3. Press Enter to accept the recommended option.",
        AppLanguage::SimplifiedChinese => "请输入 1、2 或 3；直接回车可接受推荐选项。",
    }
}

/// Prompt for the model choice.
pub open spec fn model_prompt_spec(language: AppLanguage, provider: ProviderOption) -> Seq<char> {
    match (provider, language) {
        (ProviderOption::OpenAiCompatible, AppLanguage::English) => "Choose model [1/2, Enter=1]: "@,
        (ProviderOption::OpenAiCompatible, AppLanguage::SimplifiedChinese) => "请选择默认模型 [1/2，直接回车=1]："@,
        (ProviderOption::Anthropic, AppLanguage::English) => "Choose model [1/2/3, Enter=1]: "@,
        (ProviderOption::Anthropic, AppLanguage::SimplifiedChinese) => "请选择默认模型 [1/2/3，直接回车=1]："@,
        (ProviderOption::Exit, AppLanguage::English) => "Press Enter to continue: "@,
        (ProviderOption::Exit, AppLanguage::SimplifiedChinese) => "直接回车继续："@,
    }
}

/// Prompt for the model choice.
pub fn model_prompt(language: AppLanguage, provider: ProviderOption) -> (res: &'static str)
    ensures
        res@ == model_prompt_spec(language, provider),
{
    match (provider, language) {
        (ProviderOption::OpenAiCompatible, AppLanguage::English) => "Choose model [1/2, Enter=1]: ",
        (ProviderOption::OpenAiCompatible, AppLanguage::SimplifiedChinese) => "请选择默认模型 [1/2，直接回车=1]：",
        (ProviderOption::Anthropic, AppLanguage::English) => "Choose model [1/2/3, Enter=1]: ",
        (ProviderOption::Anthropic, AppLanguage::SimplifiedChinese) => "请选择默认模型 [1/2/3，直接回车=1]：",
        (ProviderOption::Exit, AppLanguage::English) => "Press Enter to continue: ",
        (ProviderOption::Exit, AppLanguage::SimplifiedChinese) => "直接回车继续：",
    }
}

/// Message for an invalid model choice.
pub open spec fn model_invalid_spec(language: AppLanguage, provider: ProviderOption) -> Seq<char> {
    match (provider, language) {
        (ProviderOption::OpenAiCompatible, AppLanguage::English) => "Enter 1 or 2. Press Enter to accept the recommended model."@,
        (ProviderOption::OpenAiCompatible, AppLanguage::SimplifiedChinese) => "请输入 1 或 2；直接回车可接受推荐模型。"@,
        (ProviderOption::Anthropic, AppLanguage::English) => "Enter 1, 2, or 3. Press Enter to accept the recommended model."@,
        (ProviderOption::Anthropic, AppLanguage::SimplifiedChinese) => "请输入 1、2 或 3；直接回车可接受推荐模型。"@,
        (ProviderOption::Exit, AppLanguage::English) => "Press Enter to continue."@,
        (ProviderOption::Exit, AppLanguage::SimplifiedChinese) => "直接回车继续。"@,
    }
}

/// Message for an invalid model choice.
pub fn model_invalid(language: AppLanguage, provider: ProviderOption) -> (res: &'static str)
    ensures
        res@ == model_invalid_spec(language, provider),
{
    match (provider, language) {
        (ProviderOption::OpenAiCompatible, AppLanguage::English) => "Enter 1 or 2. Press Enter to accept the recommended model.",
        (ProviderOption::OpenAiCompatible, AppLanguage::SimplifiedChinese) => "请输入 1 或 2；直接回车可接受推荐模型。",
        (ProviderOption::Anthropic, AppLanguage::English) => "Enter 1, 2, or 3. Press Enter to accept the recommended model.",
        (ProviderOption::Anthropic, AppLanguage::SimplifiedChinese) => "请输入 1、2 或 3；直接回车可接受推荐模型。",
        (ProviderOption::Exit, AppLanguage::English) => "Press Enter to continue.",
        (ProviderOption::Exit, AppLanguage::SimplifiedChinese) => "直接回车继续。",
    }
}

/// Prompt for the API key.
pub open spec fn api_key_prompt_spec(language: AppLanguage) -> Seq<char> {
    match language {
        AppLanguage::English => "API key (stored locally): "@,
        AppLanguage::SimplifiedChinese => "API Key（仅保存在本地）："@,
    }
}

/// Prompt for the API key.
pub fn api_key_prompt(language: AppLanguage) -> (res: &'static str)
    ensures
        res@ == api_key_prompt_spec(language),
{
    match language {
        AppLanguage::English => "API key (stored locally): ",
        AppLanguage::SimplifiedChinese => "API Key（仅保存在本地）：",
    }
}

/// Message for an empty required answer.
pub open spec fn required_value_invalid_spec(language: AppLanguage) -> Seq<char> {
    match language {
        AppLanguage::English => "This field cannot be empty."@,
        AppLanguage::SimplifiedChinese => "此项不能为空。"@,
    }
}

/// Message for an empty required answer.
pub fn required_value_invalid(language: AppLanguage) -> (res: &'static str)
    ensures
        res@ == required_value_invalid_spec(language),
{
    match language {
        AppLanguage::English => "This field cannot be empty.",
        AppLanguage::SimplifiedChinese => "此项不能为空。",
    }
}

/// Prompt before saving the setup.
pub open spec fn finish_prompt_spec(language: AppLanguage) -> Seq<char> {
    match language {
        AppLanguage::English => "Press Enter to save and continue: "@,
        AppLanguage::SimplifiedChinese => "按 Enter 保存并继续："@,
    }
}

/// Prompt before saving the setup.
pub fn finish_prompt(language: AppLanguage) -> (res: &'static str)
    ensures
        res@ == finish_prompt_spec(language),
{
    match language {
        AppLanguage::English => "Press Enter to save and continue: ",
        AppLanguage::SimplifiedChinese => "按 Enter 保存并继续：",
    }
}

/// Prompt before continuing with a detected setup.
pub open spec fn detected_finish_prompt_spec(language: AppLanguage) -> Seq<char> {
    match language {
        AppLanguage::English => "Press Enter to continue into startup: "@,
        AppLanguage::SimplifiedChinese => "按 Enter 继续进入启动流程："@,
    }
}

/// Prompt before continuing with a detected setup.
pub fn detected_finish_prompt(language: AppLanguage) -> (res: &'static str)
    ensures
        res@ == detected_finish_prompt_spec(language),
{
    match language {
        AppLanguage::English => "Press Enter to continue into startup: ",
        AppLanguage::SimplifiedChinese => "按 Enter 继续进入启动流程：",
    }
}

/// Prompt for the base URL, showing the current one.
pub open spec fn endpoint_prompt_spec(language: AppLanguage, provider: ProviderOption, current: Seq<char>) -> Seq<char> {
    match (provider, language) {
        (ProviderOption::Exit, AppLanguage::English) => "Press Enter to continue: "@,
        (ProviderOption::Exit, AppLanguage::SimplifiedChinese) => "直接回车继续："@,
        (_, AppLanguage::English) => "Base URL (current: "@ + current + ", Enter keeps it): "@,
        (_, AppLanguage::SimplifiedChinese) => "Base URL（当前："@ + current + "，直接回车保留）："@,
    }
}

/// Prompt for the base URL, showing the current one.
pub fn endpoint_prompt(language: AppLanguage, provider: ProviderOption, current: &str) -> (res: String)
    ensures
        res@ == endpoint_prompt_spec(language, provider, current@),
{
    match (provider, language) {
        (ProviderOption::Exit, AppLanguage::English) => "Press Enter to continue: ".to_owned(),
        (ProviderOption::Exit, AppLanguage::SimplifiedChinese) => "直接回车继续：".to_owned(),
        (_, AppLanguage::English) => crate::text::concat3("Base URL (current: ", current, ", Enter keeps it): "),
        (_, AppLanguage::SimplifiedChinese) => crate::text::concat3("Base URL（当前：", current, "，直接回车保留）："),
    }
}

/// Heading of a setup step: its number, the step count and its title.
pub open spec fn step_label_spec(language: AppLanguage, index: nat, total: nat, title: Seq<char>) -> Seq<char> {
    match language {
        AppLanguage::English => "Step "@ + decimal(index) + "/"@ + decimal(total) + " — "@ + title,
        AppLanguage::SimplifiedChinese => "步骤 "@ + decimal(index) + "/"@ + decimal(total) + " —— "@ + title,
    }
}

/// Heading of a setup step: its number, the step count and its title.
pub fn step_label(language: AppLanguage, index: usize, total: usize, title: &str) -> (res: String)
    ensures
        res@ == step_label_spec(language, index as nat, total as nat, title@),
{
    let mut s = String::new();
    match language {
        AppLanguage::English => s.append("Step "),
        AppLanguage::SimplifiedChinese => s.append("步骤 "),
    }
    push_decimal(&mut s, index as u64);
    s.append("/");
    push_decimal(&mut s, total as u64);
    match language {
        AppLanguage::English => s.append(" — "),
        AppLanguage::SimplifiedChinese => s.append(" —— "),
    }
    s.append(title);
    s
}

/// Cards that open the setup flow.
pub open spec fn intro_cards_spec(language: AppLanguage) -> Seq<(Seq<char>, Seq<Seq<char>>)> {

    match language {
        AppLanguage::English => seq![("how it works"@, seq!["Third-party providers connect through the local gateway."@, "hellox converts every request into Anthropic Messages-compatible payloads."@, "Cloud-hosted features stay disabled for now; local interfaces remain ready."@]),
            ("this setup will configure"@, seq!["provider and default model"@, "compatible base URL"@, "API key stored in the local auth store"@, "first-run recovery entry points like `/doctor`"@]),
            ("language"@, seq!["Current interface language: English"@, "All onboarding prompts follow your configured or detected system language."@])],
        AppLanguage::SimplifiedChinese => seq![("本地链路"@, seq!["第三方 provider 会先接入本地 gateway。"@, "hellox 会在本地把请求统一转换成 Anthropic Messages 原生兼容格式。"@, "云端托管能力暂不启用，但本地接口与后续扩展位会继续保留。"@]),
            ("本次将配置"@, seq!["provider 与默认模型"@, "兼容 Base URL"@, "API Key（保存在本地 auth store，不写入明文 config）"@, "首次使用后的排障入口，如 `/doctor`"@]),
            ("当前语言"@, seq!["当前界面语言：简体中文"@, "本轮引导的全部提示与说明都会跟随当前语言输出。"@])],
    }
}

/// Cards that open the setup flow.
pub fn intro_cards(language: AppLanguage) -> (res: Vec<Card>)
    ensures
        cards_view(res@) == intro_cards_spec(language),
{

    match language {
        AppLanguage::English => {
            let mut cards: Vec<Card> = Vec::new();
            {
                let mut lines: Vec<String> = Vec::new();
                lines.push("Third-party providers connect through the local gateway.".to_owned());
                lines.push("hellox converts every request into Anthropic Messages-compatible payloads.".to_owned());
                lines.push("Cloud-hosted features stay disabled for now; local interfaces remain ready.".to_owned());
                cards.push(Card { title: "how it works".to_owned(), lines });
            }
            {
                let mut lines: Vec<String> = Vec::new();
                lines.push("provider and default model".to_owned());
                lines.push("compatible base URL".to_owned());
                lines.push("API key stored in the local auth store".to_owned());
                lines.push("first-run recovery entry points like `/doctor`".to_owned());
                cards.push(Card { title: "this setup will configure".to_owned(), lines });
            }
            {
                let mut lines: Vec<String> = Vec::new();
                lines.push("Current interface language: English".to_owned());
                lines.push("All onboarding prompts follow your configured or detected system language.".to_owned());
                cards.push(Card { title: "language".to_owned(), lines });
            }
            assert(cards_view(cards@) =~~= seq![("how it works"@, seq!["Third-party providers connect through the local gateway."@, "hellox converts every request into Anthropic Messages-compatible payloads."@, "Cloud-hosted features stay disabled for now; local interfaces remain ready."@]),
                ("this setup will configure"@, seq!["provider and default model"@, "compatible base URL"@, "API key stored in the local auth store"@, "first-run recovery entry points like `/doctor`"@]),
                ("language"@, seq!["Current interface language: English"@, "All onboarding prompts follow your configured or detected system language."@])]);
            cards
        },
        AppLanguage::SimplifiedChinese => {
            let mut cards: Vec<Card> = Vec::new();
            {
                let mut lines: Vec<String> = Vec::new();
                lines.push("第三方 provider 会先接入本地 gateway。".to_owned());
                lines.push("hellox 会在本地把请求统一转换成 Anthropic Messages 原生兼容格式。".to_owned());
                lines.push("云端托管能力暂不启用，但本地接口与后续扩展位会继续保留。".to_owned());
                cards.push(Card { title: "本地链路".to_owned(), lines });
            }
            {
                let mut lines: Vec<String> = Vec::new();
                lines.push("provider 与默认模型".to_owned());
                lines.push("兼容 Base URL".to_owned());
                lines.push("API Key（保存在本地 auth store，不写入明文 config）".to_owned());
                lines.push("首次使用后的排障入口，如 `/doctor`".to_owned());
                cards.push(Card { title: "本次将配置".to_owned(), lines });
            }
            {
                let mut lines: Vec<String> = Vec::new();
                lines.push("当前界面语言：简体中文".to_owned());
                lines.push("本轮引导的全部提示与说明都会跟随当前语言输出。".to_owned());
                cards.push(Card { title: "当前语言".to_owned(), lines });
            }
            assert(cards_view(cards@) =~~= seq![("本地链路"@, seq!["第三方 provider 会先接入本地 gateway。"@, "hellox 会在本地把请求统一转换成 Anthropic Messages 原生兼容格式。"@, "云端托管能力暂不启用，但本地接口与后续扩展位会继续保留。"@]),
                ("本次将配置"@, seq!["provider 与默认模型"@, "兼容 Base URL"@, "API Key（保存在本地 auth store，不写入明文 config）"@, "首次使用后的排障入口，如 `/doctor`"@]),
                ("当前语言"@, seq!["当前界面语言：简体中文"@, "本轮引导的全部提示与说明都会跟随当前语言输出。"@])]);
            cards
        },
    }
}

/// Cards describing the provider choice.
pub open spec fn provider_cards_spec(language: AppLanguage) -> Seq<(Seq<char>, Seq<Seq<char>>)> {

    match language {
        AppLanguage::English => seq![("provider"@, seq!["1. OpenAI-compatible endpoint (recommended for third-party channels)"@, "2. Anthropic-compatible endpoint"@, "3. Exit setup"@]),
            ("recommendation"@, seq!["Choose OpenAI-compatible when your provider offers a standard Chat Completions-compatible channel."@, "Choose Anthropic-compatible when you already have a native Anthropic-compatible endpoint."@])],
        AppLanguage::SimplifiedChinese => seq![("provider"@, seq!["1. OpenAI Compatible 接口（推荐，适配第三方渠道）"@, "2. Anthropic 兼容接口"@, "3. 退出引导"@]),
            ("推荐说明"@, seq!["如果你的供应商提供标准 Chat Completions 兼容渠道，优先选择 OpenAI Compatible。"@, "如果你已经有原生 Anthropic 兼容入口，再选择 Anthropic 兼容接口。"@])],
    }
}

/// Cards describing the provider choice.
pub fn provider_cards(language: AppLanguage) -> (res: Vec<Card>)
    ensures
        cards_view(res@) == provider_cards_spec(language),
{

    match language {
        AppLanguage::English => {
            let mut cards: Vec<Card> = Vec::new();
            {
                let mut lines: Vec<String> = Vec::new();
                lines.push("1. OpenAI-compatible endpoint (recommended for third-party channels)".to_owned());
                lines.push("2. Anthropic-compatible endpoint".to_owned());
                lines.push("3. Exit setup".to_owned());
                cards.push(Card { title: "provider".to_owned(), lines });
            }
            {
                let mut lines: Vec<String> = Vec::new();
                lines.push("Choose OpenAI-compatible when your provider offers a standard Chat Completions-compatible channel.".to_owned());
                lines.push("Choose Anthropic-compatible when you already have a native Anthropic-compatible endpoint.".to_owned());
                cards.push(Card { title: "recommendation".to_owned(), lines });
            }
            assert(cards_view(cards@) =~~= seq![("provider"@, seq!["1. OpenAI-compatible endpoint (recommended for third-party channels)"@, "2. Anthropic-compatible endpoint"@, "3. Exit setup"@]),
                ("recommendation"@, seq!["Choose OpenAI-compatible when your provider offers a standard Chat Completions-compatible channel."@, "Choose Anthropic-compatible when you already have a native Anthropic-compatible endpoint."@])]);
            cards
        },
        AppLanguage::SimplifiedChinese => {
            let mut cards: Vec<Card> = Vec::new();
            {
                let mut lines: Vec<String> = Vec::new();
                lines.push("1. OpenAI Compatible 接口（推荐，适配第三方渠道）".to_owned());
                lines.push("2. Anthropic 兼容接口".to_owned());
                lines.push("3. 退出引导".to_owned());
                cards.push(Card { title: "provider".to_owned(), lines });
            }
            {
                let mut lines: Vec<String> = Vec::new();
                lines.push("如果你的供应商提供标准 Chat Completions 兼容渠道，优先选择 OpenAI Compatible。".to_owned());
                lines.push("如果你已经有原生 Anthropic 兼容入口，再选择 Anthropic 兼容接口。".to_owned());
                cards.push(Card { title: "推荐说明".to_owned(), lines });
            }
            assert(cards_view(cards@) =~~= seq![("provider"@, seq!["1. OpenAI Compatible 接口（推荐，适配第三方渠道）"@, "2. Anthropic 兼容接口"@, "3. 退出引导"@]),
                ("推荐说明"@, seq!["如果你的供应商提供标准 Chat Completions 兼容渠道，优先选择 OpenAI Compatible。"@, "如果你已经有原生 Anthropic 兼容入口，再选择 Anthropic 兼容接口。"@])]);
            cards
        },
    }
}

/// Cards describing the model choice for a provider.
pub open spec fn model_cards_spec(language: AppLanguage, provider: ProviderOption) -> Seq<(Seq<char>, Seq<Seq<char>>)> {

    match (provider, language) {
        (ProviderOption::OpenAiCompatible, AppLanguage::English) => seq![("default model"@, seq!["1. OpenAI Opus — highest capability for complex local coding tasks"@, "2. OpenAI Sonnet — balanced speed and quality for everyday work"@])],
        (ProviderOption::OpenAiCompatible, AppLanguage::SimplifiedChinese) => seq![("默认模型"@, seq!["1. OpenAI Opus —— 更高能力，适合复杂本地编码任务"@, "2. OpenAI Sonnet —— 速度与质量更均衡，适合日常工作"@])],
        (ProviderOption::Anthropic, AppLanguage::English) => seq![("default model"@, seq!["1. Opus — highest capability"@, "2. Sonnet — balanced default"@, "3. Haiku — fastest lightweight option"@])],
        (ProviderOption::Anthropic, AppLanguage::SimplifiedChinese) => seq![("默认模型"@, seq!["1. Opus —— 最高能力"@, "2. Sonnet —— 默认更均衡"@, "3. Haiku —— 更快、更轻量"@])],
        (ProviderOption::Exit, _) => seq![],
    }
}

/// Cards describing the model choice for a provider.
pub fn model_cards(language: AppLanguage, provider: ProviderOption) -> (res: Vec<Card>)
    ensures
        cards_view(res@) == model_cards_spec(language, provider),
{

    match (provider, language) {
        (ProviderOption::OpenAiCompatible, AppLanguage::English) => {
            let mut cards: Vec<Card> = Vec::new();
            {
                let mut lines: Vec<String> = Vec::new();
                lines.push("1. OpenAI Opus — highest capability for complex local coding tasks".to_owned());
                lines.push("2. OpenAI Sonnet — balanced speed and quality for everyday work".to_owned());
                cards.push(Card { title: "default model".to_owned(), lines });
            }
            assert(cards_view(cards@) =~~= seq![("default model"@, seq!["1. OpenAI Opus — highest capability for complex local coding tasks"@, "2. OpenAI Sonnet — balanced speed and quality for everyday work"@])]);
            cards
        },
        (ProviderOption::OpenAiCompatible, AppLanguage::SimplifiedChinese) => {
            let mut cards: Vec<Card> = Vec::new();
            {
                let mut lines: Vec<String> = Vec::new();
                lines.push("1. OpenAI Opus —— 更高能力，适合复杂本地编码任务".to_owned());
                lines.push("2. OpenAI Sonnet —— 速度与质量更均衡，适合日常工作".to_owned());
                cards.push(Card { title: "默认模型".to_owned(), lines });
            }
            assert(cards_view(cards@) =~~= seq![("默认模型"@, seq!["1. OpenAI Opus —— 更高能力，适合复杂本地编码任务"@, "2. OpenAI Sonnet —— 速度与质量更均衡，适合日常工作"@])]);
            cards
        },
        (ProviderOption::Anthropic, AppLanguage::English) => {
            let mut cards: Vec<Card> = Vec::new();
            {
                let mut lines: Vec<String> = Vec::new();
                lines.push("1. Opus — highest capability".to_owned());
                lines.push("2. Sonnet — balanced default".to_owned());
                lines.push("3. Haiku — fastest lightweight option".to_owned());
                cards.push(Card { title: "default model".to_owned(), lines });
            }
            assert(cards_view(cards@) =~~= seq![("default model"@, seq!["1. Opus — highest capability"@, "2. Sonnet — balanced default"@, "3. Haiku — fastest lightweight option"@])]);
            cards
        },
        (ProviderOption::Anthropic, AppLanguage::SimplifiedChinese) => {
            let mut cards: Vec<Card> = Vec::new();
            {
                let mut lines: Vec<String> = Vec::new();
                lines.push("1. Opus —— 最高能力".to_owned());
                lines.push("2. Sonnet —— 默认更均衡".to_owned());
                lines.push("3. Haiku —— 更快、更轻量".to_owned());
                cards.push(Card { title: "默认模型".to_owned(), lines });
            }
            assert(cards_view(cards@) =~~= seq![("默认模型"@, seq!["1. Opus —— 最高能力"@, "2. Sonnet —— 默认更均衡"@, "3. Haiku —— 更快、更轻量"@])]);
            cards
        },
        (ProviderOption::Exit, _) => {
            let mut cards: Vec<Card> = Vec::new();
            assert(cards_view(cards@) =~~= seq![]);
            cards
        },
    }
}

/// Cards describing the endpoint and key step.
pub open spec fn endpoint_cards_spec(language: AppLanguage, provider: ProviderOption) -> Seq<(Seq<char>, Seq<Seq<char>>)> {

    match (provider, language) {
        (ProviderOption::OpenAiCompatible, AppLanguage::English) => seq![("endpoint"@, seq!["Enter the OpenAI-compatible base URL for your provider."@, "Examples: https://api.openai.com/v1, https://openrouter.ai/api/v1"@, "Press Enter to keep the current value shown in the prompt."@]),
            ("API key"@, seq!["The key is stored in the local auth store, not written into config.toml."@, "You can rotate it later with `hellox auth set-key openai`."@])],
        (ProviderOption::OpenAiCompatible, AppLanguage::SimplifiedChinese) => seq![("连接入口"@, seq!["请输入第三方供应商提供的 OpenAI Compatible Base URL。"@, "示例：https://api.openai.com/v1、https://openrouter.ai/api/v1"@, "提示里会显示当前值，直接回车即可保留。"@]),
            ("API Key"@, seq!["Key 会保存在本地 auth store，不会明文写入 config.toml。"@, "后续可通过 `hellox auth set-key openai` 重新更新。"@])],
        (ProviderOption::Anthropic, AppLanguage::English) => seq![("endpoint"@, seq!["Enter the Anthropic-compatible base URL for your provider."@, "Example: https://api.anthropic.com"@, "Press Enter to keep the current value shown in the prompt."@]),
            ("API key"@, seq!["The key is stored in the local auth store, not written into config.toml."@, "You can rotate it later with `hellox auth set-key anthropic`."@])],
        (ProviderOption::Anthropic, AppLanguage::SimplifiedChinese) => seq![("连接入口"@, seq!["请输入可用的 Anthropic 兼容 Base URL。"@, "示例：https://api.anthropic.com"@, "提示里会显示当前值，直接回车即可保留。"@]),
            ("API Key"@, seq!["Key 会保存在本地 auth store，不会明文写入 config.toml。"@, "后续可通过 `hellox auth set-key anthropic` 重新更新。"@])],
        (ProviderOption::Exit, _) => seq![],
    }
}

/// Cards describing the endpoint and key step.
pub fn endpoint_cards(language: AppLanguage, provider: ProviderOption) -> (res: Vec<Card>)
    ensures
        cards_view(res@) == endpoint_cards_spec(language, provider),
{

    match (provider, language) {
        (ProviderOption::OpenAiCompatible, AppLanguage::English) => {
            let mut cards: Vec<Card> = Vec::new();
            {
                let mut lines: Vec<String> = Vec::new();
                lines.push("Enter the OpenAI-compatible base URL for your provider.".to_owned());
                lines.push("Examples: https://api.openai.com/v1, https://openrouter.ai/api/v1".to_owned());
                lines.push("Press Enter to keep the current value shown in the prompt.".to_owned());
                cards.push(Card { title: "endpoint".to_owned(), lines });
            }
            {
                let mut lines: Vec<String> = Vec::new();
                lines.push("The key is stored in the local auth store, not written into config.toml.".to_owned());
                lines.push("You can rotate it later with `hellox auth set-key openai`.".to_owned());
                cards.push(Card { title: "API key".to_owned(), lines });
            }
            assert(cards_view(cards@) =~~= seq![("endpoint"@, seq!["Enter the OpenAI-compatible base URL for your provider."@, "Examples: https://api.openai.com/v1, https://openrouter.ai/api/v1"@, "Press Enter to keep the current value shown in the prompt."@]),
                ("API key"@, seq!["The key is stored in the local auth store, not written into config.toml."@, "You can rotate it later with `hellox auth set-key openai`."@])]);
            cards
        },
        (ProviderOption::OpenAiCompatible, AppLanguage::SimplifiedChinese) => {
            let mut cards: Vec<Card> = Vec::new();
            {
                let mut lines: Vec<String> = Vec::new();
                lines.push("请输入第三方供应商提供的 OpenAI Compatible Base URL。".to_owned());
                lines.push("示例：https://api.openai.com/v1、https://openrouter.ai/api/v1".to_owned());
                lines.push("提示里会显示当前值，直接回车即可保留。".to_owned());
                cards.push(Card { title: "连接入口".to_owned(), lines });
            }
            {
                let mut lines: Vec<String> = Vec::new();
                lines.push("Key 会保存在本地 auth store，不会明文写入 config.toml。".to_owned());
                lines.push("后续可通过 `hellox auth set-key openai` 重新更新。".to_owned());
                cards.push(Card { title: "API Key".to_owned(), lines });
            }
            assert(cards_view(cards@) =~~= seq![("连接入口"@, seq!["请输入第三方供应商提供的 OpenAI Compatible Base URL。"@, "示例：https://api.openai.com/v1、https://openrouter.ai/api/v1"@, "提示里会显示当前值，直接回车即可保留。"@]),
                ("API Key"@, seq!["Key 会保存在本地 auth store，不会明文写入 config.toml。"@, "后续可通过 `hellox auth set-key openai` 重新更新。"@])]);
            cards
        },
        (ProviderOption::Anthropic, AppLanguage::English) => {
            let mut cards: Vec<Card> = Vec::new();
            {
                let mut lines: Vec<String> = Vec::new();
                lines.push("Enter the Anthropic-compatible base URL for your provider.".to_owned());
                lines.push("Example: https://api.anthropic.com".to_owned());
                lines.push("Press Enter to keep the current value shown in the prompt.".to_owned());
                cards.push(Card { title: "endpoint".to_owned(), lines });
            }
            {
                let mut lines: Vec<String> = Vec::new();
                lines.push("The key is stored in the local auth store, not written into config.toml.".to_owned());
                lines.push("You can rotate it later with `hellox auth set-key anthropic`.".to_owned());
                cards.push(Card { title: "API key".to_owned(), lines });
            }
            assert(cards_view(cards@) =~~= seq![("endpoint"@, seq!["Enter the Anthropic-compatible base URL for your provider."@, "Example: https://api.anthropic.com"@, "Press Enter to keep the current value shown in the prompt."@]),
                ("API key"@, seq!["The key is stored in the local auth store, not written into config.toml."@, "You can rotate it later with `hellox auth set-key anthropic`."@])]);
            cards
        },
        (ProviderOption::Anthropic, AppLanguage::SimplifiedChinese) => {
            let mut cards: Vec<Card> = Vec::new();
            {
                let mut lines: Vec<String> = Vec::new();
                lines.push("请输入可用的 Anthropic 兼容 Base URL。".to_owned());
                lines.push("示例：https://api.anthropic.com".to_owned());
                lines.push("提示里会显示当前值，直接回车即可保留。".to_owned());
                cards.push(Card { title: "连接入口".to_owned(), lines });
            }
            {
                let mut lines: Vec<String> = Vec::new();
                lines.push("Key 会保存在本地 auth store，不会明文写入 config.toml。".to_owned());
                lines.push("后续可通过 `hellox auth set-key anthropic` 重新更新。".to_owned());
                cards.push(Card { title: "API Key".to_owned(), lines });
            }
            assert(cards_view(cards@) =~~= seq![("连接入口"@, seq!["请输入可用的 Anthropic 兼容 Base URL。"@, "示例：https://api.anthropic.com"@, "提示里会显示当前值，直接回车即可保留。"@]),
                ("API Key"@, seq!["Key 会保存在本地 auth store，不会明文写入 config.toml。"@, "后续可通过 `hellox auth set-key anthropic` 重新更新。"@])]);
            cards
        },
        (ProviderOption::Exit, _) => {
            let mut cards: Vec<Card> = Vec::new();
            assert(cards_view(cards@) =~~= seq![]);
            cards
        },
    }
}

/// Cards summarizing the choices before saving.
pub open spec fn review_cards_spec(language: AppLanguage, provider: ProviderOption, model: ModelPreset, base_url: Seq<char>) -> Seq<(Seq<char>, Seq<Seq<char>>)> {

    match language {
        AppLanguage::English => seq![("review"@, seq!["provider: "@ + step_title_spec(provider, language), "default model: "@ + display_name_spec(model, language), "base URL: "@ + base_url, "gateway: local gateway auto-starts when needed"@]),
            ("security notes"@, seq!["AI can make mistakes. Review generated changes before you trust them."@, "Only continue in folders that you created or trust."@, "After saving, startup continues into workspace trust checks when needed."@]),
            ("terminal tips"@, seq!["Enter sends your prompt"@, "Shift+Enter inserts a newline"@, "Type `/` then press Tab to browse slash commands"@, "Run `/doctor` if provider or gateway requests fail"@])],
        AppLanguage::SimplifiedChinese => seq![("确认摘要"@, seq!["provider："@ + step_title_spec(provider, language), "默认模型："@ + display_name_spec(model, language), "Base URL："@ + base_url, "gateway：本地 gateway 会在需要时自动拉起"@]),
            ("安全说明"@, seq!["AI 可能出错；生成的改动需要你自行复核后再信任。"@, "仅在你创建或明确可信的目录中继续使用。"@, "保存后，若当前工作区尚未信任，启动流程会继续进入目录信任确认。"@]),
            ("终端提示"@, seq!["Enter 发送当前输入"@, "Shift+Enter 插入换行"@, "输入 `/` 打开斜杠命令菜单，再按 Tab 补全"@, "若 provider 或 gateway 失败，可先运行 `/doctor`"@])],
    }
}

/// Cards summarizing the choices before saving.
pub fn review_cards(language: AppLanguage, provider: ProviderOption, model: ModelPreset, base_url: &str) -> (res: Vec<Card>)
    ensures
        cards_view(res@) == review_cards_spec(language, provider, model, base_url@),
{
    let provider_label = provider.step_title(language);
    let model_label = model.display_name(language);
    match language {
        AppLanguage::English => {
            let mut cards: Vec<Card> = Vec::new();
            {
                let mut lines: Vec<String> = Vec::new();
                {
                    let mut l = String::new();
                    l.append("provider: ");
                    l.append(provider_label);
                    lines.push(l);
                }
                {
                    let mut l = String::new();
                    l.append("default model: ");
                    l.append(model_label);
                    lines.push(l);
                }
                {
                    let mut l = String::new();
                    l.append("base URL: ");
                    l.append(base_url);
                    lines.push(l);
                }
                lines.push("gateway: local gateway auto-starts when needed".to_owned());
                cards.push(Card { title: "review".to_owned(), lines });
            }
            {
                let mut lines: Vec<String> = Vec::new();
                lines.push("AI can make mistakes. Review generated changes before you trust them.".to_owned());
                lines.push("Only continue in folders that you created or trust.".to_owned());
                lines.push("After saving, startup continues into workspace trust checks when needed.".to_owned());
                cards.push(Card { title: "security notes".to_owned(), lines });
            }
            {
                let mut lines: Vec<String> = Vec::new();
                lines.push("Enter sends your prompt".to_owned());
                lines.push("Shift+Enter inserts a newline".to_owned());
                lines.push("Type `/` then press Tab to browse slash commands".to_owned());
                lines.push("Run `/doctor` if provider or gateway requests fail".to_owned());
                cards.push(Card { title: "terminal tips".to_owned(), lines });
            }
            assert(cards_view(cards@) =~~= seq![("review"@, seq!["provider: "@ + step_title_spec(provider, language), "default model: "@ + display_name_spec(model, language), "base URL: "@ + base_url@, "gateway: local gateway auto-starts when needed"@]),
                ("security notes"@, seq!["AI can make mistakes. Review generated changes before you trust them."@, "Only continue in folders that you created or trust."@, "After saving, startup continues into workspace trust checks when needed."@]),
                ("terminal tips"@, seq!["Enter sends your prompt"@, "Shift+Enter inserts a newline"@, "Type `/` then press Tab to browse slash commands"@, "Run `/doctor` if provider or gateway requests fail"@])]);
            cards
        },
        AppLanguage::SimplifiedChinese => {
            let mut cards: Vec<Card> = Vec::new();
            {
                let mut lines: Vec<String> = Vec::new();
                {
                    let mut l = String::new();
                    l.append("provider：");
                    l.append(provider_label);
                    lines.push(l);
                }
                {
                    let mut l = String::new();
                    l.append("默认模型：");
                    l.append(model_label);
                    lines.push(l);
                }
                {
                    let mut l = String::new();
                    l.append("Base URL：");
                    l.append(base_url);
                    lines.push(l);
                }
                lines.push("gateway：本地 gateway 会在需要时自动拉起".to_owned());
                cards.push(Card { title: "确认摘要".to_owned(), lines });
            }
            {
                let mut lines: Vec<String> = Vec::new();
                lines.push("AI 可能出错；生成的改动需要你自行复核后再信任。".to_owned());
                lines.push("仅在你创建或明确可信的目录中继续使用。".to_owned());
                lines.push("保存后，若当前工作区尚未信任，启动流程会继续进入目录信任确认。".to_owned());
                cards.push(Card { title: "安全说明".to_owned(), lines });
            }
            {
                let mut lines: Vec<String> = Vec::new();
                lines.push("Enter 发送当前输入".to_owned());
                lines.push("Shift+Enter 插入换行".to_owned());
                lines.push("输入 `/` 打开斜杠命令菜单，再按 Tab 补全".to_owned());
                lines.push("若 provider 或 gateway 失败，可先运行 `/doctor`".to_owned());
                cards.push(Card { title: "终端提示".to_owned(), lines });
            }
            assert(cards_view(cards@) =~~= seq![("确认摘要"@, seq!["provider："@ + step_title_spec(provider, language), "默认模型："@ + display_name_spec(model, language), "Base URL："@ + base_url@, "gateway：本地 gateway 会在需要时自动拉起"@]),
                ("安全说明"@, seq!["AI 可能出错；生成的改动需要你自行复核后再信任。"@, "仅在你创建或明确可信的目录中继续使用。"@, "保存后，若当前工作区尚未信任，启动流程会继续进入目录信任确认。"@]),
                ("终端提示"@, seq!["Enter 发送当前输入"@, "Shift+Enter 插入换行"@, "输入 `/` 打开斜杠命令菜单，再按 Tab 补全"@, "若 provider 或 gateway 失败，可先运行 `/doctor`"@])]);
            cards
        },
    }
}

/// Cards confirming the saved setup.
pub open spec fn success_cards_spec(language: AppLanguage, provider: ProviderOption, model: ModelPreset, base_url: Seq<char>) -> Seq<(Seq<char>, Seq<Seq<char>>)> {

    match language {
        AppLanguage::English => seq![("setup complete"@, seq!["provider: "@ + step_title_spec(provider, language), "default model: "@ + display_name_spec(model, language), "base URL: "@ + base_url, "gateway: ready to route through local Anthropic Messages-compatible translation"@]),
            ("you can change this later"@, seq!["`/model` changes the active model"@, "`hellox auth set-key <provider>` rotates credentials"@, "`/doctor` verifies provider and gateway readiness"@])],
        AppLanguage::SimplifiedChinese => seq![("配置完成"@, seq!["provider："@ + step_title_spec(provider, language), "默认模型："@ + display_name_spec(model, language), "Base URL："@ + base_url, "gateway：已准备好通过本地 Anthropic Messages 兼容转换链路发起请求"@]),
            ("后续可调整"@, seq!["`/model` 可切换当前模型"@, "`hellox auth set-key <provider>` 可更新凭据"@, "`/doctor` 可检查 provider 与 gateway 状态"@])],
    }
}

/// Cards confirming the saved setup.
pub fn success_cards(language: AppLanguage, provider: ProviderOption, model: ModelPreset, base_url: &str) -> (res: Vec<Card>)
    ensures
        cards_view(res@) == success_cards_spec(language, provider, model, base_url@),
{
    let provider_label = provider.step_title(language);
    let model_label = model.display_name(language);
    match language {
        AppLanguage::English => {
            let mut cards: Vec<Card> = Vec::new();
            {
                let mut lines: Vec<String> = Vec::new();
                {
                    let mut l = String::new();
                    l.append("provider: ");
                    l.append(provider_label);
                    lines.push(l);
                }
                {
                    let mut l = String::new();
                    l.append("default model: ");
                    l.append(model_label);
                    lines.push(l);
                }
                {
                    let mut l = String::new();
                    l.append("base URL: ");
                    l.append(base_url);
                    lines.push(l);
                }
                lines.push("gateway: ready to route through local Anthropic Messages-compatible translation".to_owned());
                cards.push(Card { title: "setup complete".to_owned(), lines });
            }
            {
                let mut lines: Vec<String> = Vec::new();
                lines.push("`/model` changes the active model".to_owned());
                lines.push("`hellox auth set-key <provider>` rotates credentials".to_owned());
                lines.push("`/doctor` verifies provider and gateway readiness".to_owned());
                cards.push(Card { title: "you can change this later".to_owned(), lines });
            }
            assert(cards_view(cards@) =~~= seq![("setup complete"@, seq!["provider: "@ + step_title_spec(provider, language), "default model: "@ + display_name_spec(model, language), "base URL: "@ + base_url@, "gateway: ready to route through local Anthropic Messages-compatible translation"@]),
                ("you can change this later"@, seq!["`/model` changes the active model"@, "`hellox auth set-key <provider>` rotates credentials"@, "`/doctor` verifies provider and gateway readiness"@])]);
            cards
        },
        AppLanguage::SimplifiedChinese => {
            let mut cards: Vec<Card> = Vec::new();
            {
                let mut lines: Vec<String> = Vec::new();
                {
                    let mut l = String::new();
                    l.append("provider：");
                    l.append(provider_label);
                    lines.push(l);
                }
                {
                    let mut l = String::new();
                    l.append("默认模型：");
                    l.append(model_label);
                    lines.push(l);
                }
                {
                    let mut l = String::new();
                    l.append("Base URL：");
                    l.append(base_url);
                    lines.push(l);
                }
                lines.push("gateway：已准备好通过本地 Anthropic Messages 兼容转换链路发起请求".to_owned());
                cards.push(Card { title: "配置完成".to_owned(), lines });
            }
            {
                let mut lines: Vec<String> = Vec::new();
                lines.push("`/model` 可切换当前模型".to_owned());
                lines.push("`hellox auth set-key <provider>` 可更新凭据".to_owned());
                lines.push("`/doctor` 可检查 provider 与 gateway 状态".to_owned());
                cards.push(Card { title: "后续可调整".to_owned(), lines });
            }
            assert(cards_view(cards@) =~~= seq![("配置完成"@, seq!["provider："@ + step_title_spec(provider, language), "默认模型："@ + display_name_spec(model, language), "Base URL："@ + base_url@, "gateway：已准备好通过本地 Anthropic Messages 兼容转换链路发起请求"@]),
                ("后续可调整"@, seq!["`/model` 可切换当前模型"@, "`hellox auth set-key <provider>` 可更新凭据"@, "`/doctor` 可检查 provider 与 gateway 状态"@])]);
            cards
        },
    }
}

/// Cards shown when credentials already exist.
pub open spec fn existing_setup_cards_spec(language: AppLanguage, provider_name: Seq<char>, provider_kind: Seq<char>, model: Seq<char>, base_url: Seq<char>) -> Seq<(Seq<char>, Seq<Seq<char>>)> {

    match language {
        AppLanguage::English => seq![("existing credentials detected"@, seq!["provider: "@ + provider_name + " ("@ + provider_kind + ")"@, "default model: "@ + model, "base URL: "@ + base_url]),
            ("next"@, seq!["hellox will mark setup complete and continue startup."@, "If the workspace is not trusted yet, trust checks will appear next."@])],
        AppLanguage::SimplifiedChinese => seq![("已检测到现有凭据"@, seq!["provider："@ + provider_name + "（"@ + provider_kind + "）"@, "默认模型："@ + model, "Base URL："@ + base_url]),
            ("接下来"@, seq!["hellox 会将首次配置标记为完成，并继续启动流程。"@, "如果当前工作区还未信任，随后会继续出现目录信任确认。"@])],
    }
}

/// Cards shown when credentials already exist.
pub fn existing_setup_cards(language: AppLanguage, provider_name: &str, provider_kind: &str, model: &str, base_url: &str) -> (res: Vec<Card>)
    ensures
        cards_view(res@) == existing_setup_cards_spec(language, provider_name@, provider_kind@, model@, base_url@),
{

    match language {
        AppLanguage::English => {
            let mut cards: Vec<Card> = Vec::new();
            {
                let mut lines: Vec<String> = Vec::new();
                {
                    let mut l = String::new();
                    l.append("provider: ");
                    l.append(provider_name);
                    l.append(" (");
                    l.append(provider_kind);
                    l.append(")");
                    lines.push(l);
                }
                {
                    let mut l = String::new();
                    l.append("default model: ");
                    l.append(model);
                    lines.push(l);
                }
                {
                    let mut l = String::new();
                    l.append("base URL: ");
                    l.append(base_url);
                    lines.push(l);
                }
                cards.push(Card { title: "existing credentials detected".to_owned(), lines });
            }
            {
                let mut lines: Vec<String> = Vec::new();
                lines.push("hellox will mark setup complete and continue startup.".to_owned());
                lines.push("If the workspace is not trusted yet, trust checks will appear next.".to_owned());
                cards.push(Card { title: "next".to_owned(), lines });
            }
            assert(cards_view(cards@) =~~= seq![("existing credentials detected"@, seq!["provider: "@ + provider_name@ + " ("@ + provider_kind@ + ")"@, "default model: "@ + model@, "base URL: "@ + base_url@]),
                ("next"@, seq!["hellox will mark setup complete and continue startup."@, "If the workspace is not trusted yet, trust checks will appear next."@])]);
            cards
        },
        AppLanguage::SimplifiedChinese => {
            let mut cards: Vec<Card> = Vec::new();
            {
                let mut lines: Vec<String> = Vec::new();
                {
                    let mut l = String::new();
                    l.append("provider：");
                    l.append(provider_name);
                    l.append("（");
                    l.append(provider_kind);
                    l.append("）");
                    lines.push(l);
                }
                {
                    let mut l = String::new();
                    l.append("默认模型：");
                    l.append(model);
                    lines.push(l);
                }
                {
                    let mut l = String::new();
                    l.append("Base URL：");
                    l.append(base_url);
                    lines.push(l);
                }
                cards.push(Card { title: "已检测到现有凭据".to_owned(), lines });
            }
            {
                let mut lines: Vec<String> = Vec::new();
                lines.push("hellox 会将首次配置标记为完成，并继续启动流程。".to_owned());
                lines.push("如果当前工作区还未信任，随后会继续出现目录信任确认。".to_owned());
                cards.push(Card { title: "接下来".to_owned(), lines });
            }
            assert(cards_view(cards@) =~~= seq![("已检测到现有凭据"@, seq!["provider："@ + provider_name@ + "（"@ + provider_kind@ + "）"@, "默认模型："@ + model@, "Base URL："@ + base_url@]),
                ("接下来"@, seq!["hellox 会将首次配置标记为完成，并继续启动流程。"@, "如果当前工作区还未信任，随后会继续出现目录信任确认。"@])]);
            cards
        },
    }
}

} // verus!
