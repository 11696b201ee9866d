//! Provider setup before a session: which provider a model needs, the choices the
//! setup wizard offers, what the chosen setup writes into the configuration, and how
//! a launch goes on.

use vstd::prelude::*;

use crate::config::ProviderConfig;
use crate::interactive_select::InteractiveOption;
use crate::language::AppLanguage;
use crate::named_map::NamedMap;
use crate::onboarding_copy::{config_key_spec, display_name_spec, profile_name_spec, ModelPreset, ProviderOption};
use crate::text::{opt_string_view, str_eq, trim_seq};

verus! {

/// Which provider a model uses and whether a key for it is available.
pub struct ProviderReadiness {
    pub provider_name: String,
    pub provider_kind: &'static str,
    pub has_api_key: bool,
}

/// What the setup wizard ended with.
pub struct OnboardingOutcome {
    pub exit_requested: bool,
    pub model_override: Option<String>,
}

impl Default for OnboardingOutcome {
    fn default() -> (res: Self)
        ensures
            !res.exit_requested,
            res.model_override is None,
    {
        OnboardingOutcome { exit_requested: false, model_override: None }
    }
}

/// How an interactive launch goes on.
pub enum LaunchPreparation {
    Continue { model_override: Option<String> },
    Exit,
}

/// The provider choices of the wizard, in the order shown.
pub open spec fn provider_option_labels(language: AppLanguage) -> Seq<Seq<char>> {
    match language {
        AppLanguage::English => seq![
            "OpenAI-compatible endpoint"@,
            "Anthropic-compatible endpoint"@,
            "Exit setup"@,
        ],
        AppLanguage::SimplifiedChinese => seq![
            "OpenAI Compatible 接口"@,
            "Anthropic 兼容接口"@,
            "退出引导"@,
        ],
    }
}

/// The provider choices of the wizard: OpenAI-compatible, Anthropic, exit.
pub fn provider_options(language: AppLanguage) -> (res: Vec<InteractiveOption<ProviderOption>>)
    ensures
        res@.len() == 3,
        res@[0].value == ProviderOption::OpenAiCompatible,
        res@[1].value == ProviderOption::Anthropic,
        res@[2].value == ProviderOption::Exit,
        forall|i: int| 0 <= i < 3 ==> res@[i].label@ == provider_option_labels(language)[i],
{
    let (a, b, c) = match language {
        AppLanguage::English => (
            "OpenAI-compatible endpoint",
            "Anthropic-compatible endpoint",
            "Exit setup",
        ),
        AppLanguage::SimplifiedChinese => ("OpenAI Compatible 接口", "Anthropic 兼容接口", "退出引导"),
    };
    let mut v = Vec::new();
    v.push(InteractiveOption { label: a.to_owned(), value: ProviderOption::OpenAiCompatible });
    v.push(InteractiveOption { label: b.to_owned(), value: ProviderOption::Anthropic });
    v.push(InteractiveOption { label: c.to_owned(), value: ProviderOption::Exit });
    v
}

/// The model presets offered for a provider, in the order shown.
pub open spec fn presets_for(provider: ProviderOption) -> Seq<ModelPreset> {
    match provider {
        ProviderOption::OpenAiCompatible => seq![ModelPreset::OpenAiOpus, ModelPreset::OpenAiSonnet],
        ProviderOption::Anthropic => seq![
            ModelPreset::AnthropicOpus,
            ModelPreset::AnthropicSonnet,
            ModelPreset::AnthropicHaiku,
        ],
        ProviderOption::Exit => seq![],
    }
}

fn preset_option(preset: ModelPreset, language: AppLanguage) -> (res: InteractiveOption<ModelPreset>)
    ensures
        res.value == preset,
        res.label@ == display_name_spec(preset, language),
{
    InteractiveOption { label: preset.display_name(language).to_owned(), value: preset }
}

/// The model choices of the wizard for a provider, labelled by display name.
pub fn model_options(language: AppLanguage, provider: ProviderOption) -> (res: Vec<
    InteractiveOption<ModelPreset>,
>)
    ensures
        res@.len() == presets_for(provider).len(),
        forall|i: int|
            0 <= i < res@.len() ==> res@[i].value == presets_for(provider)[i] && res@[i].label@
                == display_name_spec(presets_for(provider)[i], language),
{
    let mut v = Vec::new();
    match provider {
        ProviderOption::OpenAiCompatible => {
            v.push(preset_option(ModelPreset::OpenAiOpus, language));
            v.push(preset_option(ModelPreset::OpenAiSonnet, language));
        },
        ProviderOption::Anthropic => {
            v.push(preset_option(ModelPreset::AnthropicOpus, language));
            v.push(preset_option(ModelPreset::AnthropicSonnet, language));
            v.push(preset_option(ModelPreset::AnthropicHaiku, language));
        },
        ProviderOption::Exit => {},
    }
    v
}

/// The configured Anthropic entry's base URL, version and key variable, or the
/// defaults when there is no Anthropic entry under `anthropic`.
pub open spec fn anthropic_settings(providers: Map<Seq<char>, ProviderConfig>) -> (Seq<char>, Seq<char>, Seq<char>) {
    if providers.contains_key("anthropic"@) && providers["anthropic"@] is Anthropic {
        match providers["anthropic"@] {
            ProviderConfig::Anthropic { base_url, anthropic_version, api_key_env } => (
                base_url@,
                anthropic_version@,
                api_key_env@,
            ),
            _ => ("https://api.anthropic.com"@, "2023-06-01"@, "ANTHROPIC_API_KEY"@),
        }
    } else {
        ("https://api.anthropic.com"@, "2023-06-01"@, "ANTHROPIC_API_KEY"@)
    }
}

/// The configured OpenAI-compatible entry's base URL and key variable, or the
/// defaults when there is no such entry under `openai`.
pub open spec fn openai_settings(providers: Map<Seq<char>, ProviderConfig>) -> (Seq<char>, Seq<char>) {
    if providers.contains_key("openai"@) && providers["openai"@] is OpenAiCompatible {
        match providers["openai"@] {
            ProviderConfig::OpenAiCompatible { base_url, api_key_env } => (base_url@, api_key_env@),
            _ => ("https://api.openai.com/v1"@, "OPENAI_API_KEY"@),
        }
    } else {
        ("https://api.openai.com/v1"@, "OPENAI_API_KEY"@)
    }
}

/// The configured Anthropic base URL.
pub fn current_anthropic_base_url(providers: &NamedMap<ProviderConfig>) -> (res: String)
    ensures
        res@ == anthropic_settings(providers@).0,
{
    match providers.get("anthropic") {
        Some(ProviderConfig::Anthropic { base_url, .. }) => base_url.clone(),
        _ => "https://api.anthropic.com".to_owned(),
    }
}

/// The configured Anthropic API version.
pub fn current_anthropic_version(providers: &NamedMap<ProviderConfig>) -> (res: String)
    ensures
        res@ == anthropic_settings(providers@).1,
{
    match providers.get("anthropic") {
        Some(ProviderConfig::Anthropic { anthropic_version, .. }) => anthropic_version.clone(),
        _ => "2023-06-01".to_owned(),
    }
}

/// The configured Anthropic key variable.
pub fn current_anthropic_env(providers: &NamedMap<ProviderConfig>) -> (res: String)
    ensures
        res@ == anthropic_settings(providers@).2,
{
    match providers.get("anthropic") {
        Some(ProviderConfig::Anthropic { api_key_env, .. }) => api_key_env.clone(),
        _ => "ANTHROPIC_API_KEY".to_owned(),
    }
}

/// The configured OpenAI-compatible base URL.
pub fn current_openai_base_url(providers: &NamedMap<ProviderConfig>) -> (res: String)
    ensures
        res@ == openai_settings(providers@).0,
{
    match providers.get("openai") {
        Some(ProviderConfig::OpenAiCompatible { base_url, .. }) => base_url.clone(),
        _ => "https://api.openai.com/v1".to_owned(),
    }
}

/// The configured OpenAI-compatible key variable.
pub fn current_openai_env(providers: &NamedMap<ProviderConfig>) -> (res: String)
    ensures
        res@ == openai_settings(providers@).1,
{
    match providers.get("openai") {
        Some(ProviderConfig::OpenAiCompatible { api_key_env, .. }) => api_key_env.clone(),
        _ => "OPENAI_API_KEY".to_owned(),
    }
}

/// The base URL in use for a provider name: `anthropic` reads the Anthropic entry,
/// any other name the OpenAI-compatible one.
pub open spec fn provider_base_url_spec(providers: Map<Seq<char>, ProviderConfig>, name: Seq<char>) -> Seq<char> {
    if name == "anthropic"@ {
        anthropic_settings(providers).0
    } else {
        openai_settings(providers).0
    }
}

/// The base URL in use for a provider name.
pub fn current_provider_base_url(providers: &NamedMap<ProviderConfig>, provider_name: &str) -> (res:
    String)
    ensures
        res@ == provider_base_url_spec(providers@, provider_name@),
{
    if str_eq(provider_name, "anthropic") {
        current_anthropic_base_url(providers)
    } else {
        current_openai_base_url(providers)
    }
}

/// Why a wizard selection could not be applied.
#[derive(Debug, PartialEq, Eq, Structural)]
pub enum OnboardingError {
    /// The exit choice names no provider.
    ExitSelected,
}

/// Applies a wizard selection to the configuration: the provider entry gets the new
/// base URL (keeping its version and key variable), and the preset becomes the
/// session model. Returns the provider name the API key is stored under.
pub fn apply_onboarding_selection(
    providers: &mut NamedMap<ProviderConfig>,
    session_model: &mut String,
    selected_model: &mut String,
    provider: ProviderOption,
    model: ModelPreset,
    base_url: String,
) -> (res: Result<&'static str, OnboardingError>)
    ensures
        provider == ProviderOption::Exit ==> (res == Err::<&'static str, OnboardingError>(
            OnboardingError::ExitSelected,
        ) && final(providers)@ == old(providers)@ && final(session_model)@ == old(session_model)@
            && final(selected_model)@ == old(selected_model)@),
        provider != ProviderOption::Exit ==> (res matches Ok(key) && Some(key@) == config_key_spec(
            provider,
        ) && final(session_model)@ == profile_name_spec(model) && final(selected_model)@
            == profile_name_spec(model) && final(providers)@.dom() == old(providers)@.dom().insert(
            key@,
        ) && (forall|k: Seq<char>| k != key@ ==> #[trigger] final(providers)@.contains_key(k)
            ==> final(providers)@[k] == old(providers)@[k])),
        provider == ProviderOption::Anthropic ==> (final(providers)@["anthropic"@] matches ProviderConfig::Anthropic {
            base_url: b,
            anthropic_version: v,
            api_key_env: e,
        } && b@ == base_url@ && v@ == anthropic_settings(old(providers)@).1 && e@
            == anthropic_settings(old(providers)@).2),
        provider == ProviderOption::OpenAiCompatible ==> (final(providers)@["openai"@] matches ProviderConfig::OpenAiCompatible {
            base_url: b,
            api_key_env: e,
        } && b@ == base_url@ && e@ == openai_settings(old(providers)@).1),
{
    let key = match provider {
        ProviderOption::Anthropic => {
            let entry = ProviderConfig::Anthropic {
                base_url,
                anthropic_version: current_anthropic_version(providers),
                api_key_env: current_anthropic_env(providers),
            };
            providers.insert("anthropic".to_owned(), entry);
            "anthropic"
        },
        ProviderOption::OpenAiCompatible => {
            let entry = ProviderConfig::OpenAiCompatible {
                base_url,
                api_key_env: current_openai_env(providers),
            };
            providers.insert("openai".to_owned(), entry);
            "openai"
        },
        ProviderOption::Exit => return Err(OnboardingError::ExitSelected),
    };
    *session_model = model.profile_name().to_owned();
    *selected_model = model.profile_name().to_owned();
    Ok(key)
}

/// After a selection is applied, the base URL in use for its provider is the one
/// that was entered.
pub proof fn lemma_applied_base_url_is_read_back(
    before: Map<Seq<char>, ProviderConfig>,
    after: Map<Seq<char>, ProviderConfig>,
    provider: ProviderOption,
    base_url: Seq<char>,
)
    requires
        provider != ProviderOption::Exit,
        provider == ProviderOption::Anthropic ==> (after["anthropic"@] matches ProviderConfig::Anthropic {
            base_url: b,
            ..
        } && b@ == base_url),
        provider == ProviderOption::OpenAiCompatible ==> (after["openai"@] matches ProviderConfig::OpenAiCompatible {
            base_url: b,
            ..
        } && b@ == base_url),
        after.dom() == before.dom().insert(config_key_spec(provider)->0),
    ensures
        provider_base_url_spec(after, config_key_spec(provider)->0) == base_url,
{
    reveal_strlit("anthropic");
    reveal_strlit("openai");
    assert("openai"@ != "anthropic"@) by {
        assert("openai"@[0] != "anthropic"@[0]);
    }
    assert(after.contains_key(config_key_spec(provider)->0));
}

/// A model profile as the provider check reads it.
pub struct ProfileSummary {
    pub name: String,
    pub provider: String,
    pub upstream_model: String,
}

/// Which provider a model needs and which key variable it reads.
pub struct ProviderRequirement {
    pub provider_name: String,
    pub provider_kind: &'static str,
    pub api_key_env: String,
}

/// Why the provider of a model cannot be determined.
pub enum ReadinessError {
    /// No profile has this name or upstream model.
    UnknownModel(String),
    /// The profile names a provider that is not configured.
    UnknownProvider(String),
}

/// Index of the profile a model names: the one so named, else the first whose
/// upstream model it is.
pub open spec fn profile_index(profiles: Seq<ProfileSummary>, model: Seq<char>) -> Option<int> {
    if exists|i: int| 0 <= i < profiles.len() && #[trigger] profiles[i].name@ == model {
        Some(choose|i: int| 0 <= i < profiles.len() && #[trigger] profiles[i].name@ == model)
    } else if exists|i: int| 0 <= i < profiles.len() && #[trigger] profiles[i].upstream_model@ == model {
        Some(
            choose|i: int|
                0 <= i < profiles.len() && #[trigger] profiles[i].upstream_model@ == model && forall|
                    j: int,
                | 0 <= j < i ==> profiles[j].upstream_model@ != model,
        )
    } else {
        None
    }
}

/// The kind name and key variable of a provider entry.
pub open spec fn provider_kind_and_env(p: ProviderConfig) -> (Seq<char>, Seq<char>) {
    match p {
        ProviderConfig::Anthropic { api_key_env, .. } => ("anthropic"@, api_key_env@),
        ProviderConfig::OpenAiCompatible { api_key_env, .. } => ("openai-compatible"@, api_key_env@),
    }
}

fn find_profile(profiles: &Vec<ProfileSummary>, model: &str) -> (res: Option<usize>)
    requires
        forall|i: int, j: int|
            0 <= i < j < profiles@.len() ==> profiles@[i].name@ != profiles@[j].name@,
    ensures
        match res {
            Some(i) => profile_index(profiles@, model@) == Some(i as int) && i < profiles@.len(),
            None => profile_index(profiles@, model@) is None,
        },
{
    let mut i: usize = 0;
    while i < profiles.len()
        invariant
            i <= profiles@.len(),
            forall|j: int| 0 <= j < i ==> #[trigger] profiles@[j].name@ != model@,
            forall|a: int, b: int|
                0 <= a < b < profiles@.len() ==> profiles@[a].name@ != profiles@[b].name@,
        decreases profiles@.len() - i,
    {
        if str_eq(profiles[i].name.as_str(), model) {
            proof {
                assert(profiles@[i as int].name@ == model@);
                let c = choose|k: int| 0 <= k < profiles@.len() && #[trigger] profiles@[k].name@ == model@;
                if c != i {
                    if c < i {
                        assert(profiles@[c].name@ != model@);
                    } else {
                        assert(profiles@[i as int].name@ != profiles@[c].name@);
                    }
                }
            }
            return Some(i);
        }
        i = i + 1;
    }
    let mut k: usize = 0;
    while k < profiles.len()
        invariant
            k <= profiles@.len(),
            forall|j: int| 0 <= j < profiles@.len() ==> #[trigger] profiles@[j].name@ != model@,
            forall|j: int| 0 <= j < k ==> #[trigger] profiles@[j].upstream_model@ != model@,
        decreases profiles@.len() - k,
    {
        if str_eq(profiles[k].upstream_model.as_str(), model) {
            proof {
                assert(profiles@[k as int].upstream_model@ == model@);
                assert(forall|j: int| 0 <= j < k ==> profiles@[j].upstream_model@ != model@);
                let c = choose|c: int|
                    0 <= c < profiles@.len() && #[trigger] profiles@[c].upstream_model@ == model@
                        && forall|j: int| 0 <= j < c ==> profiles@[j].upstream_model@ != model@;
                if c < k {
                    assert(profiles@[c].upstream_model@ != model@);
                } else if c > k {
                    assert(profiles@[k as int].upstream_model@ != model@);
                }
            }
            return Some(k);
        }
        k = k + 1;
    }
    None
}

/// The provider a model needs: its profile is the one so named, else the first whose
/// upstream model it is; the provider is the one the profile names.
pub fn provider_requirement(
    profiles: &Vec<ProfileSummary>,
    providers: &NamedMap<ProviderConfig>,
    model: &str,
) -> (res: Result<ProviderRequirement, ReadinessError>)
    requires
        forall|i: int, j: int|
            0 <= i < j < profiles@.len() ==> profiles@[i].name@ != profiles@[j].name@,
    ensures
        match profile_index(profiles@, model@) {
            None => res matches Err(e) && (e matches ReadinessError::UnknownModel(m) && m@ == model@),
            Some(i) => {
                let name = profiles@[i].provider@;
                if providers@.contains_key(name) {
                    res matches Ok(r) && r.provider_name@ == name && r.provider_kind@
                        == provider_kind_and_env(providers@[name]).0 && r.api_key_env@
                        == provider_kind_and_env(providers@[name]).1
                } else {
                    res matches Err(e) && (e matches ReadinessError::UnknownProvider(p) && p@ == name)
                }
            },
        },
{
    let i = match find_profile(profiles, model) {
        Some(i) => i,
        None => return Err(ReadinessError::UnknownModel(model.to_owned())),
    };
    let name = profiles[i].provider.as_str();
    match providers.get(name) {
        Some(ProviderConfig::Anthropic { api_key_env, .. }) => Ok(
            ProviderRequirement {
                provider_name: name.to_owned(),
                provider_kind: "anthropic",
                api_key_env: api_key_env.clone(),
            },
        ),
        Some(ProviderConfig::OpenAiCompatible { api_key_env, .. }) => Ok(
            ProviderRequirement {
                provider_name: name.to_owned(),
                provider_kind: "openai-compatible",
                api_key_env: api_key_env.clone(),
            },
        ),
        None => Err(ReadinessError::UnknownProvider(name.to_owned())),
    }
}

impl ReadinessError {
    /// The message shown for the refusal.
    pub fn message(&self) -> (res: String)
        ensures
            res@ == match self {
                ReadinessError::UnknownModel(m) => "unknown model profile `"@ + m@ + "`"@,
                ReadinessError::UnknownProvider(p) => "unknown provider `"@ + p@ + "`"@,
            },
    {
        match self {
            ReadinessError::UnknownModel(m) => {
                let mut s = "unknown model profile `".to_owned();
                s.append(m.as_str());
                s.append("`");
                s
            },
            ReadinessError::UnknownProvider(p) => {
                let mut s = "unknown provider `".to_owned();
                s.append(p.as_str());
                s.append("`");
                s
            },
        }
    }
}

/// The readiness of a provider: a key is available when its variable is set or the
/// local key store has one for it.
pub fn provider_readiness(requirement: ProviderRequirement, env_key_set: bool, stored_key: bool) -> (res:
    ProviderReadiness)
    ensures
        res.provider_name@ == requirement.provider_name@,
        res.provider_kind@ == requirement.provider_kind@,
        res.has_api_key == (env_key_set || stored_key),
{
    ProviderReadiness {
        provider_name: requirement.provider_name,
        provider_kind: requirement.provider_kind,
        has_api_key: env_key_set || stored_key,
    }
}

/// What the wizard does first.
#[derive(Clone, Copy, Debug, PartialEq, Eq, Structural)]
pub enum OnboardingStart {
    /// Nothing to set up, or no terminal to ask on.
    Skip,
    /// A key is there: show the detected setup and confirm it.
    ConfirmExisting,
    /// Walk through provider, model, endpoint and key.
    Wizard,
}

/// What the wizard does first: nothing once setup is complete and a key is
/// available, or without a terminal; a confirmation when a key is already there;
/// the full wizard otherwise.
pub fn onboarding_start(completed: bool, has_api_key: bool, interactive: bool) -> (res:
    OnboardingStart)
    ensures
        res == (if (completed && has_api_key) || !interactive {
            OnboardingStart::Skip
        } else if has_api_key {
            OnboardingStart::ConfirmExisting
        } else {
            OnboardingStart::Wizard
        }),
{
    if (completed && has_api_key) || !interactive {
        OnboardingStart::Skip
    } else if has_api_key {
        OnboardingStart::ConfirmExisting
    } else {
        OnboardingStart::Wizard
    }
}

/// How an interactive launch goes on after the wizard: it stops when the user
/// chose to exit, else it continues with the model the wizard picked, if any.
pub fn prepare_interactive_session_launch(outcome: OnboardingOutcome) -> (res: LaunchPreparation)
    ensures
        outcome.exit_requested ==> res is Exit,
        !outcome.exit_requested ==> (res matches LaunchPreparation::Continue { model_override }
            && model_override == outcome.model_override),
{
    if outcome.exit_requested {
        LaunchPreparation::Exit
    } else {
        LaunchPreparation::Continue { model_override: outcome.model_override }
    }
}

/// The refusal of a non-interactive launch whose provider has no key.
pub open spec fn missing_key_text(language: AppLanguage, readiness_name: Seq<char>, kind: Seq<char>, model: Seq<char>) -> Seq<char> {
    match language {
        AppLanguage::English => "Provider `"@ + readiness_name + "` ("@ + kind + ") for model `"@
            + model
            + "` does not have an API key configured. Run `hellox` for the interactive setup flow, or use `hellox auth set-key "@
            + readiness_name + "` first."@,
        AppLanguage::SimplifiedChinese => "模型 `"@ + model + "` 对应的 provider `"@ + readiness_name
            + "`（"@ + kind + "）尚未配置 API Key。请先运行 `hellox` 进入交互式引导，或使用 `hellox auth set-key "@
            + readiness_name + "` 完成配置。"@,
    }
}

/// A non-interactive launch goes on only when the provider of the selected model has
/// a key; otherwise it is refused with a message naming the provider, its kind and
/// the model.
pub fn prepare_noninteractive_session_launch(
    language: AppLanguage,
    selected_model: &str,
    readiness: &ProviderReadiness,
) -> (res: Result<Option<String>, String>)
    ensures
        readiness.has_api_key ==> res == Ok::<Option<String>, String>(None),
        !readiness.has_api_key ==> (res matches Err(m) && m@ == missing_key_text(
            language,
            readiness.provider_name@,
            readiness.provider_kind@,
            selected_model@,
        )),
{
    if readiness.has_api_key {
        return Ok(None);
    }
    let name = readiness.provider_name.as_str();
    let kind = readiness.provider_kind;
    let mut m = String::new();
    match language {
        AppLanguage::English => {
            m.append("Provider `");
            m.append(name);
            m.append("` (");
            m.append(kind);
            m.append(") for model `");
            m.append(selected_model);
            m.append(
                "` does not have an API key configured. Run `hellox` for the interactive setup flow, or use `hellox auth set-key ",
            );
            m.append(name);
            m.append("` first.");
        },
        AppLanguage::SimplifiedChinese => {
            m.append("模型 `");
            m.append(selected_model);
            m.append("` 对应的 provider `");
            m.append(name);
            m.append("`（");
            m.append(kind);
            m.append("）尚未配置 API Key。请先运行 `hellox` 进入交互式引导，或使用 `hellox auth set-key ");
            m.append(name);
            m.append("` 完成配置。");
        },
    }
    Err(m)
}

/// The model a launch uses when one is given on the command line: the override,
/// unless it is blank.
pub fn model_override_choice(model_override: Option<&str>) -> (res: Option<String>)
    ensures
        match model_override {
            Some(m) => if trim_seq(m@).len() > 0 {
                res matches Some(r) && r@ == m@
            } else {
                res is None
            },
            None => res is None,
        },
{
    match model_override {
        Some(m) => {
            let t = crate::text::trim(m);
            if t.as_str().unicode_len() > 0 {
                Some(m.to_owned())
            } else {
                None
            }
        },
        None => None,
    }
}

/// Where the setup wizard stands.
#[derive(Debug)]
pub enum WizardState {
    /// Asking which provider to use (or to leave).
    ChooseProvider,
    /// Asking for the default model of the chosen provider.
    ChooseModel { provider: ProviderOption },
    /// Asking for the endpoint, offering the one in use.
    EnterEndpoint { provider: ProviderOption, model: ModelPreset },
    /// Asking for the API key.
    EnterApiKey { provider: ProviderOption, model: ModelPreset, base_url: String },
    /// Showing the choices for a last confirmation.
    Review { provider: ProviderOption, model: ModelPreset, base_url: String, api_key: String },
    /// The user left the wizard.
    Exited,
    /// The choices are confirmed and are to be saved.
    Confirmed { provider: ProviderOption, model: ModelPreset, base_url: String, api_key: String },
}

/// What the user did at a wizard step.
#[derive(Debug)]
pub enum WizardEvent {
    /// A provider was picked (`Exit` to leave).
    ProviderChosen(ProviderOption),
    /// A model was picked, or the choice was cancelled (back to the providers).
    ModelChosen(Option<ModelPreset>),
    /// The endpoint to use.
    EndpointEntered(String),
    /// The API key to use.
    ApiKeyEntered(String),
    /// The review was confirmed.
    ReviewConfirmed,
}

/// The wizard's next state: each step takes the answer it asks for and moves on;
/// leaving at the provider step exits, cancelling the model goes back to the
/// providers; an answer to another step's question changes nothing.
pub open spec fn wizard_next_spec(state: WizardState, event: WizardEvent) -> WizardState {
    match (state, event) {
        (WizardState::ChooseProvider, WizardEvent::ProviderChosen(p)) => if p == ProviderOption::Exit {
            WizardState::Exited
        } else {
            WizardState::ChooseModel { provider: p }
        },
        (WizardState::ChooseModel { provider }, WizardEvent::ModelChosen(m)) => match m {
            Some(model) => WizardState::EnterEndpoint { provider, model },
            None => WizardState::ChooseProvider,
        },
        (WizardState::EnterEndpoint { provider, model }, WizardEvent::EndpointEntered(base_url)) => {
            WizardState::EnterApiKey { provider, model, base_url }
        },
        (WizardState::EnterApiKey { provider, model, base_url }, WizardEvent::ApiKeyEntered(api_key)) => {
            WizardState::Review { provider, model, base_url, api_key }
        },
        (WizardState::Review { provider, model, base_url, api_key }, WizardEvent::ReviewConfirmed) => {
            WizardState::Confirmed { provider, model, base_url, api_key }
        },
        (s, _) => s,
    }
}

/// The wizard's next state after an answer.
pub fn wizard_next(state: WizardState, event: WizardEvent) -> (res: WizardState)
    ensures
        res == wizard_next_spec(state, event),
{
    match state {
        WizardState::ChooseProvider => match event {
            WizardEvent::ProviderChosen(p) => match p {
                ProviderOption::Exit => WizardState::Exited,
                _ => WizardState::ChooseModel { provider: p },
            },
            _ => WizardState::ChooseProvider,
        },
        WizardState::ChooseModel { provider } => match event {
            WizardEvent::ModelChosen(m) => match m {
                Some(model) => WizardState::EnterEndpoint { provider, model },
                None => WizardState::ChooseProvider,
            },
            _ => WizardState::ChooseModel { provider },
        },
        WizardState::EnterEndpoint { provider, model } => match event {
            WizardEvent::EndpointEntered(base_url) => WizardState::EnterApiKey { provider, model, base_url },
            _ => WizardState::EnterEndpoint { provider, model },
        },
        WizardState::EnterApiKey { provider, model, base_url } => match event {
            WizardEvent::ApiKeyEntered(api_key) => WizardState::Review { provider, model, base_url, api_key },
            _ => WizardState::EnterApiKey { provider, model, base_url },
        },
        WizardState::Review { provider, model, base_url, api_key } => match event {
            WizardEvent::ReviewConfirmed => WizardState::Confirmed { provider, model, base_url, api_key },
            _ => WizardState::Review { provider, model, base_url, api_key },
        },
        WizardState::Exited => WizardState::Exited,
        WizardState::Confirmed { provider, model, base_url, api_key } => WizardState::Confirmed {
            provider,
            model,
            base_url,
            api_key,
        },
    }
}

/// Law: the wizard only reaches a confirmation with a real provider, and a
/// finished wizard stays finished whatever comes after.
pub proof fn lemma_wizard_confirms_a_provider(state: WizardState, event: WizardEvent)
    requires
        state matches WizardState::ChooseModel { provider } ==> provider != ProviderOption::Exit,
        state matches WizardState::EnterEndpoint { provider, .. } ==> provider != ProviderOption::Exit,
        state matches WizardState::EnterApiKey { provider, .. } ==> provider != ProviderOption::Exit,
        state matches WizardState::Review { provider, .. } ==> provider != ProviderOption::Exit,
        state matches WizardState::Confirmed { provider, .. } ==> provider != ProviderOption::Exit,
    ensures
        wizard_next_spec(state, event) matches WizardState::Confirmed { provider, .. } ==> provider
            != ProviderOption::Exit,
        wizard_next_spec(state, event) matches WizardState::ChooseModel { provider } ==> provider
            != ProviderOption::Exit,
        state is Exited ==> wizard_next_spec(state, event) is Exited,
        state is Confirmed ==> wizard_next_spec(state, event) == state,
{
}

/// What the wizard ended with: an exit request when the user left, the chosen
/// model once the choices are confirmed; nothing while it is still asking.
pub fn wizard_outcome(state: &WizardState) -> (res: Option<OnboardingOutcome>)
    ensures
        match *state {
            WizardState::Exited => res matches Some(o) && o.exit_requested && o.model_override is None,
            WizardState::Confirmed { model, .. } => res matches Some(o) && !o.exit_requested
                && opt_string_view(o.model_override) == Some(profile_name_spec(model)),
            _ => res is None,
        },
{
    match state {
        WizardState::Exited => Some(OnboardingOutcome { exit_requested: true, model_override: None }),
        WizardState::Confirmed { model, .. } => Some(
            OnboardingOutcome { exit_requested: false, model_override: Some(model.profile_name().to_string()) },
        ),
        _ => None,
    }
}

/// A typed answer that may be left blank: the trimmed answer, or `fallback`.
pub fn optional_answer(input: &str, fallback: String) -> (res: String)
    ensures
        res@ == (if trim_seq(input@).len() == 0 {
            fallback@
        } else {
            trim_seq(input@)
        }),
{
    let t = crate::text::trim(input);
    if t.unicode_len() == 0 {
        fallback
    } else {
        t
    }
}

/// A typed answer that must not be blank: the trimmed answer, or nothing (ask again).
pub fn required_answer(input: &str) -> (res: Option<String>)
    ensures
        opt_string_view(res) == (if trim_seq(input@).len() == 0 {
            None
        } else {
            Some(trim_seq(input@))
        }),
{
    let t = crate::text::trim(input);
    if t.unicode_len() == 0 {
        None
    } else {
        Some(t)
    }
}

/// A typed provider choice: the default for a blank answer, the provider the
/// answer names, or nothing (ask again).
pub fn provider_answer(input: &str, default: ProviderOption) -> (res: Option<ProviderOption>)
    ensures
        res == (if trim_seq(input@).len() == 0 {
            Some(default)
        } else {
            crate::onboarding_copy::provider_from_input_spec(trim_seq(input@))
        }),
{
    let t = crate::text::trim(input);
    if t.unicode_len() == 0 {
        Some(default)
    } else {
        ProviderOption::from_input(t.as_str())
    }
}

/// A typed model choice: the default for a blank answer, the preset the answer
/// names, or nothing (ask again).
pub fn model_answer(input: &str, provider: ProviderOption, default: ModelPreset) -> (res: Option<ModelPreset>)
    ensures
        res == (if trim_seq(input@).len() == 0 {
            Some(default)
        } else {
            crate::onboarding_copy::preset_from_input_spec(provider, trim_seq(input@))
        }),
{
    let t = crate::text::trim(input);
    if t.unicode_len() == 0 {
        Some(default)
    } else {
        ModelPreset::from_input(provider, t.as_str())
    }
}

/// The model offered first for a provider: the first preset of its list.
pub open spec fn default_model_spec(provider: ProviderOption) -> Option<ModelPreset> {
    match provider {
        ProviderOption::OpenAiCompatible => Some(ModelPreset::OpenAiOpus),
        ProviderOption::Anthropic => Some(ModelPreset::AnthropicOpus),
        ProviderOption::Exit => None,
    }
}

/// The model offered first for a provider.
pub fn default_model(provider: ProviderOption) -> (res: Option<ModelPreset>)
    ensures
        res == default_model_spec(provider),
{
    match provider {
        ProviderOption::OpenAiCompatible => Some(ModelPreset::OpenAiOpus),
        ProviderOption::Anthropic => Some(ModelPreset::AnthropicOpus),
        ProviderOption::Exit => None,
    }
}

/// Where a launch takes its model from.
#[derive(Debug)]
pub enum ModelSource {
    /// The model given on the command line.
    Override(String),
    /// The model of the stored session with this id, which is to be loaded.
    StoredSession(String),
    /// The model of the configuration.
    Configured(String),
}

/// Where a launch takes its model from: a non-blank override, else the session
/// being resumed, else the configured model.
pub fn select_model_source(model_override: Option<&str>, session_id: Option<&str>, configured: &str) -> (res:
    ModelSource)
    ensures
        match model_override {
            Some(m) if trim_seq(m@).len() > 0 => res matches ModelSource::Override(r) && r@ == m@,
            _ => match session_id {
                Some(id) => res matches ModelSource::StoredSession(s) && s@ == id@,
                None => res matches ModelSource::Configured(c) && c@ == configured@,
            },
        },
{
    match model_override_choice(model_override) {
        Some(m) => ModelSource::Override(m),
        None => match session_id {
            Some(id) => ModelSource::StoredSession(id.to_string()),
            None => ModelSource::Configured(configured.to_string()),
        },
    }
}


/// Law: typing the number shown before a model picks that model. For every provider
/// and every position `i` of its model list (the list `model_options` shows and the
/// model card numbers), the answer `i + 1` picks the preset at `i`; a digit past the
/// end of the list picks nothing.
pub proof fn lemma_model_number_picks_listed_preset(provider: ProviderOption, i: nat)
    requires
        i < 9,
    ensures
        i < presets_for(provider).len() ==> crate::onboarding_copy::preset_from_input_spec(
            provider,
            crate::text::decimal(i + 1),
        ) == Some(presets_for(provider)[i as int]),
        i >= presets_for(provider).len() ==> crate::onboarding_copy::preset_from_input_spec(
            provider,
            crate::text::decimal(i + 1),
        ) is None,
        i < presets_for(provider).len() ==> crate::text::has_prefix(
            crate::onboarding_copy::model_cards_spec(AppLanguage::English, provider)[0].1[i as int],
            crate::text::decimal(i + 1) + ". "@ + display_name_spec(
                presets_for(provider)[i as int],
                AppLanguage::English,
            ),
        ),
{
    reveal_strlit("1");
    reveal_strlit("2");
    reveal_strlit("3");
    reveal_strlit(". ");
    reveal_strlit("OpenAI Opus");
    reveal_strlit("OpenAI Sonnet");
    reveal_strlit("Opus");
    reveal_strlit("Sonnet");
    reveal_strlit("Haiku");
    reveal_strlit("1. OpenAI Opus — highest capability for complex local coding tasks");
    reveal_strlit("2. OpenAI Sonnet — balanced speed and quality for everyday work");
    reveal_strlit("1. Opus — highest capability");
    reveal_strlit("2. Sonnet — balanced default");
    reveal_strlit("3. Haiku — fastest lightweight option");
    let d = crate::text::decimal(i + 1);
    assert(d =~= seq![((49 + i) as char)]);
    assert(!crate::text::is_ws(d[0]));
    assert(d.drop_last().len() == 0);
    assert(crate::text::trim_end_seq(d.drop_last()) =~= d.drop_last());
    assert(crate::text::trim_end_seq(d) == d);
    assert(crate::text::trim_start_seq(d) == d);
    assert(crate::text::trim_seq(d) == d);
    if i == 0 {
        assert(d =~= "1"@);
    } else if i == 1 {
        assert(d =~= "2"@);
    } else if i == 2 {
        assert(d =~= "3"@);
    }
    let lines = crate::onboarding_copy::model_cards_spec(AppLanguage::English, provider);
    if i < presets_for(provider).len() {
        let want = d + ". "@ + display_name_spec(presets_for(provider)[i as int], AppLanguage::English);
        assert(lines[0].1[i as int].subrange(0, want.len() as int) =~= want);
    }
}

} // verus!
