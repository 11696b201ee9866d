//! Configuration values: gateway, permissions, sessions, providers and the
//! LSP, MCP, plugin, remote and scheduler sections.

use vstd::prelude::*;

use crate::named_map::NamedMap;
use crate::text::{
    eq_ignore_ascii_case, keyword_form, keyword_form_of, lemma_keyword_form_of_plain, lower_seq,
    plain_keyword_char, str_eq, strip_leading,
    trim_start_char,
};

verus! {

/// Where the local gateway listens.
pub struct GatewayConfig {
    pub listen: String,
}

/// How tool calls are approved.
#[derive(Clone, Copy, Debug, PartialEq, Eq, Structural)]
pub enum PermissionMode {
    Default,
    AcceptEdits,
    BypassPermissions,
}

/// The configuration name of a permission mode.
pub open spec fn permission_mode_name(m: PermissionMode) -> Seq<char> {
    match m {
        PermissionMode::Default => "default"@,
        PermissionMode::AcceptEdits => "accept_edits"@,
        PermissionMode::BypassPermissions => "bypass_permissions"@,
    }
}

/// The permission mode a typed value names, if any (`bypass` is short for
/// `bypass_permissions`).
pub open spec fn permission_mode_named(value: Seq<char>) -> Option<PermissionMode> {
    let k = keyword_form(value);
    if k == "default"@ {
        Some(PermissionMode::Default)
    } else if k == "accept_edits"@ {
        Some(PermissionMode::AcceptEdits)
    } else if k == "bypass"@ || k == "bypass_permissions"@ {
        Some(PermissionMode::BypassPermissions)
    } else {
        None
    }
}

/// The refusal for an unknown permission mode.
pub open spec fn permission_mode_error() -> Seq<char> {
    "Unsupported permission mode. Use one of: default, accept_edits, bypass_permissions"@
}

impl Default for PermissionMode {
    fn default() -> (m: Self)
        ensures
            m == PermissionMode::Default,
    {
        PermissionMode::Default
    }
}

impl PermissionMode {
    /// The configuration name of the mode.
    pub fn as_str(&self) -> (res: &'static str)
        ensures
            res@ == permission_mode_name(*self),
    {
        match self {
            PermissionMode::Default => "default",
            PermissionMode::AcceptEdits => "accept_edits",
            PermissionMode::BypassPermissions => "bypass_permissions",
        }
    }

    /// The names of all modes, in declaration order.
    pub fn supported_values() -> (res: Vec<&'static str>)
        ensures
            res@.len() == 3,
            res@[0]@ == permission_mode_name(PermissionMode::Default),
            res@[1]@ == permission_mode_name(PermissionMode::AcceptEdits),
            res@[2]@ == permission_mode_name(PermissionMode::BypassPermissions),
    {
        let mut v = Vec::new();
        v.push("default");
        v.push("accept_edits");
        v.push("bypass_permissions");
        v
    }

    /// Reads a typed permission mode.
    pub fn parse(value: &str) -> (res: Result<PermissionMode, String>)
        ensures
            match permission_mode_named(value@) {
                Some(m) => res == Ok::<PermissionMode, String>(m),
                None => res matches Err(e) && e@ == permission_mode_error(),
            },
    {
        let k = keyword_form_of(value);
        if str_eq(k.as_str(), "default") {
            Ok(PermissionMode::Default)
        } else if str_eq(k.as_str(), "accept_edits") {
            Ok(PermissionMode::AcceptEdits)
        } else if str_eq(k.as_str(), "bypass") || str_eq(k.as_str(), "bypass_permissions") {
            Ok(PermissionMode::BypassPermissions)
        } else {
            Err(
                "Unsupported permission mode. Use one of: default, accept_edits, bypass_permissions".to_owned(),
            )
        }
    }
}

/// Law: the configuration name of every permission mode reads back as that mode.
pub proof fn lemma_permission_mode_round_trip(m: PermissionMode)
    ensures
        permission_mode_named(permission_mode_name(m)) == Some(m),
{
    reveal_strlit("default");
    reveal_strlit("accept_edits");
    reveal_strlit("bypass");
    reveal_strlit("bypass_permissions");
    let n = permission_mode_name(m);
    assert(forall|i: int| 0 <= i < n.len() ==> plain_keyword_char(#[trigger] n[i]));
    lemma_keyword_form_of_plain(n);
}

impl std::str::FromStr for PermissionMode {
    type Err = String;

    fn from_str(value: &str) -> (res: Result<PermissionMode, String>)
        ensures
            match permission_mode_named(value@) {
                Some(m) => res == Ok::<PermissionMode, String>(m),
                None => res matches Err(e) && e@ == permission_mode_error(),
            },
    {
        PermissionMode::parse(value)
    }
}

/// The permissions section.
pub struct PermissionConfig {
    pub mode: PermissionMode,
}

/// The session section.
pub struct SessionConfig {
    pub persist: bool,
    pub model: String,
}

/// The output style section.
pub struct OutputStyleConfig {
    pub default: Option<String>,
}

/// The prompt composition section.
pub struct PromptCompositionConfig {
    pub persona: Option<String>,
    pub fragments: Vec<String>,
}

/// How one upstream provider is reached.
pub enum ProviderConfig {
    Anthropic { base_url: String, anthropic_version: String, api_key_env: String },
    OpenAiCompatible { base_url: String, api_key_env: String },
}

/// The kinds of upstream providers.
#[derive(Clone, Copy, Debug, PartialEq, Eq, Structural)]
pub enum ProviderKind {
    Anthropic,
    OpenAiCompatible,
}

/// How a provider handles extended reasoning.
#[derive(Clone, Copy, Debug, PartialEq, Eq, Structural)]
pub enum ReasoningCompatibility {
    Native,
    Simulated,
    Unsupported,
}

/// What a provider supports.
#[derive(Clone, Copy, Debug, PartialEq, Eq, Structural)]
pub struct ProviderCapabilities {
    pub tools: bool,
    pub streaming: bool,
    pub thinking: ReasoningCompatibility,
    pub system_prompt: bool,
}

/// A model as the gateway offers it.
pub struct ModelProfile {
    pub name: String,
    pub provider: String,
    pub upstream_model: String,
    pub display_name: String,
    pub capabilities: ProviderCapabilities,
}

/// What a configured provider supports; nothing when the provider is unknown.
pub open spec fn capabilities_spec(provider: Option<&ProviderConfig>) -> ProviderCapabilities {
    match provider {
        Some(ProviderConfig::Anthropic { .. }) => ProviderCapabilities {
            tools: true,
            streaming: true,
            thinking: ReasoningCompatibility::Native,
            system_prompt: true,
        },
        Some(ProviderConfig::OpenAiCompatible { .. }) => ProviderCapabilities {
            tools: true,
            streaming: true,
            thinking: ReasoningCompatibility::Simulated,
            system_prompt: true,
        },
        None => ProviderCapabilities {
            tools: false,
            streaming: false,
            thinking: ReasoningCompatibility::Unsupported,
            system_prompt: false,
        },
    }
}

/// What a configured provider supports.
pub fn provider_capabilities(provider: Option<&ProviderConfig>) -> (res: ProviderCapabilities)
    ensures
        res == capabilities_spec(provider),
{
    match provider {
        Some(ProviderConfig::Anthropic { .. }) => ProviderCapabilities {
            tools: true,
            streaming: true,
            thinking: ReasoningCompatibility::Native,
            system_prompt: true,
        },
        Some(ProviderConfig::OpenAiCompatible { .. }) => ProviderCapabilities {
            tools: true,
            streaming: true,
            thinking: ReasoningCompatibility::Simulated,
            system_prompt: true,
        },
        None => ProviderCapabilities {
            tools: false,
            streaming: false,
            thinking: ReasoningCompatibility::Unsupported,
            system_prompt: false,
        },
    }
}

/// A model profile of the configuration. Its pricing, a pair of floating-point
/// rates, stays with the caller; `has_pricing` tells whether it has one.
pub struct ProfileEntry {
    pub name: String,
    pub provider: String,
    pub upstream_model: String,
    pub display_name: Option<String>,
    pub has_pricing: bool,
}

/// The provider entry a profile names, if it is configured.
pub open spec fn provider_entry(providers: Map<Seq<char>, ProviderConfig>, name: Seq<char>) -> Option<ProviderConfig> {
    if providers.contains_key(name) {
        Some(providers[name])
    } else {
        None
    }
}

/// Whether `m` is the model a profile offers: its name and provider, its upstream
/// model, its display name (the profile name when none is set), and what its
/// provider supports.
pub open spec fn materialized(p: ProfileEntry, providers: Map<Seq<char>, ProviderConfig>, m: ModelProfile) -> bool {
    &&& m.name@ == p.name@
    &&& m.provider@ == p.provider@
    &&& m.upstream_model@ == p.upstream_model@
    &&& m.display_name@ == match p.display_name {
        Some(d) => d@,
        None => p.name@,
    }
    &&& m.capabilities == match provider_entry(providers, p.provider@) {
        Some(c) => capabilities_spec(Some(&c)),
        None => capabilities_spec(None),
    }
}

/// The models the profiles offer, in the profiles' order.
pub fn materialize_profiles(profiles: &Vec<ProfileEntry>, providers: &NamedMap<ProviderConfig>) -> (res: Vec<
    ModelProfile,
>)
    ensures
        res@.len() == profiles@.len(),
        forall|i: int| 0 <= i < profiles@.len() ==> materialized(profiles@[i], providers@, #[trigger] res@[i]),
{
    let mut res: Vec<ModelProfile> = Vec::new();
    let mut i: usize = 0;
    while i < profiles.len()
        invariant
            i <= profiles@.len(),
            res@.len() == i,
            forall|k: int| 0 <= k < i ==> materialized(profiles@[k], providers@, #[trigger] res@[k]),
        decreases profiles@.len() - i,
    {
        let p = &profiles[i];
        let capabilities = provider_capabilities(providers.get(p.provider.as_str()));
        let display_name = match &p.display_name {
            Some(d) => d.clone(),
            None => p.name.clone(),
        };
        res.push(
            ModelProfile {
                name: p.name.clone(),
                provider: p.provider.clone(),
                upstream_model: p.upstream_model.clone(),
                display_name,
                capabilities,
            },
        );
        i = i + 1;
    }
    res
}

/// The first profile from `k` on named `model`.
pub open spec fn first_named_profile(profiles: Seq<ProfileEntry>, model: Seq<char>, k: int) -> Option<int>
    decreases profiles.len() - k,
{
    if k < 0 || k >= profiles.len() {
        None
    } else if profiles[k].name@ == model {
        Some(k)
    } else {
        first_named_profile(profiles, model, k + 1)
    }
}

/// The first profile from `k` on whose upstream model is `model`.
pub open spec fn first_upstream_profile(profiles: Seq<ProfileEntry>, model: Seq<char>, k: int) -> Option<int>
    decreases profiles.len() - k,
{
    if k < 0 || k >= profiles.len() {
        None
    } else if profiles[k].upstream_model@ == model {
        Some(k)
    } else {
        first_upstream_profile(profiles, model, k + 1)
    }
}

/// The profile whose pricing applies to `model`: the profile of that name when it
/// has pricing, else the first profile with that upstream model when that one has
/// pricing; none otherwise.
pub open spec fn pricing_profile_spec(profiles: Seq<ProfileEntry>, model: Seq<char>) -> Option<int> {
    match first_named_profile(profiles, model, 0) {
        Some(i) if profiles[i].has_pricing => Some(i),
        _ => match first_upstream_profile(profiles, model, 0) {
            Some(j) if profiles[j].has_pricing => Some(j),
            _ => None,
        },
    }
}

/// Which profile's pricing applies to `model`, by position.
pub fn pricing_for_model(profiles: &Vec<ProfileEntry>, model: &str) -> (res: Option<usize>)
    ensures
        match res {
            Some(i) => pricing_profile_spec(profiles@, model@) == Some(i as int),
            None => pricing_profile_spec(profiles@, model@) is None,
        },
{
    let mut i: usize = 0;
    let mut named: Option<usize> = None;
    while i < profiles.len()
        invariant
            i <= profiles@.len(),
            named is None ==> first_named_profile(profiles@, model@, 0) == first_named_profile(
                profiles@,
                model@,
                i as int,
            ),
            named matches Some(n) ==> first_named_profile(profiles@, model@, 0) == Some(n as int) && n
                < profiles@.len(),
        decreases profiles@.len() - i,
    {
        if named.is_none() && crate::text::str_eq(profiles[i].name.as_str(), model) {
            named = Some(i);
        }
        i = i + 1;
    }
    if let Some(n) = named {
        if profiles[n].has_pricing {
            return Some(n);
        }
    }
    let mut j: usize = 0;
    assert(match first_named_profile(profiles@, model@, 0) {
        Some(n) => 0 <= n < profiles@.len() && !profiles@[n].has_pricing,
        None => true,
    });
    while j < profiles.len()
        invariant
            j <= profiles@.len(),
            match first_named_profile(profiles@, model@, 0) {
                Some(n) => 0 <= n < profiles@.len() && !profiles@[n].has_pricing,
                None => true,
            },
            first_upstream_profile(profiles@, model@, 0) == first_upstream_profile(profiles@, model@, j as int),
        decreases profiles@.len() - j,
    {
        if crate::text::str_eq(profiles[j].upstream_model.as_str(), model) {
            return if profiles[j].has_pricing {
                Some(j)
            } else {
                None
            };
        }
        j = j + 1;
    }
    None
}

/// The first model from `k` on named `model`.
pub open spec fn first_named_model(profiles: Seq<ModelProfile>, model: Seq<char>, k: int) -> Option<int>
    decreases profiles.len() - k,
{
    if k < 0 || k >= profiles.len() {
        None
    } else if profiles[k].name@ == model {
        Some(k)
    } else {
        first_named_model(profiles, model, k + 1)
    }
}

/// The first model from `k` on whose upstream model is `model`.
pub open spec fn first_upstream_model(profiles: Seq<ModelProfile>, model: Seq<char>, k: int) -> Option<int>
    decreases profiles.len() - k,
{
    if k < 0 || k >= profiles.len() {
        None
    } else if profiles[k].upstream_model@ == model {
        Some(k)
    } else {
        first_upstream_model(profiles, model, k + 1)
    }
}

/// The model a request names: the one of that name, else the first whose upstream
/// model it is.
pub open spec fn resolve_profile_spec(profiles: Seq<ModelProfile>, model: Seq<char>) -> Option<int> {
    match first_named_model(profiles, model, 0) {
        Some(i) => Some(i),
        None => first_upstream_model(profiles, model, 0),
    }
}

/// The position of the model a request names.
pub fn resolve_profile(profiles: &Vec<ModelProfile>, model: &str) -> (res: Option<usize>)
    ensures
        match res {
            Some(i) => resolve_profile_spec(profiles@, model@) == Some(i as int),
            None => resolve_profile_spec(profiles@, model@) is None,
        },
{
    let mut i: usize = 0;
    while i < profiles.len()
        invariant
            i <= profiles@.len(),
            first_named_model(profiles@, model@, 0) == first_named_model(profiles@, model@, i as int),
        decreases profiles@.len() - i,
    {
        if crate::text::str_eq(profiles[i].name.as_str(), model) {
            return Some(i);
        }
        i = i + 1;
    }
    let mut j: usize = 0;
    while j < profiles.len()
        invariant
            j <= profiles@.len(),
            first_named_model(profiles@, model@, 0) is None,
            first_upstream_model(profiles@, model@, 0) == first_upstream_model(profiles@, model@, j as int),
        decreases profiles@.len() - j,
    {
        if crate::text::str_eq(profiles[j].upstream_model.as_str(), model) {
            return Some(j);
        }
        j = j + 1;
    }
    None
}

/// The capabilities a model card lists: messages always, then tools and streaming
/// when the model supports them.
pub open spec fn card_capabilities_spec(c: ProviderCapabilities) -> Seq<Seq<char>> {
    seq!["messages"@] + (if c.tools {
        seq!["tools"@]
    } else {
        seq![]
    }) + (if c.streaming {
        seq!["streaming"@]
    } else {
        seq![]
    })
}

/// The capabilities a model card lists.
pub fn card_capabilities(c: &ProviderCapabilities) -> (res: Vec<String>)
    ensures
        crate::text::views(res@) == card_capabilities_spec(*c),
{
    let mut res: Vec<String> = Vec::new();
    res.push("messages".to_string());
    if c.tools {
        res.push("tools".to_string());
    }
    if c.streaming {
        res.push("streaming".to_string());
    }
    assert(crate::text::views(res@) =~= card_capabilities_spec(*c));
    res
}

/// The base URL a provider entry points at.
pub open spec fn provider_base_url(p: &ProviderConfig) -> Seq<char> {
    match p {
        ProviderConfig::Anthropic { base_url, .. } => base_url@,
        ProviderConfig::OpenAiCompatible { base_url, .. } => base_url@,
    }
}

/// The listen address the gateway uses by default.
pub fn default_listen() -> (res: String)
    ensures
        res@ == "127.0.0.1:7821"@,
{
    "127.0.0.1:7821".to_owned()
}

/// The default gateway section.
pub fn default_gateway() -> (res: GatewayConfig)
    ensures
        res.listen@ == "127.0.0.1:7821"@,
{
    GatewayConfig { listen: default_listen() }
}

/// The default session section: persisted, with the `opus` model.
pub fn default_session() -> (res: SessionConfig)
    ensures
        res.persist,
        res.model@ == "opus"@,
{
    SessionConfig { persist: true, model: "opus".to_owned() }
}

/// Whether `p` is the default Anthropic provider entry.
pub open spec fn is_default_anthropic(p: ProviderConfig) -> bool {
    p matches ProviderConfig::Anthropic { base_url, anthropic_version, api_key_env }
        && base_url@ == "https://api.anthropic.com"@ && anthropic_version@ == "2023-06-01"@
        && api_key_env@ == "ANTHROPIC_API_KEY"@
}

/// Whether `p` is the default OpenAI-compatible provider entry.
pub open spec fn is_default_openai(p: ProviderConfig) -> bool {
    p matches ProviderConfig::OpenAiCompatible { base_url, api_key_env } && base_url@
        == "https://api.openai.com/v1"@ && api_key_env@ == "OPENAI_API_KEY"@
}

/// The default Anthropic provider entry.
pub fn default_anthropic_provider() -> (res: ProviderConfig)
    ensures
        is_default_anthropic(res),
{
    ProviderConfig::Anthropic {
        base_url: "https://api.anthropic.com".to_owned(),
        anthropic_version: "2023-06-01".to_owned(),
        api_key_env: "ANTHROPIC_API_KEY".to_owned(),
    }
}

/// The default OpenAI-compatible provider entry.
pub fn default_openai_provider() -> (res: ProviderConfig)
    ensures
        is_default_openai(res),
{
    ProviderConfig::OpenAiCompatible {
        base_url: "https://api.openai.com/v1".to_owned(),
        api_key_env: "OPENAI_API_KEY".to_owned(),
    }
}

/// The providers a fresh configuration has: `anthropic` and `openai`.
pub fn default_providers() -> (res: NamedMap<ProviderConfig>)
    ensures
        res@.dom() =~= set!["anthropic"@, "openai"@],
        is_default_anthropic(res@["anthropic"@]),
        is_default_openai(res@["openai"@]),
{
    proof {
        reveal_strlit("anthropic");
        reveal_strlit("openai");
    }
    let mut m = NamedMap::new();
    m.insert("anthropic".to_owned(), default_anthropic_provider());
    m.insert("openai".to_owned(), default_openai_provider());
    assert("anthropic"@ != "openai"@) by {
        assert("anthropic"@[0] != "openai"@[0]);
    }
    m
}

/// A language server entry.
pub struct LspServerConfig {
    pub enabled: bool,
    pub description: Option<String>,
    pub command: String,
    pub args: Vec<String>,
    pub env: NamedMap<String>,
    pub cwd: Option<String>,
    pub language_id: Option<String>,
    pub file_extensions: Vec<String>,
    pub root_markers: Vec<String>,
}

/// The LSP section.
pub struct LspConfig {
    pub servers: NamedMap<LspServerConfig>,
}

/// Whether a configured extension (leading dots ignored) names `extension`,
/// ASCII case ignored.
pub open spec fn extension_matches(configured: Seq<char>, extension: Seq<char>) -> bool {
    lower_seq(strip_leading(configured, '.')) == lower_seq(extension)
}

impl LspServerConfig {
    /// Whether one of the server's file extensions, with or without its dot, is
    /// `extension`, ASCII case ignored.
    pub fn matches_extension(&self, extension: &str) -> (res: bool)
        ensures
            res == exists|i: int|
                0 <= i < self.file_extensions@.len() && extension_matches(
                    #[trigger] self.file_extensions@[i]@,
                    extension@,
                ),
    {
        let mut i: usize = 0;
        while i < self.file_extensions.len()
            invariant
                i <= self.file_extensions@.len(),
                forall|j: int|
                    0 <= j < i ==> !extension_matches(
                        #[trigger] self.file_extensions@[j]@,
                        extension@,
                    ),
            decreases self.file_extensions@.len() - i,
        {
            let stripped = trim_start_char(self.file_extensions[i].as_str(), '.');
            if eq_ignore_ascii_case(stripped.as_str(), extension) {
                return true;
            }
            i = i + 1;
        }
        false
    }
}

/// Where an MCP server entry applies.
#[derive(Clone, Copy, Debug, PartialEq, Eq, Structural)]
pub enum McpScope {
    Local,
    User,
    Project,
    Dynamic,
    Enterprise,
    Managed,
    Claudeai,
}

/// The configuration name of an MCP scope.
pub open spec fn mcp_scope_name(s: McpScope) -> Seq<char> {
    match s {
        McpScope::Local => "local"@,
        McpScope::User => "user"@,
        McpScope::Project => "project"@,
        McpScope::Dynamic => "dynamic"@,
        McpScope::Enterprise => "enterprise"@,
        McpScope::Managed => "managed"@,
        McpScope::Claudeai => "claudeai"@,
    }
}

/// The scope a typed value names, if any (`claude_ai` is read as `claudeai`).
pub open spec fn mcp_scope_named(value: Seq<char>) -> Option<McpScope> {
    let k = keyword_form(value);
    if k == "local"@ {
        Some(McpScope::Local)
    } else if k == "user"@ {
        Some(McpScope::User)
    } else if k == "project"@ {
        Some(McpScope::Project)
    } else if k == "dynamic"@ {
        Some(McpScope::Dynamic)
    } else if k == "enterprise"@ {
        Some(McpScope::Enterprise)
    } else if k == "managed"@ {
        Some(McpScope::Managed)
    } else if k == "claudeai"@ || k == "claude_ai"@ {
        Some(McpScope::Claudeai)
    } else {
        None
    }
}

/// Law: the configuration name of every scope reads back as that scope.
pub proof fn lemma_mcp_scope_round_trip(s: McpScope)
    ensures
        mcp_scope_named(mcp_scope_name(s)) == Some(s),
{
    reveal_strlit("local");
    reveal_strlit("user");
    reveal_strlit("project");
    reveal_strlit("dynamic");
    reveal_strlit("enterprise");
    reveal_strlit("managed");
    reveal_strlit("claudeai");
    reveal_strlit("claude_ai");
    let n = mcp_scope_name(s);
    assert(forall|i: int| 0 <= i < n.len() ==> plain_keyword_char(#[trigger] n[i]));
    lemma_keyword_form_of_plain(n);
    assert("project"@[0] != "dynamic"@[0]);
    assert("project"@[0] != "managed"@[0]);
    assert("dynamic"@[0] != "managed"@[0]);
    assert("local"@[0] != "claudeai"@[0]);
}

impl Default for McpScope {
    fn default() -> (s: Self)
        ensures
            s == McpScope::User,
    {
        McpScope::User
    }
}

impl McpScope {
    /// The configuration name of the scope.
    pub fn as_str(&self) -> (res: &'static str)
        ensures
            res@ == mcp_scope_name(*self),
    {
        match self {
            McpScope::Local => "local",
            McpScope::User => "user",
            McpScope::Project => "project",
            McpScope::Dynamic => "dynamic",
            McpScope::Enterprise => "enterprise",
            McpScope::Managed => "managed",
            McpScope::Claudeai => "claudeai",
        }
    }

    /// Reads a typed scope.
    pub fn parse(value: &str) -> (res: Result<McpScope, String>)
        ensures
            match mcp_scope_named(value@) {
                Some(s) => res == Ok::<McpScope, String>(s),
                None => res matches Err(e) && e@ == "Unsupported MCP scope."@,
            },
    {
        let k = keyword_form_of(value);
        let k = k.as_str();
        if str_eq(k, "local") {
            Ok(McpScope::Local)
        } else if str_eq(k, "user") {
            Ok(McpScope::User)
        } else if str_eq(k, "project") {
            Ok(McpScope::Project)
        } else if str_eq(k, "dynamic") {
            Ok(McpScope::Dynamic)
        } else if str_eq(k, "enterprise") {
            Ok(McpScope::Enterprise)
        } else if str_eq(k, "managed") {
            Ok(McpScope::Managed)
        } else if str_eq(k, "claudeai") || str_eq(k, "claude_ai") {
            Ok(McpScope::Claudeai)
        } else {
            Err("Unsupported MCP scope.".to_owned())
        }
    }
}

impl std::str::FromStr for McpScope {
    type Err = String;

    fn from_str(value: &str) -> (res: Result<McpScope, String>)
        ensures
            match mcp_scope_named(value@) {
                Some(s) => res == Ok::<McpScope, String>(s),
                None => res matches Err(e) && e@ == "Unsupported MCP scope."@,
            },
    {
        McpScope::parse(value)
    }
}

/// How an MCP server is reached.
pub enum McpTransportConfig {
    Stdio { command: String, args: Vec<String>, env: NamedMap<String>, cwd: Option<String> },
    Sse { url: String, headers: NamedMap<String> },
    Ws { url: String, headers: NamedMap<String> },
}

/// The configuration name of a transport.
pub open spec fn transport_kind(t: &McpTransportConfig) -> Seq<char> {
    match t {
        McpTransportConfig::Stdio { .. } => "stdio"@,
        McpTransportConfig::Sse { .. } => "sse"@,
        McpTransportConfig::Ws { .. } => "ws"@,
    }
}

impl McpTransportConfig {
    /// The configuration name of the transport.
    pub fn kind(&self) -> (res: &'static str)
        ensures
            res@ == transport_kind(self),
    {
        match self {
            McpTransportConfig::Stdio { .. } => "stdio",
            McpTransportConfig::Sse { .. } => "sse",
            McpTransportConfig::Ws { .. } => "ws",
        }
    }
}

/// OAuth settings of an MCP server.
pub struct McpOAuthConfig {
    pub provider: Option<String>,
    pub client_id: String,
    pub authorize_url: String,
    pub token_url: String,
    pub redirect_url: String,
    pub scopes: Vec<String>,
    pub login_hint: Option<String>,
    pub account_id: Option<String>,
}

/// An MCP server entry.
pub struct McpServerConfig {
    pub enabled: bool,
    pub description: Option<String>,
    pub scope: McpScope,
    pub oauth: Option<McpOAuthConfig>,
    pub transport: McpTransportConfig,
}

/// The MCP section.
pub struct McpConfig {
    pub servers: NamedMap<McpServerConfig>,
}

/// Where an installed plugin comes from.
pub enum PluginSourceConfig {
    LocalPath { path: String },
    Marketplace { marketplace: String, package: String, version: Option<String> },
    Builtin { name: String },
}

impl Default for PluginSourceConfig {
    fn default() -> (res: Self)
        ensures
            res matches PluginSourceConfig::LocalPath { path } && path@.len() == 0,
    {
        PluginSourceConfig::LocalPath { path: String::new() }
    }
}

/// An installed plugin.
pub struct PluginEntryConfig {
    pub enabled: bool,
    pub install_path: Option<String>,
    pub source: PluginSourceConfig,
    pub version: Option<String>,
    pub description: Option<String>,
}

/// A plugin marketplace.
pub struct MarketplaceConfig {
    pub enabled: bool,
    pub url: String,
    pub description: Option<String>,
}

/// The plugins section.
pub struct PluginConfig {
    pub installed: NamedMap<PluginEntryConfig>,
    pub marketplaces: NamedMap<MarketplaceConfig>,
}

/// A remote environment.
pub struct RemoteEnvironmentConfig {
    pub enabled: bool,
    pub server_url: String,
    pub token_env: Option<String>,
    pub account_id: Option<String>,
    pub device_id: Option<String>,
    pub description: Option<String>,
}

/// The remote section.
pub struct RemoteConfig {
    pub environments: NamedMap<RemoteEnvironmentConfig>,
}

/// The scheduler section.
#[derive(Clone, Copy, Debug, PartialEq, Eq, Structural)]
pub struct SchedulerConfig {
    pub enabled: bool,
    pub max_jobs: usize,
}

impl Default for SchedulerConfig {
    fn default() -> (res: Self)
        ensures
            res.enabled,
            res.max_jobs == 50,
    {
        SchedulerConfig { enabled: true, max_jobs: 50 }
    }
}

} // verus!
