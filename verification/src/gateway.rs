//! Deciding whether the local gateway must be started, the health check it is
//! probed with, and where it sends a request.

use vstd::prelude::*;

use crate::config::{
    first_named_model, first_upstream_model, resolve_profile, resolve_profile_spec, ModelProfile,
};
use crate::text::{has_prefix, opt_view, starts_with, str_eq, strip_trailing, trim_end_char};

verus! {

/// The parts of a parsed URL that the gateway checks read.
pub struct UrlParts {
    /// The scheme, lower case, without `:`.
    pub scheme: String,
    /// The host, if the URL has one.
    pub host: Option<String>,
    /// The port, or the scheme's well-known default.
    pub port: Option<u16>,
    /// The path, without query or fragment.
    pub path: String,
}

/// The parts as plain values: scheme, host, port, path.
pub open spec fn parts_view(p: UrlParts) -> (Seq<char>, Option<Seq<char>>, Option<u16>, Seq<char>) {
    (p.scheme@, crate::text::opt_string_view(p.host), p.port, p.path@)
}

/// What `reqwest::Url::parse` makes of a text, as its scheme, host, port (or known
/// default) and path; nothing when the text is not an absolute URL.
pub uninterp spec fn parsed_url(text: Seq<char>) -> Option<(Seq<char>, Option<Seq<char>>, Option<u16>, Seq<char>)>;

/// Parses a URL. Calls `reqwest::Url::parse` and reads `scheme`, `host_str`,
/// `port_or_known_default` and `path` of the result; the parse itself is named, not
/// spelled out.
#[verifier::external_body]
fn parse_url(text: &str) -> (res: Option<UrlParts>)
    ensures
        match res {
            Some(p) => parsed_url(text@) == Some(parts_view(p)),
            None => parsed_url(text@) is None,
        },
{
    reqwest::Url::parse(text).ok().map(|u| UrlParts {
        scheme: u.scheme().to_owned(),
        host: u.host_str().map(|h| h.to_owned()),
        port: u.port_or_known_default(),
        path: u.path().to_owned(),
    })
}

/// A listen address or URL with an `http://` scheme added when it has none.
pub open spec fn normalized_base_url(value: Seq<char>) -> Seq<char> {
    if has_prefix(value, "http://"@) || has_prefix(value, "https://"@) {
        value
    } else {
        "http://"@ + value
    }
}

/// Adds `http://` to a value that has neither `http://` nor `https://`.
pub fn normalize_base_url(value: String) -> (res: String)
    ensures
        res@ == normalized_base_url(value@),
{
    if starts_with(value.as_str(), "http://") || starts_with(value.as_str(), "https://") {
        value
    } else {
        let mut s = "http://".to_owned();
        s.append(value.as_str());
        s
    }
}

/// The base URL the gateway is reached at: the given URL, else the configured
/// listen address, with a scheme added.
pub fn gateway_base_url(gateway_url: Option<&str>, listen: &str) -> (res: String)
    ensures
        res@ == normalized_base_url(
            match opt_view(gateway_url) {
                Some(u) => u,
                None => listen@,
            },
        ),
{
    match gateway_url {
        Some(u) => normalize_base_url(u.to_owned()),
        None => normalize_base_url(listen.to_owned()),
    }
}

/// Whether a host is the local loopback address or `localhost`.
pub open spec fn is_loopback(host: Option<Seq<char>>) -> bool {
    host == Some("127.0.0.1"@) || host == Some("localhost"@)
}

/// Whether a host is the local loopback address or `localhost`.
pub fn is_loopback_host(host: Option<&str>) -> (res: bool)
    ensures
        res == is_loopback(opt_view(host)),
{
    match host {
        Some(h) => str_eq(h, "127.0.0.1") || str_eq(h, "localhost"),
        None => false,
    }
}

/// Whether a base URL points at a gateway on this machine.
pub fn is_local_loopback_gateway(base_url: &str) -> (res: bool)
    ensures
        res == match parsed_url(base_url@) {
            Some(p) => is_loopback(p.1),
            None => false,
        },
{
    match parse_url(base_url) {
        Some(p) => match &p.host {
            Some(h) => is_loopback_host(Some(h.as_str())),
            None => is_loopback_host(None),
        },
        None => false,
    }
}

/// The health path under a URL path: its trailing slashes dropped, then `/health`.
pub open spec fn health_path_spec(path: Seq<char>) -> Seq<char> {
    let p = strip_trailing(path, '/');
    if p.len() == 0 {
        "/health"@
    } else {
        p + "/health"@
    }
}

/// The health path under a URL path.
pub fn healthcheck_path(path: &str) -> (res: String)
    ensures
        res@ == health_path_spec(path@),
{
    let mut p = trim_end_char(path, '/');
    if p.as_str().unicode_len() == 0 {
        "/health".to_owned()
    } else {
        p.append("/health");
        p
    }
}

/// Where and what a health check sends.
pub struct HealthcheckTarget {
    pub host: String,
    pub port: u16,
    pub request: String,
}

/// The request line and headers of a health check.
pub open spec fn health_request(path: Seq<char>, host: Seq<char>) -> Seq<char> {
    "GET "@ + health_path_spec(path) + " HTTP/1.1\r\nHost: "@ + host
        + "\r\nConnection: close\r\n\r\n"@
}

/// The health check of a parsed URL: only plain `http` URLs with a host and a port
/// are probed.
pub open spec fn health_target_spec(p: (Seq<char>, Option<Seq<char>>, Option<u16>, Seq<char>)) -> Option<(Seq<char>, u16, Seq<char>)> {
    if p.0 == "http"@ && p.1 is Some && p.2 is Some {
        Some((p.1->0, p.2->0, health_request(p.3, p.1->0)))
    } else {
        None
    }
}

/// The view of a health check.
pub open spec fn target_view(t: Option<HealthcheckTarget>) -> Option<(Seq<char>, u16, Seq<char>)> {
    match t {
        Some(t) => Some((t.host@, t.port, t.request@)),
        None => None,
    }
}

/// The health check of parsed URL parts.
pub fn healthcheck_target_for(parts: &UrlParts) -> (res: Option<HealthcheckTarget>)
    ensures
        target_view(res) == health_target_spec(parts_view(*parts)),
{
    if !str_eq(parts.scheme.as_str(), "http") {
        return None;
    }
    let host = match &parts.host {
        Some(h) => h.clone(),
        None => return None,
    };
    let port = match parts.port {
        Some(p) => p,
        None => return None,
    };
    let mut request = "GET ".to_owned();
    request.append(healthcheck_path(parts.path.as_str()).as_str());
    request.append(" HTTP/1.1\r\nHost: ");
    request.append(host.as_str());
    request.append("\r\nConnection: close\r\n\r\n");
    Some(HealthcheckTarget { host, port, request })
}

/// The health check of a base URL; none when it does not parse or is not a plain
/// `http` URL with a host and port.
pub fn healthcheck_target(base_url: &str) -> (res: Option<HealthcheckTarget>)
    ensures
        target_view(res) == match parsed_url(base_url@) {
            Some(p) => health_target_spec(p),
            None => None,
        },
{
    match parse_url(base_url) {
        Some(p) => healthcheck_target_for(&p),
        None => None,
    }
}

/// The health path of a base URL, if it parses.
pub fn url_health_path(base_url: &str) -> (res: Option<String>)
    ensures
        crate::text::opt_string_view(res) == match parsed_url(base_url@) {
            Some(p) => Some(health_path_spec(p.3)),
            None => None,
        },
{
    match parse_url(base_url) {
        Some(p) => Some(healthcheck_path(p.path.as_str())),
        None => None,
    }
}

/// Whether a health check reply reports success.
pub open spec fn healthy_reply(response: Seq<char>) -> bool {
    has_prefix(response, "HTTP/1.1 200"@) || has_prefix(response, "HTTP/1.0 200"@)
}

/// Whether a health check reply reports success.
pub fn is_healthy_response(response: &str) -> (res: bool)
    ensures
        res == healthy_reply(response@),
{
    starts_with(response, "HTTP/1.1 200") || starts_with(response, "HTTP/1.0 200")
}

/// The refusal when the gateway did not come up in time.
pub fn gateway_not_ready_message(base_url: &str) -> (res: String)
    ensures
        res@ == "local gateway did not become ready at "@ + base_url@,
{
    let mut m = "local gateway did not become ready at ".to_owned();
    m.append(base_url);
    m
}

/// What starting a session needs of the gateway.
pub enum GatewayPlan {
    /// Nothing: the gateway is remote or already answering.
    Ready,
    /// Start a local gateway, then wait for it at this base URL.
    SpawnAndWait { base_url: String },
}

/// The step after the first health check: a local gateway that did not answer is
/// started; anything else is used as it is.
pub fn plan_gateway_start(base_url: String, healthy: bool) -> (res: GatewayPlan)
    ensures
        match parsed_url(base_url@) {
            Some(p) => if is_loopback(p.1) && !healthy {
                res matches GatewayPlan::SpawnAndWait { base_url: b } && b@ == base_url@
            } else {
                res is Ready
            },
            None => res is Ready,
        },
{
    if !is_local_loopback_gateway(base_url.as_str()) || healthy {
        GatewayPlan::Ready
    } else {
        GatewayPlan::SpawnAndWait { base_url }
    }
}

/// Where the gateway sends a request: the model it resolved to, that model's
/// provider and upstream model, and whether file blocks it cannot resolve may be
/// passed on as they are (only to the `anthropic` provider).
pub struct RequestRoute {
    pub profile_index: usize,
    pub provider: String,
    pub upstream_model: String,
    pub allow_unresolved_file_source: bool,
}

/// Why the gateway cannot send a request.
#[derive(Debug, PartialEq, Eq)]
pub enum RouteError {
    /// No model has the requested name or upstream model (a bad request).
    UnknownModel(String),
    /// The model's provider has no adapter (an internal error).
    AdapterMissing(String),
}

/// The message of a routing refusal.
pub open spec fn route_error_text(e: RouteError) -> Seq<char> {
    match e {
        RouteError::UnknownModel(m) => "unknown model profile: "@ + m@,
        RouteError::AdapterMissing(p) => "provider adapter not registered: "@ + p@,
    }
}

impl RouteError {
    /// The message of the refusal.
    pub fn message(&self) -> (res: String)
        ensures
            res@ == route_error_text(*self),
    {
        match self {
            RouteError::UnknownModel(m) => crate::text::concat2("unknown model profile: ", m.as_str()),
            RouteError::AdapterMissing(p) => crate::text::concat2("provider adapter not registered: ", p.as_str()),
        }
    }
}

/// Where the gateway sends a request for `model`, given the models it offers and
/// the providers it has adapters for.
pub fn route_request(profiles: &Vec<ModelProfile>, adapters: &Vec<String>, model: &str) -> (res: Result<
    RequestRoute,
    RouteError,
>)
    ensures
        match resolve_profile_spec(profiles@, model@) {
            None => res matches Err(RouteError::UnknownModel(m)) && m@ == model@,
            Some(i) => {
                let p = profiles@[i];
                if exists|k: int| 0 <= k < adapters@.len() && #[trigger] adapters@[k]@ == p.provider@ {
                    res matches Ok(r) && r.profile_index == i && r.provider@ == p.provider@
                        && r.upstream_model@ == p.upstream_model@ && r.allow_unresolved_file_source == (
                    p.provider@ == "anthropic"@)
                } else {
                    res matches Err(RouteError::AdapterMissing(n)) && n@ == p.provider@
                }
            },
        },
{
    let i = match resolve_profile(profiles, model) {
        Some(i) => i,
        None => return Err(RouteError::UnknownModel(model.to_string())),
    };
    proof {
        lemma_resolved_in_range(profiles@, model@);
    }
    let p = &profiles[i];
    let mut k: usize = 0;
    while k < adapters.len()
        invariant
            k <= adapters@.len(),
            i < profiles@.len(),
            resolve_profile_spec(profiles@, model@) == Some(i as int),
            *p == profiles@[i as int],
            forall|j: int| 0 <= j < k ==> adapters@[j]@ != p.provider@,
        decreases adapters@.len() - k,
    {
        if str_eq(adapters[k].as_str(), p.provider.as_str()) {
            assert(adapters@[k as int]@ == p.provider@);
            return Ok(RequestRoute {
                profile_index: i,
                provider: p.provider.clone(),
                upstream_model: p.upstream_model.clone(),
                allow_unresolved_file_source: str_eq(p.provider.as_str(), "anthropic"),
            });
        }
        k = k + 1;
    }
    Err(RouteError::AdapterMissing(p.provider.clone()))
}

proof fn lemma_first_named_in_range(profiles: Seq<ModelProfile>, model: Seq<char>, k: int)
    ensures
        first_named_model(profiles, model, k) matches Some(i) ==> 0 <= i < profiles.len(),
    decreases profiles.len() - k,
{
    if 0 <= k < profiles.len() && profiles[k].name@ != model {
        lemma_first_named_in_range(profiles, model, k + 1);
    }
}

proof fn lemma_first_upstream_in_range(profiles: Seq<ModelProfile>, model: Seq<char>, k: int)
    ensures
        first_upstream_model(profiles, model, k) matches Some(i) ==> 0 <= i < profiles.len(),
    decreases profiles.len() - k,
{
    if 0 <= k < profiles.len() && profiles[k].upstream_model@ != model {
        lemma_first_upstream_in_range(profiles, model, k + 1);
    }
}

proof fn lemma_resolved_in_range(profiles: Seq<ModelProfile>, model: Seq<char>)
    ensures
        resolve_profile_spec(profiles, model) matches Some(i) ==> 0 <= i < profiles.len(),
{
    lemma_first_named_in_range(profiles, model, 0);
    lemma_first_upstream_in_range(profiles, model, 0);
}

} // verus!
