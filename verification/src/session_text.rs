//! Texts shown around a session: the welcome banner, tool search results, request
//! failures and the session brief.

use vstd::prelude::*;

use crate::language::AppLanguage;
use crate::onboarding::ProviderReadiness;
use crate::text::{
    contains_str, decimal, has_substring, join, join_seq, lower_seq, push_decimal, to_ascii_lowercase,
    trim, trim_seq, views,
};

verus! {

/// The banner art below the welcome header.
pub open spec fn welcome_art() -> Seq<Seq<char>> {
    seq![
        "     *                                       █████▓▓░     "@,
        "                                 *         ███▓░     ░░   "@,
        "            ░░░░░░                        ███▓░           "@,
        "    ░░░   ░░░░░░░░░░                      ███▓░           "@,
        "   ░░░░░░░░░░░░░░░░░    *                ██▓░░      ▓   "@,
        "                                             ░▓▓███▓▓░    "@,
        " *                                 ░░░░                   "@,
        "                                 ░░░░░░░░                 "@,
        "                               ░░░░░░░░░░░░░░           "@,
        "      █████████                                       * "@,
        "      ██▄█████▄██                        *                "@,
        "      █████████      *                                   "@,
        "·······█ █   █ █······································"@,
    ]
}

/// The welcome header for a version.
pub open spec fn welcome_header(language: AppLanguage, version: Seq<char>) -> Seq<char> {
    match language {
        AppLanguage::English => "Welcome to hellox v"@ + version + " "@,
        AppLanguage::SimplifiedChinese => "欢迎使用 hellox v"@ + version + " "@,
    }
}

/// The welcome banner: the header, a dotted rule, an empty line, then the art.
pub fn welcome_v2_lines(language: AppLanguage, version: &str) -> (res: Vec<String>)
    ensures
        views(res@) == seq![
            welcome_header(language, version@),
            "······················································"@,
            Seq::<char>::empty(),
        ] + welcome_art(),
{
    let mut lines: Vec<String> = Vec::new();
    let mut header = match language {
        AppLanguage::English => "Welcome to hellox v".to_owned(),
        AppLanguage::SimplifiedChinese => "欢迎使用 hellox v".to_owned(),
    };
    header.append(version);
    header.append(" ");
    lines.push(header);
    lines.push("······················································".to_owned());
    lines.push(String::new());
    lines.push("     *                                       █████▓▓░     ".to_owned());
    lines.push("                                 *         ███▓░     ░░   ".to_owned());
    lines.push("            ░░░░░░                        ███▓░           ".to_owned());
    lines.push("    ░░░   ░░░░░░░░░░                      ███▓░           ".to_owned());
    lines.push("   ░░░░░░░░░░░░░░░░░    *                ██▓░░      ▓   ".to_owned());
    lines.push("                                             ░▓▓███▓▓░    ".to_owned());
    lines.push(" *                                 ░░░░                   ".to_owned());
    lines.push("                                 ░░░░░░░░                 ".to_owned());
    lines.push("                               ░░░░░░░░░░░░░░           ".to_owned());
    lines.push("      █████████                                       * ".to_owned());
    lines.push("      ██▄█████▄██                        *                ".to_owned());
    lines.push("      █████████      *                                   ".to_owned());
    lines.push("·······█ █   █ █······································".to_owned());
    assert(views(lines@) =~= seq![
        welcome_header(language, version@),
        "······················································"@,
        Seq::<char>::empty(),
    ] + welcome_art());
    lines
}

/// A tool as the search lists it.
pub struct ToolInfo {
    pub name: String,
    pub description: Option<String>,
}

/// Whether a tool's name or description contains the (lower-case) query, ASCII case
/// ignored.
pub open spec fn tool_matches(t: ToolInfo, query: Seq<char>) -> bool {
    has_substring(lower_seq(t.name@), query) || (t.description matches Some(d) && has_substring(
        lower_seq(d@),
        query,
    ))
}

/// The tools that match, in order, at most `limit` of them.
pub open spec fn matching_tools(tools: Seq<ToolInfo>, query: Seq<char>, limit: nat) -> Seq<ToolInfo>
    decreases tools.len(),
{
    if tools.len() == 0 {
        seq![]
    } else {
        let prev = matching_tools(tools.drop_last(), query, limit);
        if prev.len() < limit && tool_matches(tools.last(), query) {
            prev.push(tools.last())
        } else {
            prev
        }
    }
}

/// One line of the search result.
pub open spec fn tool_row(t: ToolInfo) -> Seq<char> {
    t.name@ + "\t"@ + match t.description {
        Some(d) => d@,
        None => Seq::<char>::empty(),
    }
}

/// The search result text.
pub open spec fn tool_search_text(query: Seq<char>, limit: nat, tools: Seq<ToolInfo>) -> Seq<char> {
    let q = lower_seq(trim_seq(query));
    if q.len() == 0 {
        "Tool search query cannot be empty."@
    } else {
        let m = matching_tools(tools, q, limit);
        if m.len() == 0 {
            "No local tools matched `"@ + query + "`."@
        } else {
            join_seq(
                seq!["query: "@ + query, "matches: "@ + decimal(m.len()), "name\tdescription"@]
                    + m.map_values(|t: ToolInfo| tool_row(t)),
                "\n"@,
            )
        }
    }
}

fn tool_matches_query(t: &ToolInfo, query: &str) -> (res: bool)
    ensures
        res == tool_matches(*t, query@),
{
    let name = to_ascii_lowercase(t.name.as_str());
    if contains_str(name.as_str(), query) {
        return true;
    }
    match &t.description {
        Some(d) => {
            let ld = to_ascii_lowercase(d.as_str());
            contains_str(ld.as_str(), query)
        },
        None => false,
    }
}

/// Searches the local tools by name and description (ASCII case ignored) and lists
/// at most `limit` matches.
pub fn render_tool_search(query: &str, limit: usize, tools: &Vec<ToolInfo>) -> (res: String)
    ensures
        res@ == tool_search_text(query@, limit as nat, tools@),
{
    let lowered = to_ascii_lowercase(trim(query).as_str());
    if lowered.as_str().unicode_len() == 0 {
        return "Tool search query cannot be empty.".to_owned();
    }
    let ghost q = lowered@;
    let mut rows: Vec<String> = Vec::new();
    let mut count: usize = 0;
    let mut i: usize = 0;
    while i < tools.len()
        invariant
            q == lowered@,
            i <= tools@.len(),
            count as nat == matching_tools(tools@.take(i as int), q, limit as nat).len(),
            count <= limit,
            views(rows@) == matching_tools(tools@.take(i as int), q, limit as nat).map_values(
                |t: ToolInfo| tool_row(t),
            ),
        decreases tools@.len() - i,
    {
        let ghost prev = tools@.take(i as int);
        assert(tools@.take(i + 1).drop_last() =~= prev);
        assert(tools@.take(i + 1).last() == tools@[i as int]);
        if count < limit && tool_matches_query(&tools[i], lowered.as_str()) {
            let mut row = tools[i].name.clone();
            row.append("\t");
            match &tools[i].description {
                Some(d) => row.append(d.as_str()),
                None => {},
            }
            let ghost before = rows@;
            rows.push(row);
            assert(views(rows@) =~= views(before).push(tool_row(tools@[i as int])));
            assert(matching_tools(tools@.take(i + 1), q, limit as nat) == matching_tools(
                prev,
                q,
                limit as nat,
            ).push(tools@[i as int]));
            assert(matching_tools(tools@.take(i + 1), q, limit as nat).map_values(
                |t: ToolInfo| tool_row(t),
            ) =~= matching_tools(prev, q, limit as nat).map_values(|t: ToolInfo| tool_row(t)).push(
                tool_row(tools@[i as int]),
            ));
            count = count + 1;
        }
        i = i + 1;
    }
    assert(tools@.take(i as int) =~= tools@);
    if count == 0 {
        let mut m = "No local tools matched `".to_owned();
        m.append(query);
        m.append("`.");
        return m;
    }
    let mut lines: Vec<String> = Vec::new();
    let mut first = "query: ".to_owned();
    first.append(query);
    lines.push(first);
    let mut second = "matches: ".to_owned();
    push_decimal(&mut second, count as u64);
    lines.push(second);
    lines.push("name\tdescription".to_owned());
    let ghost head = views(lines@);
    assert(head =~= seq![
        "query: "@ + query@,
        "matches: "@ + decimal(count as nat),
        "name\tdescription"@,
    ]);
    let mut k: usize = 0;
    while k < rows.len()
        invariant
            k <= rows@.len(),
            views(lines@) == head + views(rows@).take(k as int),
        decreases rows@.len() - k,
    {
        let ghost before = lines@;
        let row = rows[k].clone();
        lines.push(row);
        assert(views(lines@) =~= views(before).push(rows@[k as int]@));
        assert(views(rows@).take(k + 1) =~= views(rows@).take(k as int).push(rows@[k as int]@));
        assert(views(lines@) =~= head + views(rows@).take(k + 1));
        k = k + 1;
    }
    assert(views(rows@).take(k as int) =~= views(rows@));
    join(&lines, "\n")
}

/// The message for a failed prompt submission, by what the error says.
pub open spec fn submission_error_text(
    language: AppLanguage,
    error: Seq<char>,
    readiness: Option<(Seq<char>, Seq<char>)>,
) -> Seq<char> {
    let lower = lower_seq(error);
    if has_substring(lower, "missing api key"@) {
        match (language, readiness) {
            (AppLanguage::English, Some((name, kind))) => "The current provider `"@ + name + "` ("@
                + kind
                + ") is missing an API key.\nRun `hellox` for onboarding, or use `hellox auth set-key "@
                + name + "` and try again."@,
            (AppLanguage::SimplifiedChinese, Some((name, kind))) => "当前 provider `"@ + name
                + "`（"@ + kind + "）缺少 API Key。\n请先运行 `hellox` 完成引导，或执行 `hellox auth set-key "@
                + name + "` 后重试。"@,
            (AppLanguage::English, None) => "An API key is missing for the current model provider."@,
            (AppLanguage::SimplifiedChinese, None) => "当前模型对应的 provider 缺少 API Key。"@,
        }
    } else if has_substring(lower, "failed to send request to hellox gateway"@) || has_substring(
        lower,
        "hellox gateway returned an error status"@,
    ) {
        match language {
            AppLanguage::English => "The local hellox gateway request failed.\nRun `/doctor` to inspect provider and gateway status.\nOriginal error: "@
                + error,
            AppLanguage::SimplifiedChinese => "本地 hellox gateway 请求失败。\n请先运行 `/doctor` 检查 provider 与 gateway 状态。\n原始错误："@
                + error,
        }
    } else {
        match language {
            AppLanguage::English => "Request failed.\n"@ + error,
            AppLanguage::SimplifiedChinese => "请求失败。\n"@ + error,
        }
    }
}

/// The view of a readiness: provider name and kind.
pub open spec fn readiness_view(r: Option<&ProviderReadiness>) -> Option<(Seq<char>, Seq<char>)> {
    match r {
        Some(x) => Some((x.provider_name@, x.provider_kind@)),
        None => None,
    }
}

/// The message for a failed prompt submission: a missing key names the provider and
/// how to set one, a gateway failure points at `/doctor`, anything else is passed
/// on.
pub fn format_prompt_submission_error(
    language: AppLanguage,
    error_text: &str,
    readiness: Option<&ProviderReadiness>,
) -> (res: String)
    ensures
        res@ == submission_error_text(language, error_text@, readiness_view(readiness)),
{
    let lower = to_ascii_lowercase(error_text);
    if contains_str(lower.as_str(), "missing api key") {
        let mut m = String::new();
        match (language, readiness) {
            (AppLanguage::English, Some(r)) => {
                m.append("The current provider `");
                m.append(r.provider_name.as_str());
                m.append("` (");
                m.append(r.provider_kind);
                m.append(") is missing an API key.\nRun `hellox` for onboarding, or use `hellox auth set-key ");
                m.append(r.provider_name.as_str());
                m.append("` and try again.");
            },
            (AppLanguage::SimplifiedChinese, Some(r)) => {
                m.append("当前 provider `");
                m.append(r.provider_name.as_str());
                m.append("`（");
                m.append(r.provider_kind);
                m.append("）缺少 API Key。\n请先运行 `hellox` 完成引导，或执行 `hellox auth set-key ");
                m.append(r.provider_name.as_str());
                m.append("` 后重试。");
            },
            (AppLanguage::English, None) => {
                m.append("An API key is missing for the current model provider.");
            },
            (AppLanguage::SimplifiedChinese, None) => {
                m.append("当前模型对应的 provider 缺少 API Key。");
            },
        }
        return m;
    }
    if contains_str(lower.as_str(), "failed to send request to hellox gateway") || contains_str(
        lower.as_str(),
        "hellox gateway returned an error status",
    ) {
        let mut m = match language {
            AppLanguage::English => "The local hellox gateway request failed.\nRun `/doctor` to inspect provider and gateway status.\nOriginal error: ".to_owned(),
            AppLanguage::SimplifiedChinese => "本地 hellox gateway 请求失败。\n请先运行 `/doctor` 检查 provider 与 gateway 状态。\n原始错误：".to_owned(),
        };
        m.append(error_text);
        return m;
    }
    let mut m = match language {
        AppLanguage::English => "Request failed.\n".to_owned(),
        AppLanguage::SimplifiedChinese => "请求失败。\n".to_owned(),
    };
    m.append(error_text);
    m
}

} // verus!
