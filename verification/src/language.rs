//! Interface language selection and yes/no input recognition.

use vstd::prelude::*;

use crate::text::{has_prefix, opt_view, lower_seq, starts_with, str_eq, trim_lower, trim_seq};

verus! {

/// The interface languages the assistant speaks.
#[derive(Clone, Copy, Debug, PartialEq, Eq, Structural)]
pub enum AppLanguage {
    English,
    SimplifiedChinese,
}

impl Default for AppLanguage {
    fn default() -> (res: Self)
        ensures
            res == AppLanguage::English,
    {
        AppLanguage::English
    }
}

/// Normal form of typed input: trimmed and lower-cased.
pub open spec fn normalized_input(value: Seq<char>) -> Seq<char> {
    lower_seq(trim_seq(value))
}

/// Whether `value` reads as "yes" in `language`.
pub open spec fn accepts_spec(language: AppLanguage, value: Seq<char>) -> bool {
    let n = normalized_input(value);
    n == "1"@ || n == "y"@ || n == "yes"@ || (language == AppLanguage::SimplifiedChinese && n
        == "是"@)
}

/// Whether `value` reads as "no" in `language`.
pub open spec fn rejects_spec(language: AppLanguage, value: Seq<char>) -> bool {
    let n = normalized_input(value);
    n == "2"@ || n == "n"@ || n == "no"@ || (language == AppLanguage::SimplifiedChinese && n
        == "否"@)
}

/// The language a tag such as `zh-CN` or `en_US` names, if any.
pub open spec fn parse_language_spec(raw: Seq<char>) -> Option<AppLanguage> {
    let n = normalized_input(raw);
    if has_prefix(n, "zh"@) {
        Some(AppLanguage::SimplifiedChinese)
    } else if has_prefix(n, "en"@) {
        Some(AppLanguage::English)
    } else {
        None
    }
}

/// The language chosen from an explicit setting and a detected system locale:
/// the setting wins when it names a language, then the locale, then English.
pub open spec fn resolve_language_spec(
    configured: Option<Seq<char>>,
    detected: Option<Seq<char>>,
) -> AppLanguage {
    let from_config = match configured {
        Some(c) => parse_language_spec(c),
        None => None,
    };
    let from_locale = match detected {
        Some(d) => parse_language_spec(d),
        None => None,
    };
    match from_config {
        Some(l) => l,
        None => match from_locale {
            Some(l) => l,
            None => AppLanguage::English,
        },
    }
}

impl AppLanguage {
    /// BCP 47 tag of the language.
    pub fn locale_tag(self) -> (res: &'static str)
        ensures
            res@ == (match self {
                AppLanguage::English => "en"@,
                AppLanguage::SimplifiedChinese => "zh-CN"@,
            }),
    {
        match self {
            AppLanguage::English => "en",
            AppLanguage::SimplifiedChinese => "zh-CN",
        }
    }

    /// Whether typed `value` confirms ("1", "y", "yes"; also "是" in Chinese).
    pub fn accepts_input(self, value: &str) -> (res: bool)
        ensures
            res == accepts_spec(self, value@),
    {
        let n = trim_lower(value);
        let s = n.as_str();
        let base = str_eq(s, "1") || str_eq(s, "y") || str_eq(s, "yes");
        match self {
            AppLanguage::English => base,
            AppLanguage::SimplifiedChinese => base || str_eq(s, "是"),
        }
    }

    /// Whether typed `value` declines ("2", "n", "no"; also "否" in Chinese).
    pub fn rejects_input(self, value: &str) -> (res: bool)
        ensures
            res == rejects_spec(self, value@),
    {
        let n = trim_lower(value);
        let s = n.as_str();
        let base = str_eq(s, "2") || str_eq(s, "n") || str_eq(s, "no");
        match self {
            AppLanguage::English => base,
            AppLanguage::SimplifiedChinese => base || str_eq(s, "否"),
        }
    }
}

/// The language a locale tag names: `zh…` is Chinese, `en…` is English.
pub fn parse_language(raw: &str) -> (res: Option<AppLanguage>)
    ensures
        res == parse_language_spec(raw@),
{
    let n = trim_lower(raw);
    if starts_with(n.as_str(), "zh") {
        Some(AppLanguage::SimplifiedChinese)
    } else if starts_with(n.as_str(), "en") {
        Some(AppLanguage::English)
    } else {
        None
    }
}

/// The language from an explicit setting and a detected locale.
pub fn resolve_language_from(configured: Option<&str>, detected: Option<&str>) -> (res:
    AppLanguage)
    ensures
        res == resolve_language_spec(opt_view(configured), opt_view(detected)),
{
    let from_config = match configured {
        Some(c) => parse_language(c),
        None => None,
    };
    match from_config {
        Some(l) => l,
        None => {
            let from_locale = match detected {
                Some(d) => parse_language(d),
                None => None,
            };
            match from_locale {
                Some(l) => l,
                None => AppLanguage::English,
            }
        },
    }
}

/// The system's preferred locale (`sys_locale::get_locale`).
///
/// Trusted: the call reads the environment, so nothing is promised of its result.
#[verifier::external_body]
fn system_locale() -> (res: Option<String>) {
    sys_locale::get_locale()
}

/// The interface language for an explicit setting: the setting when it names a
/// language, else the system locale, else English.
pub fn resolve_app_language(configured: Option<&str>) -> (res: AppLanguage)
    ensures
        exists|detected: Option<Seq<char>>|
            res == #[trigger] resolve_language_spec(opt_view(configured), detected),
{
    let locale = system_locale();
    let detected = match &locale {
        Some(l) => Some(l.as_str()),
        None => None,
    };
    let res = resolve_language_from(configured, detected);
    assert(res == resolve_language_spec(opt_view(configured), opt_view(detected)));
    res
}

} // verus!
