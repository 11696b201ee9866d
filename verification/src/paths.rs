//! File locations: the configuration root under the home directory and the files
//! and directories kept below it.

use vstd::prelude::*;

verus! {

/// `base` with `part` appended as `PathBuf::push` does on Unix: an absolute `part`
/// replaces `base`; otherwise a `/` is put between them unless `base` is empty or
/// already ends with one.
pub open spec fn path_join(base: Seq<char>, part: Seq<char>) -> Seq<char> {
    if part.len() > 0 && part[0] == '/' {
        part
    } else if base.len() == 0 || base.last() == '/' {
        base + part
    } else {
        base + "/"@ + part
    }
}

/// Joins `part` onto `base`.
pub fn join_path(base: &str, part: &str) -> (res: String)
    ensures
        res@ == path_join(base@, part@),
{
    proof {
        reveal_strlit("/");
    }
    let part_chars = crate::text::chars_of(part);
    if part_chars.len() > 0 && part_chars[0] == '/' {
        return part.to_owned();
    }
    let base_chars = crate::text::chars_of(base);
    let mut res = base.to_owned();
    if base_chars.len() > 0 && base_chars[base_chars.len() - 1] != '/' {
        res.append("/");
    }
    res.append(part);
    res
}

/// The home directory as text, if the platform reports one. Calls `dirs::home_dir`;
/// what it returns depends on the environment, so nothing is stated of it.
#[verifier::external_body]
fn home_dir_text() -> (res: Option<String>) {
    dirs::home_dir().map(|p| p.to_string_lossy().into_owned())
}

/// What `Path::parent` gives for a path (in text form), under the path rules of the
/// build target (on Unix, `/` separates components).
pub uninterp spec fn path_parent(path: Seq<char>) -> Option<Seq<char>>;

/// The parent of a path. Calls `std::path::Path::parent`, a function of the path
/// alone for a given build target; its result is named, not spelled out.
#[verifier::external_body]
fn parent_text(path: &str) -> (res: Option<String>)
    ensures
        crate::text::opt_string_view(res) == path_parent(path@),
{
    std::path::Path::new(path).parent().map(|p| p.to_string_lossy().into_owned())
}

/// The configuration root for a home directory (`.` when there is none).
pub open spec fn config_root_spec(home: Option<Seq<char>>) -> Seq<char> {
    path_join(
        match home {
            Some(h) => h,
            None => "."@,
        },
        ".hellox"@,
    )
}

/// The configuration root for a given home directory.
pub fn config_root_for_home(home: Option<String>) -> (res: String)
    ensures
        res@ == config_root_spec(crate::text::opt_string_view(home)),
{
    match home {
        Some(h) => join_path(h.as_str(), ".hellox"),
        None => join_path(".", ".hellox"),
    }
}

/// Whether `root` is the configuration root for some home directory.
pub open spec fn is_config_root(root: Seq<char>) -> bool {
    exists|home: Option<Seq<char>>| root == config_root_spec(home)
}

/// `.hellox` under the user's home directory.
pub fn config_root() -> (res: String)
    ensures
        is_config_root(res@),
{
    let home = home_dir_text();
    let res = config_root_for_home(home);
    assert(res@ == config_root_spec(crate::text::opt_string_view(home)));
    res
}

/// The default configuration file.
pub fn default_config_path() -> (res: String)
    ensures
        exists|root: Seq<char>| is_config_root(root) && res@ == path_join(root, "config.toml"@),
{
    join_path(config_root().as_str(), "config.toml")
}

/// Where sessions are stored.
pub fn sessions_root() -> (res: String)
    ensures
        exists|root: Seq<char>| is_config_root(root) && res@ == path_join(root, "sessions"@),
{
    join_path(config_root().as_str(), "sessions")
}

/// Where shared transcripts are written.
pub fn shares_root() -> (res: String)
    ensures
        exists|root: Seq<char>| is_config_root(root) && res@ == path_join(root, "shares"@),
{
    join_path(config_root().as_str(), "shares")
}

/// Where logs are written.
pub fn logs_root() -> (res: String)
    ensures
        exists|root: Seq<char>| is_config_root(root) && res@ == path_join(root, "logs"@),
{
    join_path(config_root().as_str(), "logs")
}

/// Where background tasks are kept.
pub fn tasks_root() -> (res: String)
    ensures
        exists|root: Seq<char>| is_config_root(root) && res@ == path_join(root, "tasks"@),
{
    join_path(config_root().as_str(), "tasks")
}

/// The tasks directory beside a configuration file.
pub open spec fn tasks_root_for_spec(config_path: Seq<char>) -> Seq<char> {
    path_join(
        match path_parent(config_path) {
            Some(p) => p,
            None => "."@,
        },
        "tasks"@,
    )
}

/// The tasks directory beside a configuration file (`./tasks` when it has no parent).
pub fn tasks_root_for(config_path: &str) -> (res: String)
    ensures
        res@ == tasks_root_for_spec(config_path@),
{
    match parent_text(config_path) {
        Some(p) => join_path(p.as_str(), "tasks"),
        None => join_path(".", "tasks"),
    }
}

/// The scheduled task file.
pub fn scheduled_tasks_path() -> (res: String)
    ensures
        exists|root: Seq<char>|
            is_config_root(root) && res@ == path_join(
                path_join(root, "tasks"@),
                "scheduled_tasks.json"@,
            ),
{
    join_path(tasks_root().as_str(), "scheduled_tasks.json")
}

/// The scheduled task file beside a configuration file.
pub fn scheduled_tasks_path_for(config_path: &str) -> (res: String)
    ensures
        res@ == path_join(tasks_root_for_spec(config_path@), "scheduled_tasks.json"@),
{
    join_path(tasks_root_for(config_path).as_str(), "scheduled_tasks.json")
}

/// Where plugins are installed.
pub fn plugins_root() -> (res: String)
    ensures
        exists|root: Seq<char>| is_config_root(root) && res@ == path_join(root, "plugins"@),
{
    join_path(config_root().as_str(), "plugins")
}

/// Where user-defined output style files live.
pub fn output_styles_root() -> (res: String)
    ensures
        exists|root: Seq<char>| is_config_root(root) && res@ == path_join(root, "output-styles"@),
{
    join_path(config_root().as_str(), "output-styles")
}

/// Where personas live.
pub fn personas_root() -> (res: String)
    ensures
        exists|root: Seq<char>| is_config_root(root) && res@ == path_join(root, "personas"@),
{
    join_path(config_root().as_str(), "personas")
}

/// Where prompt fragments live.
pub fn prompt_fragments_root() -> (res: String)
    ensures
        exists|root: Seq<char>|
            is_config_root(root) && res@ == path_join(root, "prompt-fragments"@),
{
    join_path(config_root().as_str(), "prompt-fragments")
}

/// Where memory files are kept.
pub fn memory_root() -> (res: String)
    ensures
        exists|root: Seq<char>| is_config_root(root) && res@ == path_join(root, "memory"@),
{
    join_path(config_root().as_str(), "memory")
}

/// The telemetry event log.
pub fn telemetry_events_path() -> (res: String)
    ensures
        exists|root: Seq<char>|
            is_config_root(root) && res@ == path_join(
                path_join(root, "logs"@),
                "telemetry-events.jsonl"@,
            ),
{
    join_path(logs_root().as_str(), "telemetry-events.jsonl")
}

/// The file of one session.
pub fn session_file_path(session_id: &str) -> (res: String)
    ensures
        exists|root: Seq<char>|
            is_config_root(root) && res@ == path_join(
                path_join(root, "sessions"@),
                session_id@ + ".json"@,
            ),
{
    let mut name = session_id.to_owned();
    name.append(".json");
    join_path(sessions_root().as_str(), name.as_str())
}

#[verifier::external_type_specification]
#[verifier::external_body]
pub struct ExSystemTime(std::time::SystemTime);

#[verifier::external_type_specification]
#[verifier::external_body]
pub struct ExSystemTimeError(std::time::SystemTimeError);

/// The current time. Calls `std::time::SystemTime::now`; the time is not stated.
#[verifier::external_body]
fn system_now() -> (res: std::time::SystemTime) {
    std::time::SystemTime::now()
}

/// The time elapsed since the Unix epoch, or an error when `t` is before it. Calls
/// `SystemTime::duration_since` with `UNIX_EPOCH`; nothing is stated of a time.
#[verifier::external_body]
fn since_unix_epoch(t: &std::time::SystemTime) -> (res: Result<std::time::Duration, std::time::SystemTimeError>) {
    t.duration_since(std::time::UNIX_EPOCH)
}

/// Whole seconds of a duration, as `Duration::as_secs` gives them.
pub uninterp spec fn duration_as_secs(d: std::time::Duration) -> u64;

/// Whole seconds of a duration. Calls `Duration::as_secs`, a function of the
/// duration alone; its value is named, not spelled out.
#[verifier::external_body]
fn duration_secs(d: &std::time::Duration) -> (res: u64)
    ensures
        res == duration_as_secs(*d),
{
    d.as_secs()
}

/// Seconds since the Unix epoch now (0 when the clock is before it).
pub fn unix_timestamp() -> (res: u64) {
    match since_unix_epoch(&system_now()) {
        Ok(elapsed) => duration_secs(&elapsed),
        Err(_) => 0,
    }
}

/// The file name of a shared transcript: the session id (or `current-session`), a
/// hyphen, the timestamp and `.md`.
pub open spec fn share_file_name(session_id: Option<Seq<char>>, timestamp: u64) -> Seq<char> {
    let stem = match session_id {
        Some(s) => s,
        None => "current-session"@,
    };
    stem + "-"@ + crate::text::decimal(timestamp as nat) + ".md"@
}

/// Where a transcript shared at `timestamp` goes under `root`.
pub fn share_path_at(root: &str, session_id: Option<&str>, timestamp: u64) -> (res: String)
    ensures
        res@ == path_join(root@, share_file_name(crate::text::opt_view(session_id), timestamp)),
{
    let mut name = match session_id {
        Some(s) => s.to_owned(),
        None => "current-session".to_owned(),
    };
    name.append("-");
    crate::text::push_decimal(&mut name, timestamp);
    name.append(".md");
    join_path(root, name.as_str())
}

/// Where a transcript shared now goes under `root`.
pub fn default_share_path(root: &str, session_id: Option<&str>) -> (res: String)
    ensures
        exists|t: u64|
            res@ == path_join(root@, share_file_name(crate::text::opt_view(session_id), t)),
{
    share_path_at(root, session_id, unix_timestamp())
}

} // verus!
