//! The workspace brief: a message with attachments and a status, kept in
//! `.hellox/brief.json`, and how it is shown.

use vstd::prelude::*;

use crate::paths::{join_path, path_join};
use crate::tasks::{normalize_optional_spec, normalize_optional_text};
use crate::text::{decimal, join, join_seq, opt_string_view, push_decimal, trim, trim_seq, views};
use crate::workflow_render::{path_text, path_text_spec};

verus! {

/// A file attached to the brief, with an optional label.
#[derive(Debug)]
pub struct BriefAttachment {
    pub path: String,
    pub label: Option<String>,
}

/// The brief of a workspace.
#[derive(Debug)]
pub struct BriefRecord {
    pub message: String,
    pub attachments: Vec<BriefAttachment>,
    pub status: Option<String>,
    pub updated_at: u64,
}

/// Where a workspace keeps its brief, as shown.
pub open spec fn brief_path_text(root: Seq<char>) -> Seq<char> {
    path_text_spec(path_join(path_join(root, ".hellox"@), "brief.json"@))
}

/// Where a workspace keeps its brief.
pub fn brief_file_path(root: &str) -> (res: String)
    ensures
        res@ == path_join(path_join(root@, ".hellox"@), "brief.json"@),
{
    join_path(join_path(root, ".hellox").as_str(), "brief.json")
}

/// The line of one attachment: its path, and its label in brackets when it has one.
pub open spec fn attachment_line(a: BriefAttachment) -> Seq<char> {
    "- "@ + a.path@ + match a.label {
        Some(l) => " ("@ + l@ + ")"@,
        None => seq![],
    }
}

/// The lines of the attachments.
pub open spec fn attachment_lines(list: Seq<BriefAttachment>) -> Seq<Seq<char>> {
    if list.len() == 0 {
        seq!["attachments: (none)"@]
    } else {
        seq!["attachments:"@] + list.map_values(|a: BriefAttachment| attachment_line(a))
    }
}

/// A brief as shown.
pub open spec fn brief_text(root: Seq<char>, r: BriefRecord) -> Seq<char> {
    join_seq(
        seq![
            "brief_path: "@ + brief_path_text(root),
            "message: "@ + r.message@,
            "status: "@ + match r.status {
                Some(s) => s@,
                None => "(none)"@,
            },
            "updated_at: "@ + decimal(r.updated_at as nat),
        ] + attachment_lines(r.attachments@),
        "\n"@,
    )
}

fn push_line(lines: &mut Vec<String>, line: String)
    ensures
        views(final(lines)@) == views(old(lines)@).push(line@),
{
    lines.push(line);
    assert(views(lines@) =~= views(old(lines)@).push(line@));
}

fn attachment_line_text(a: &BriefAttachment) -> (res: String)
    ensures
        res@ == attachment_line(*a),
{
    let mut l = "- ".to_string();
    l.append(a.path.as_str());
    match &a.label {
        Some(label) => {
            l.append(" (");
            l.append(label.as_str());
            l.append(")");
        },
        None => {},
    }
    l
}

/// Shows a workspace's brief.
pub fn format_brief(root: &str, record: &BriefRecord) -> (res: String)
    ensures
        res@ == brief_text(root@, *record),
{
    let mut lines: Vec<String> = Vec::new();
    let mut l = "brief_path: ".to_string();
    l.append(path_text(brief_file_path(root).as_str()).as_str());
    push_line(&mut lines, l);
    let mut l = "message: ".to_string();
    l.append(record.message.as_str());
    push_line(&mut lines, l);
    let mut l = "status: ".to_string();
    match &record.status {
        Some(s) => l.append(s.as_str()),
        None => l.append("(none)"),
    }
    push_line(&mut lines, l);
    let mut l = "updated_at: ".to_string();
    push_decimal(&mut l, record.updated_at);
    push_line(&mut lines, l);
    let ghost head = views(lines@);
    if record.attachments.len() == 0 {
        push_line(&mut lines, "attachments: (none)".to_string());
    } else {
        push_line(&mut lines, "attachments:".to_string());
        let ghost head2 = views(lines@);
        let mut i: usize = 0;
        while i < record.attachments.len()
            invariant
                i <= record.attachments@.len(),
                views(lines@) == head2 + record.attachments@.take(i as int).map_values(
                    |a: BriefAttachment| attachment_line(a),
                ),
            decreases record.attachments@.len() - i,
        {
            push_line(&mut lines, attachment_line_text(&record.attachments[i]));
            assert(record.attachments@.take(i + 1).map_values(|a: BriefAttachment| attachment_line(a))
                =~= record.attachments@.take(i as int).map_values(
                |a: BriefAttachment| attachment_line(a),
            ).push(attachment_line(record.attachments@[i as int])));
            i = i + 1;
        }
        assert(record.attachments@.take(i as int) =~= record.attachments@);
    }
    assert(views(lines@) =~= seq![
        "brief_path: "@ + brief_path_text(root@),
        "message: "@ + record.message@,
        "status: "@ + match record.status {
            Some(s) => s@,
            None => "(none)"@,
        },
        "updated_at: "@ + decimal(record.updated_at as nat),
    ] + attachment_lines(record.attachments@));
    join(&lines, "\n")
}

/// The message for an attachment path that is blank.
pub open spec fn blank_attachment_message() -> Seq<char> {
    "brief attachment paths cannot be empty"@
}

/// An attachment path as typed, trimmed; refused when blank.
pub fn attachment_path_input(raw: &str) -> (res: Result<String, String>)
    ensures
        trim_seq(raw@).len() > 0 ==> (res matches Ok(p) && p@ == trim_seq(raw@)),
        trim_seq(raw@).len() == 0 ==> (res matches Err(m) && m@ == blank_attachment_message()),
{
    let t = trim(raw);
    if t.unicode_len() > 0 {
        Ok(t)
    } else {
        Err("brief attachment paths cannot be empty".to_string())
    }
}

/// A new brief: the message, the attachments (as given, unlabelled), the status
/// trimmed (absent when blank), and the time it was set.
pub fn new_brief(message: String, attachment_paths: Vec<String>, status: Option<String>, updated_at: u64) -> (res:
    BriefRecord)
    ensures
        res.message == message,
        res.attachments@.len() == attachment_paths@.len(),
        forall|i: int|
            0 <= i < attachment_paths@.len() ==> (#[trigger] res.attachments@[i]).path
                == attachment_paths@[i] && res.attachments@[i].label is None,
        opt_string_view(res.status) == normalize_optional_spec(opt_string_view(status)),
        res.updated_at == updated_at,
{
    let ghost all = attachment_paths@;
    let mut rest = attachment_paths;
    let mut attachments: Vec<BriefAttachment> = Vec::new();
    let n = rest.len();
    let mut i: usize = 0;
    while i < n
        invariant
            n == all.len(),
            i <= n,
            rest@ == all.subrange(i as int, n as int),
            attachments@.len() == i,
            forall|k: int|
                0 <= k < i ==> (#[trigger] attachments@[k]).path == all[k] && attachments@[k].label is None,
        decreases n - i,
    {
        let path = rest.remove(0);
        attachments.push(BriefAttachment { path, label: None });
        assert(rest@ =~= all.subrange(i + 1, n as int));
        i = i + 1;
    }
    BriefRecord { message, attachments, status: normalize_optional_text(status), updated_at }
}

/// The message when a workspace has no brief.
pub open spec fn missing_brief_message(root: Seq<char>) -> Seq<char> {
    "No brief file found at `"@ + brief_path_text(root) + "`."@
}

/// The message when a workspace has no brief.
pub fn missing_brief_text(root: &str) -> (res: String)
    ensures
        res@ == missing_brief_message(root@),
{
    let mut m = "No brief file found at `".to_string();
    m.append(path_text(brief_file_path(root).as_str()).as_str());
    m.append("`.");
    m
}

/// The message after a brief was removed.
pub open spec fn removed_brief_message(root: Seq<char>) -> Seq<char> {
    "Removed brief file `"@ + brief_path_text(root) + "`."@
}

/// The message after a brief was removed.
pub fn removed_brief_text(root: &str) -> (res: String)
    ensures
        res@ == removed_brief_message(root@),
{
    let mut m = "Removed brief file `".to_string();
    m.append(path_text(brief_file_path(root).as_str()).as_str());
    m.append("`.");
    m
}

} // verus!
