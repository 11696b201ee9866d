//! Text of the workspace trust dialog and the typed answers it accepts.

use vstd::prelude::*;

use crate::language::{accepts_spec, rejects_spec, AppLanguage};
use crate::text::{
    eq_ignore_ascii_case, lower_seq, push_char, str_eq, trim, trim_seq, views,
};
use crate::wrap::{wrap_spec, wrap_text};

verus! {

/// Indentation of every line inside the dialog border.
pub const CONTENT_INDENT: &'static str = "  ";

/// Width of the dialog border, corners included.
pub const DIALOG_WIDTH: usize = 78;

/// The two answers to the trust question.
#[derive(Clone, Copy, Debug, PartialEq, Eq, Structural)]
pub enum TrustChoice {
    Trust,
    Exit,
}

/// How a granted trust is kept.
#[derive(Clone, Copy, Debug, PartialEq, Eq, Structural)]
pub enum TrustMode {
    RememberWorkspace,
    SessionOnly,
}

/// The highlighted option of the interactive dialog.
#[derive(Clone, Copy, Debug, PartialEq, Eq, Structural)]
pub enum TrustSelection {
    Trust,
    Exit,
}

/// The other of the two options.
pub open spec fn other_selection(s: TrustSelection) -> TrustSelection {
    match s {
        TrustSelection::Trust => TrustSelection::Exit,
        TrustSelection::Exit => TrustSelection::Trust,
    }
}

/// The answer an option stands for.
pub open spec fn selection_choice(s: TrustSelection) -> TrustChoice {
    match s {
        TrustSelection::Trust => TrustChoice::Trust,
        TrustSelection::Exit => TrustChoice::Exit,
    }
}

impl TrustSelection {
    /// The option above this one (the list wraps around).
    pub fn previous(self) -> (res: Self)
        ensures
            res == other_selection(self),
    {
        match self {
            TrustSelection::Trust => TrustSelection::Exit,
            TrustSelection::Exit => TrustSelection::Trust,
        }
    }

    /// The option below this one (the list wraps around).
    pub fn next(self) -> (res: Self)
        ensures
            res == other_selection(self),
    {
        match self {
            TrustSelection::Trust => TrustSelection::Exit,
            TrustSelection::Exit => TrustSelection::Trust,
        }
    }

    /// The answer this option stands for.
    pub fn choice(self) -> (res: TrustChoice)
        ensures
            res == selection_choice(self),
    {
        match self {
            TrustSelection::Trust => TrustChoice::Trust,
            TrustSelection::Exit => TrustChoice::Exit,
        }
    }
}

/// The answer typed input gives: empty or a "yes" trusts; a "no", ESC, `esc` or
/// `exit` (any case) exits; anything else is not an answer.
pub open spec fn trust_choice_spec(language: AppLanguage, input: Seq<char>) -> Option<TrustChoice> {
    let t = trim_seq(input);
    if t.len() == 0 || accepts_spec(language, t) {
        Some(TrustChoice::Trust)
    } else if rejects_spec(language, t) || t == "\u{1b}"@ || lower_seq(t) == lower_seq("esc"@)
        || lower_seq(t) == lower_seq("exit"@) {
        Some(TrustChoice::Exit)
    } else {
        None
    }
}

impl TrustChoice {
    /// Reads a typed answer to the trust question.
    pub fn from_input(language: AppLanguage, input: &str) -> (res: Option<Self>)
        ensures
            res == trust_choice_spec(language, input@),
    {
        let trimmed = trim(input);
        let t = trimmed.as_str();
        if t.unicode_len() == 0 || language.accepts_input(t) {
            return Some(TrustChoice::Trust);
        }
        if language.rejects_input(t) || str_eq(t, "\u{1b}") || eq_ignore_ascii_case(t, "esc")
            || eq_ignore_ascii_case(t, "exit") {
            return Some(TrustChoice::Exit);
        }
        None
    }
}

/// Message shown when typed input is not an answer.
pub open spec fn invalid_choice_spec(language: AppLanguage) -> Seq<char> {
    match language {
        AppLanguage::English => "Enter 1 to trust this folder, or type 2 / esc to cancel."@,
        AppLanguage::SimplifiedChinese => "输入 1 信任此目录，或输入 2 / esc 取消。"@,
    }
}

/// Message shown when typed input is not an answer.
pub fn invalid_choice_text(language: AppLanguage) -> (res: &'static str)
    ensures
        res@ == invalid_choice_spec(language),
{
    match language {
        AppLanguage::English => "Enter 1 to trust this folder, or type 2 / esc to cancel.",
        AppLanguage::SimplifiedChinese => "输入 1 信任此目录，或输入 2 / esc 取消。",
    }
}

/// Prompt of the typed fallback.
pub open spec fn prompt_label_spec(language: AppLanguage) -> Seq<char> {
    match language {
        AppLanguage::English => "Select 1 or 2, then press Enter: "@,
        AppLanguage::SimplifiedChinese => "请输入 1 或 2，然后按 Enter："@,
    }
}

/// Prompt of the typed fallback.
pub fn prompt_label(language: AppLanguage) -> (res: &'static str)
    ensures
        res@ == prompt_label_spec(language),
{
    match language {
        AppLanguage::English => "Select 1 or 2, then press Enter: ",
        AppLanguage::SimplifiedChinese => "请输入 1 或 2，然后按 Enter：",
    }
}

/// Notice that interactive selection is unavailable.
pub open spec fn fallback_notice_spec(language: AppLanguage) -> Seq<char> {
    match language {
        AppLanguage::English => "Interactive selection is unavailable here, falling back to typed confirmation."@,
        AppLanguage::SimplifiedChinese => "当前终端无法使用交互式选择，已回退为输入确认模式。"@,
    }
}

/// Notice that interactive selection is unavailable.
pub fn fallback_notice_text(language: AppLanguage) -> (res: &'static str)
    ensures
        res@ == fallback_notice_spec(language),
{
    match language {
        AppLanguage::English => "Interactive selection is unavailable here, falling back to typed confirmation.",
        AppLanguage::SimplifiedChinese => "当前终端无法使用交互式选择，已回退为输入确认模式。",
    }
}

/// Title line of the dialog.
pub open spec fn dialog_title_spec(language: AppLanguage) -> Seq<char> {
    match language {
        AppLanguage::English => "Accessing workspace:"@,
        AppLanguage::SimplifiedChinese => "正在访问工作区："@,
    }
}

/// Title line of the dialog.
pub fn dialog_title(language: AppLanguage) -> (res: &'static str)
    ensures
        res@ == dialog_title_spec(language),
{
    match language {
        AppLanguage::English => "Accessing workspace:",
        AppLanguage::SimplifiedChinese => "正在访问工作区：",
    }
}

/// Footer line: how to answer, or how to leave once Ctrl+C was pressed.
pub open spec fn footer_spec(language: AppLanguage, exit_pending: bool) -> Seq<char> {
    match (language, exit_pending) {
        (AppLanguage::English, false) => "Enter to confirm · Esc to cancel"@,
        (AppLanguage::English, true) => "Press Ctrl+C again to exit"@,
        (AppLanguage::SimplifiedChinese, false) => "Enter 确认 · Esc 取消"@,
        (AppLanguage::SimplifiedChinese, true) => "再按一次 Ctrl+C 即可退出"@,
    }
}

/// Footer line: how to answer, or how to leave once Ctrl+C was pressed.
pub fn footer_text(language: AppLanguage, exit_pending: bool) -> (res: &'static str)
    ensures
        res@ == footer_spec(language, exit_pending),
{
    match (language, exit_pending) {
        (AppLanguage::English, false) => "Enter to confirm · Esc to cancel",
        (AppLanguage::English, true) => "Press Ctrl+C again to exit",
        (AppLanguage::SimplifiedChinese, false) => "Enter 确认 · Esc 取消",
        (AppLanguage::SimplifiedChinese, true) => "再按一次 Ctrl+C 即可退出",
    }
}

/// The dialog's top border, as wide as the dialog.
pub open spec fn top_border_spec() -> Seq<char> {
    seq!['╭'] + Seq::new(76, |i: int| '─') + seq!['╮']
}

/// The dialog's top border, as wide as the dialog.
pub fn render_top_border() -> (res: String)
    ensures
        res@ == top_border_spec(),
{
    let mut s = String::new();
    push_char(&mut s, '╭');
    let mut i: usize = 0;
    while i < 76
        invariant
            i <= 76,
            s@ == seq!['╭'] + Seq::new(i as nat, |k: int| '─'),
        decreases 76 - i,
    {
        push_char(&mut s, '─');
        i = i + 1;
        assert(s@ =~= seq!['╭'] + Seq::new(i as nat, |k: int| '─'));
    }
    push_char(&mut s, '╮');
    s
}

/// The safety paragraph of the dialog body.
pub open spec fn safety_paragraph(language: AppLanguage) -> Seq<char> {
    match language {
        AppLanguage::English => "Quick safety check: Is this a project you created or one you trust? (Like your own code, a well-known open source project, or work from your team). If not, take a moment to review what's in this folder first."@,
        AppLanguage::SimplifiedChinese => "快速安全检查：这是你创建的项目，或你信任的项目吗？例如你自己的代码、知名开源项目，或团队内部的工作目录。如果不是，请先检查此目录中的内容，再决定是否继续。"@,
    }
}

/// The capability paragraph of the dialog body.
pub open spec fn capability_paragraph(language: AppLanguage) -> Seq<char> {
    match language {
        AppLanguage::English => "hellox will be able to read, edit, and execute files here."@,
        AppLanguage::SimplifiedChinese => "继续后，hellox 将可以在这里读取、编辑并执行文件。"@,
    }
}

/// The security guide line of the dialog body.
pub open spec fn guide_line(language: AppLanguage) -> Seq<char> {
    match language {
        AppLanguage::English => "Security guide: see the security documentation of the workspace tools"@,
        AppLanguage::SimplifiedChinese => "安全指南：请参阅工作区工具的安全文档"@,
    }
}

/// Body of the dialog: the wrapped path, then the wrapped paragraphs and the guide.
pub open spec fn dialog_body_spec(language: AppLanguage, working_directory: Seq<char>) -> Seq<
    Seq<char>,
> {
    wrap_spec(working_directory) + seq![seq![]] + wrap_spec(safety_paragraph(language)) + seq![
        seq![],
    ] + wrap_spec(capability_paragraph(language)) + seq![seq![], guide_line(language)]
}

fn append_lines(lines: &mut Vec<String>, more: Vec<String>)
    ensures
        views(final(lines)@) == views(old(lines)@) + views(more@),
{
    let mut i: usize = 0;
    let ghost start = lines@;
    while i < more.len()
        invariant
            i <= more@.len(),
            views(lines@) == views(start) + views(more@.subrange(0, i as int)),
        decreases more@.len() - i,
    {
        let ghost prev = lines@;
        lines.push(more[i].clone());
        assert(views(lines@) =~= views(prev).push(more@[i as int]@));
        assert(views(more@.subrange(0, i + 1)) =~= views(more@.subrange(0, i as int)).push(
            more@[i as int]@,
        ));
        i = i + 1;
    }
    assert(more@.subrange(0, i as int) =~= more@);
}

fn push_empty(lines: &mut Vec<String>)
    ensures
        views(final(lines)@) == views(old(lines)@).push(seq![]),
{
    let ghost start = lines@;
    lines.push(String::new());
    assert(views(lines@) =~= views(start).push(seq![]));
}

fn push_line(lines: &mut Vec<String>, line: &str)
    ensures
        views(final(lines)@) == views(old(lines)@).push(line@),
{
    let ghost start = lines@;
    lines.push(line.to_owned());
    assert(views(lines@) =~= views(start).push(line@));
}

/// Body of the dialog: the wrapped path, then the wrapped paragraphs and the guide.
pub fn dialog_body_lines(language: AppLanguage, working_directory: &str) -> (res: Vec<String>)
    ensures
        views(res@) == dialog_body_spec(language, working_directory@),
{
    let mut lines = wrap_text(working_directory);
    push_empty(&mut lines);
    match language {
        AppLanguage::English => {
            append_lines(&mut lines, wrap_text(
                "Quick safety check: Is this a project you created or one you trust? (Like your own code, a well-known open source project, or work from your team). If not, take a moment to review what's in this folder first.",
            ));
            push_empty(&mut lines);
            append_lines(&mut lines, wrap_text(
                "hellox will be able to read, edit, and execute files here.",
            ));
            push_empty(&mut lines);
            push_line(&mut lines, "Security guide: see the security documentation of the workspace tools");
        },
        AppLanguage::SimplifiedChinese => {
            append_lines(&mut lines, wrap_text(
                "快速安全检查：这是你创建的项目，或你信任的项目吗？例如你自己的代码、知名开源项目，或团队内部的工作目录。如果不是，请先检查此目录中的内容，再决定是否继续。",
            ));
            push_empty(&mut lines);
            append_lines(&mut lines, wrap_text(
                "继续后，hellox 将可以在这里读取、编辑并执行文件。",
            ));
            push_empty(&mut lines);
            push_line(&mut lines, "安全指南：请参阅工作区工具的安全文档");
        },
    }
    assert(views(lines@) =~= dialog_body_spec(language, working_directory@));
    lines
}

/// Marker in front of an option: `❯` when highlighted.
pub open spec fn marker_spec(selected: bool) -> Seq<char> {
    if selected {
        "❯"@
    } else {
        " "@
    }
}

/// The two option lines, the highlighted one marked.
pub open spec fn option_lines_spec(language: AppLanguage, selection: TrustSelection) -> Seq<
    Seq<char>,
> {
    let (yes, no) = match language {
        AppLanguage::English => ("Yes, I trust this folder"@, "No, exit"@),
        AppLanguage::SimplifiedChinese => ("是的，我信任这个目录"@, "不，退出"@),
    };
    seq![
        marker_spec(selection == TrustSelection::Trust) + " "@ + "1"@ + ". "@ + yes,
        marker_spec(selection == TrustSelection::Exit) + " "@ + "2"@ + ". "@ + no,
    ]
}

fn option_line(selected: bool, number: &str, label: &str) -> (res: String)
    ensures
        res@ == marker_spec(selected) + " "@ + number@ + ". "@ + label@,
{
    let mut s = String::new();
    s.append(if selected {
        "❯"
    } else {
        " "
    });
    s.append(" ");
    s.append(number);
    s.append(". ");
    s.append(label);
    s
}

/// The two option lines, the highlighted one marked.
pub fn option_lines(language: AppLanguage, selection: TrustSelection) -> (res: Vec<String>)
    ensures
        views(res@) == option_lines_spec(language, selection),
{
    let (yes, no) = match language {
        AppLanguage::English => ("Yes, I trust this folder", "No, exit"),
        AppLanguage::SimplifiedChinese => ("是的，我信任这个目录", "不，退出"),
    };
    let mut v: Vec<String> = Vec::new();
    v.push(option_line(selection == TrustSelection::Trust, "1", yes));
    v.push(option_line(selection == TrustSelection::Exit, "2", no));
    assert(views(v@) =~= option_lines_spec(language, selection));
    v
}

/// `lines` with the content indentation in front of each.
pub open spec fn indent_all(lines: Seq<Seq<char>>) -> Seq<Seq<char>> {
    lines.map_values(|l: Seq<char>| "  "@ + l)
}

fn indented(line: &str) -> (res: String)
    ensures
        res@ == "  "@ + line@,
{
    let mut s = String::new();
    s.append(CONTENT_INDENT);
    s.append(line);
    s
}

fn append_indented(lines: &mut Vec<String>, more: Vec<String>)
    ensures
        views(final(lines)@) == views(old(lines)@) + indent_all(views(more@)),
{
    let mut i: usize = 0;
    let ghost start = lines@;
    while i < more.len()
        invariant
            i <= more@.len(),
            views(lines@) == views(start) + indent_all(views(more@.subrange(0, i as int))),
        decreases more@.len() - i,
    {
        let ghost prev = lines@;
        lines.push(indented(more[i].as_str()));
        assert(views(lines@) =~= views(prev).push("  "@ + more@[i as int]@));
        assert(indent_all(views(more@.subrange(0, i + 1))) =~= indent_all(
            views(more@.subrange(0, i as int)),
        ).push("  "@ + more@[i as int]@));
        i = i + 1;
    }
    assert(more@.subrange(0, i as int) =~= more@);
}

/// All lines of the trust dialog, top to bottom.
pub open spec fn trust_dialog_spec(
    language: AppLanguage,
    working_directory: Seq<char>,
    selection: TrustSelection,
    exit_pending: bool,
) -> Seq<Seq<char>> {
    seq![seq![], top_border_spec(), "  "@ + dialog_title_spec(language), seq![]] + indent_all(
        dialog_body_spec(language, working_directory),
    ) + seq![seq![]] + indent_all(option_lines_spec(language, selection)) + seq![
        seq![],
        "  "@ + footer_spec(language, exit_pending),
    ]
}

/// All lines of the trust dialog, top to bottom.
pub fn trust_dialog_lines(
    language: AppLanguage,
    working_directory: &str,
    selection: TrustSelection,
    exit_pending: bool,
) -> (res: Vec<String>)
    ensures
        views(res@) == trust_dialog_spec(language, working_directory@, selection, exit_pending),
{
    let mut lines: Vec<String> = Vec::new();
    lines.push(String::new());
    lines.push(render_top_border());
    lines.push(indented(dialog_title(language)));
    lines.push(String::new());
    let ghost head = lines@;
    assert(views(head) =~= seq![seq![], top_border_spec(), "  "@ + dialog_title_spec(language), seq![]]);
    append_indented(&mut lines, dialog_body_lines(language, working_directory));
    push_empty(&mut lines);
    append_indented(&mut lines, option_lines(language, selection));
    push_empty(&mut lines);
    let footer = indented(footer_text(language, exit_pending));
    push_line(&mut lines, footer.as_str());
    assert(views(lines@) =~= trust_dialog_spec(language, working_directory@, selection, exit_pending));
    lines
}

} // verus!
