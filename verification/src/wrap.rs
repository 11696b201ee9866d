//! Greedy word wrapping and truncation of dialog text by display width.

use vstd::prelude::*;

use crate::text::{
    chars_of, is_whitespace, is_ws, push_char, string_from_chars, string_from_range,
    trim_end_range, trim_end_seq, trim_start_range, trim_start_seq, views,
};
use crate::width::{char_display_width, char_width, display_width, str_width};

verus! {

/// Width of the text area inside the trust dialog's border.
pub const CONTENT_WIDTH: usize = 76;

/// Width a character adds when truncating: control characters add nothing.
pub open spec fn char_cols(c: char) -> nat {
    match char_width(c) {
        Some(w) => w as nat,
        None => 0,
    }
}

/// How many leading characters of `text[i..]` fit in `limit - consumed` columns.
pub open spec fn take_fitting(text: Seq<char>, limit: nat, consumed: nat, i: nat) -> nat
    decreases text.len() - i,
{
    if i >= text.len() {
        i
    } else if consumed + char_cols(text[i as int]) > limit {
        i
    } else {
        take_fitting(text, limit, consumed + char_cols(text[i as int]), i + 1)
    }
}

/// `text` cut to `max_width` columns, with `…` marking a cut.
pub open spec fn truncate_spec(text: Seq<char>, max_width: nat) -> Seq<char> {
    if str_width(text) <= max_width {
        text
    } else if max_width == 0 {
        seq![]
    } else {
        text.subrange(0, take_fitting(text, (max_width - 1) as nat, 0, 0) as int).push('…')
    }
}

proof fn lemma_take_fitting_bounds(text: Seq<char>, limit: nat, consumed: nat, i: nat)
    requires
        i <= text.len(),
    ensures
        i <= take_fitting(text, limit, consumed, i) <= text.len(),
    decreases text.len() - i,
{
    if i < text.len() && consumed + char_cols(text[i as int]) <= limit {
        lemma_take_fitting_bounds(text, limit, consumed + char_cols(text[i as int]), i + 1);
    }
}

/// Cuts `text` to `max_width` columns, ending a cut with `…`.
pub fn truncate_text(text: &str, max_width: usize) -> (res: String)
    ensures
        res@ == truncate_spec(text@, max_width as nat),
{
    if display_width(text) <= max_width {
        return string_from_chars(chars_of(text).as_slice());
    }
    if max_width == 0 {
        return String::new();
    }
    let chars = chars_of(text);
    let limit = max_width - 1;
    let mut consumed: usize = 0;
    let mut i: usize = 0;
    proof {
        lemma_take_fitting_bounds(text@, limit as nat, 0, 0);
    }
    while i < chars.len()
        invariant
            chars@ == text@,
            i <= chars@.len(),
            consumed <= limit,
            take_fitting(text@, limit as nat, 0, 0) == take_fitting(
                text@,
                limit as nat,
                consumed as nat,
                i as nat,
            ),
        ensures
            i <= chars@.len(),
            take_fitting(text@, limit as nat, 0, 0) == i as nat,
        decreases chars@.len() - i,
    {
        let w = match char_display_width(chars[i]) {
            Some(w) => w,
            None => 0,
        };
        if w > limit - consumed {
            break;
        }
        consumed = consumed + w;
        i = i + 1;
    }
    let mut res = string_from_range(&chars, 0, i);
    push_char(&mut res, '…');
    res
}

/// Position just after the last white space character of `cur`, if any.
pub open spec fn last_ws_after(cur: Seq<char>) -> Option<nat>
    decreases cur.len(),
{
    if cur.len() == 0 {
        None
    } else if is_ws(cur.last()) {
        Some(cur.len())
    } else {
        last_ws_after(cur.drop_last())
    }
}

/// Length of the longest prefix of `cur` (scanning from `j`) that fits the content width.
pub open spec fn fit_len(cur: Seq<char>, j: nat) -> nat
    decreases cur.len() - j,
{
    if j >= cur.len() {
        cur.len()
    } else if str_width(cur.subrange(0, (j + 1) as int)) > CONTENT_WIDTH {
        j
    } else {
        fit_len(cur, j + 1)
    }
}

/// Wrapping state: finished lines, the line being filled, and where it may break.
pub type WrapState = (Seq<Seq<char>>, Seq<char>, Option<nat>);

/// Lines and the remainder after an overflowing line is broken.
pub open spec fn break_line(lines: Seq<Seq<char>>, cur: Seq<char>, last_ws: Option<nat>) -> (
    Seq<Seq<char>>,
    Seq<char>,
) {
    match last_ws {
        Some(idx) => {
            let line = trim_end_seq(cur.subrange(0, idx as int));
            let rem = trim_start_seq(cur.subrange(idx as int, cur.len() as int));
            (
                if line.len() > 0 {
                    lines.push(line)
                } else {
                    lines
                },
                rem,
            )
        },
        None => {
            let k = fit_len(cur, 0);
            if k == 0 {
                (lines.push(truncate_spec(cur, CONTENT_WIDTH as nat)), seq![])
            } else {
                (lines.push(cur.subrange(0, k as int)), cur.subrange(k as int, cur.len() as int))
            }
        },
    }
}

/// One character of input fed to the wrapping state.
pub open spec fn wrap_step(state: WrapState, ch: char) -> WrapState {
    let (lines, cur, last_ws) = state;
    if ch == '\n' {
        (lines.push(trim_end_seq(cur)), seq![], None)
    } else {
        let cur1 = cur.push(ch);
        let ws1 = if is_ws(ch) {
            Some(cur1.len())
        } else {
            last_ws
        };
        if str_width(cur1) <= CONTENT_WIDTH {
            (lines, cur1, ws1)
        } else {
            let (lines2, cur2) = break_line(lines, cur1, ws1);
            (lines2, cur2, last_ws_after(cur2))
        }
    }
}

/// The wrapping state after all of `text`.
pub open spec fn wrap_fold(text: Seq<char>) -> WrapState
    decreases text.len(),
{
    if text.len() == 0 {
        (seq![], seq![], None)
    } else {
        wrap_step(wrap_fold(text.drop_last()), text.last())
    }
}

/// Greedy wrap of `text` to the content width: breaks at the last white space when
/// a line overflows, else at the widest prefix that fits, never returning no lines.
pub open spec fn wrap_spec(text: Seq<char>) -> Seq<Seq<char>> {
    if text.len() == 0 {
        seq![seq![]]
    } else {
        let (lines, cur, _) = wrap_fold(text);
        let all = if cur.len() > 0 {
            lines.push(trim_end_seq(cur))
        } else {
            lines
        };
        if all.len() == 0 {
            seq![seq![]]
        } else {
            all
        }
    }
}

/// Whether a break position lies within the current line.
pub open spec fn ws_in_range(last_ws: Option<nat>, cur: Seq<char>) -> bool {
    match last_ws {
        Some(i) => i <= cur.len(),
        None => true,
    }
}

proof fn lemma_last_ws_after_bound(cur: Seq<char>)
    ensures
        ws_in_range(last_ws_after(cur), cur),
    decreases cur.len(),
{
    if cur.len() > 0 && !is_ws(cur.last()) {
        lemma_last_ws_after_bound(cur.drop_last());
    }
}

proof fn lemma_fit_len_bound(cur: Seq<char>, j: nat)
    requires
        j <= cur.len(),
    ensures
        j <= fit_len(cur, j) <= cur.len(),
    decreases cur.len() - j,
{
    if j < cur.len() && str_width(cur.subrange(0, (j + 1) as int)) <= CONTENT_WIDTH {
        lemma_fit_len_bound(cur, j + 1);
    }
}

/// Whether `c` alone fits within the content width.
pub open spec fn char_fits(c: char) -> bool {
    str_width(seq![c]) <= CONTENT_WIDTH
}

/// Whether every character of `s`, taken alone, fits within the content width.
pub open spec fn all_fit(s: Seq<char>) -> bool {
    forall|j: int| 0 <= j < s.len() ==> #[trigger] char_fits(s[j])
}

/// `s` with its white space removed.
pub open spec fn drop_ws(s: Seq<char>) -> Seq<char>
    decreases s.len(),
{
    if s.len() == 0 {
        s
    } else if is_ws(s.last()) {
        drop_ws(s.drop_last())
    } else {
        drop_ws(s.drop_last()).push(s.last())
    }
}

/// The lines joined end to end.
pub open spec fn concat_lines(lines: Seq<Seq<char>>) -> Seq<char>
    decreases lines.len(),
{
    if lines.len() == 0 {
        seq![]
    } else {
        concat_lines(lines.drop_last()) + lines.last()
    }
}

proof fn lemma_drop_ws_add(a: Seq<char>, b: Seq<char>)
    ensures
        drop_ws(a + b) == drop_ws(a) + drop_ws(b),
    decreases b.len(),
{
    if b.len() == 0 {
        assert(a + b =~= a);
        assert(drop_ws(a) + drop_ws(b) =~= drop_ws(a));
    } else {
        lemma_drop_ws_add(a, b.drop_last());
        assert((a + b).drop_last() =~= a + b.drop_last());
        assert((a + b).last() == b.last());
        assert((drop_ws(a) + drop_ws(b.drop_last())).push(b.last()) =~= drop_ws(a) + drop_ws(
            b.drop_last(),
        ).push(b.last()));
    }
}

proof fn lemma_drop_ws_trim_end(x: Seq<char>)
    ensures
        drop_ws(trim_end_seq(x)) == drop_ws(x),
    decreases x.len(),
{
    if x.len() > 0 && is_ws(x.last()) {
        lemma_drop_ws_trim_end(x.drop_last());
    }
}

proof fn lemma_drop_ws_trim_start(x: Seq<char>)
    ensures
        drop_ws(trim_start_seq(x)) == drop_ws(x),
    decreases x.len(),
{
    if x.len() > 0 && is_ws(x[0]) {
        let head = seq![x[0]];
        lemma_drop_ws_trim_start(x.drop_first());
        lemma_drop_ws_add(head, x.drop_first());
        assert(head + x.drop_first() =~= x);
        assert(head.drop_last() =~= Seq::<char>::empty());
        assert(head.last() == x[0]);
        assert(drop_ws(head.drop_last()).len() == 0);
        assert(drop_ws(head) =~= Seq::<char>::empty());
        assert(drop_ws(head) + drop_ws(x.drop_first()) =~= drop_ws(x.drop_first()));
    }
}

proof fn lemma_all_fit_trim_start(x: Seq<char>)
    requires
        all_fit(x),
    ensures
        all_fit(trim_start_seq(x)),
    decreases x.len(),
{
    if x.len() > 0 && is_ws(x[0]) {
        assert forall|j: int| 0 <= j < x.drop_first().len() implies #[trigger] char_fits(
            x.drop_first()[j],
        ) by {
            assert(x.drop_first()[j] == x[j + 1]);
        }
        lemma_all_fit_trim_start(x.drop_first());
    }
}

proof fn lemma_all_fit_subrange(x: Seq<char>, lo: int, hi: int)
    requires
        all_fit(x),
        0 <= lo <= hi <= x.len(),
    ensures
        all_fit(x.subrange(lo, hi)),
{
    assert forall|j: int| 0 <= j < x.subrange(lo, hi).len() implies #[trigger] char_fits(
        x.subrange(lo, hi)[j],
    ) by {
        assert(x.subrange(lo, hi)[j] == x[lo + j]);
    }
}

proof fn lemma_concat_push(lines: Seq<Seq<char>>, line: Seq<char>)
    ensures
        concat_lines(lines.push(line)) == concat_lines(lines) + line,
{
    assert(lines.push(line).drop_last() =~= lines);
}

/// Splitting `cur` at `at` into a finished `line` and a remainder `rem` loses no visible text.
proof fn lemma_split_keeps(
    lines: Seq<Seq<char>>,
    cur: Seq<char>,
    at: int,
    line: Seq<char>,
    rem: Seq<char>,
)
    requires
        0 <= at <= cur.len(),
        drop_ws(line) == drop_ws(cur.subrange(0, at)),
        drop_ws(rem) == drop_ws(cur.subrange(at, cur.len() as int)),
    ensures
        drop_ws(concat_lines(lines.push(line)) + rem) == drop_ws(concat_lines(lines) + cur),
        drop_ws(concat_lines(lines) + rem) == drop_ws(concat_lines(lines) + cur) <== drop_ws(line)
            == Seq::<char>::empty(),
{
    let c = concat_lines(lines);
    let a = cur.subrange(0, at);
    let b = cur.subrange(at, cur.len() as int);
    assert(a + b =~= cur);
    lemma_concat_push(lines, line);
    lemma_drop_ws_add(c + line, rem);
    lemma_drop_ws_add(c, line);
    lemma_drop_ws_add(c, cur);
    lemma_drop_ws_add(a, b);
    lemma_drop_ws_add(c, rem);
    assert(drop_ws(c) + drop_ws(line) + drop_ws(rem) =~= drop_ws(c) + (drop_ws(a) + drop_ws(b)));
    if drop_ws(line) == Seq::<char>::empty() {
        assert(drop_ws(c) + drop_ws(rem) =~= drop_ws(c) + (drop_ws(a) + drop_ws(b)));
    }
}

/// Breaking an overflowing line loses no visible text and keeps every character fitting.
proof fn lemma_break_line_keeps(lines: Seq<Seq<char>>, cur: Seq<char>, last_ws: Option<nat>)
    requires
        cur.len() > 0,
        all_fit(cur),
        ws_in_range(last_ws, cur),
    ensures
        ({
            let (lines2, cur2) = break_line(lines, cur, last_ws);
            &&& drop_ws(concat_lines(lines2) + cur2) == drop_ws(concat_lines(lines) + cur)
            &&& all_fit(cur2)
        }),
{
    match last_ws {
        Some(idx) => {
            let a = cur.subrange(0, idx as int);
            let b = cur.subrange(idx as int, cur.len() as int);
            let line = trim_end_seq(a);
            let rem = trim_start_seq(b);
            lemma_drop_ws_trim_end(a);
            lemma_drop_ws_trim_start(b);
            lemma_split_keeps(lines, cur, idx as int, line, rem);
            if line.len() == 0 {
                assert(drop_ws(line) =~= Seq::<char>::empty());
            }
            lemma_all_fit_subrange(cur, idx as int, cur.len() as int);
            lemma_all_fit_trim_start(b);
        },
        None => {
            assert(cur.subrange(0, 1) =~= seq![cur[0]]);
            assert(char_fits(cur[0]));
            lemma_fit_len_bound(cur, 1);
            let k = fit_len(cur, 0);
            assert(k >= 1);
            lemma_split_keeps(lines, cur, k as int, cur.subrange(0, k as int), cur.subrange(k as int, cur.len() as int));
            lemma_all_fit_subrange(cur, k as int, cur.len() as int);
        },
    }
}

/// What every prefix's wrapping state keeps: no visible text is lost, the break position
/// lies in the current line, and every character of it fits alone.
proof fn lemma_wrap_fold_keeps(text: Seq<char>)
    requires
        all_fit(text),
    ensures
        ({
            let (lines, cur, last_ws) = wrap_fold(text);
            &&& drop_ws(concat_lines(lines) + cur) == drop_ws(text)
            &&& ws_in_range(last_ws, cur)
            &&& all_fit(cur)
        }),
    decreases text.len(),
{
    if text.len() == 0 {
        assert(concat_lines(Seq::<Seq<char>>::empty()) + Seq::<char>::empty() =~= text);
    } else {
        let prev = text.drop_last();
        let ch = text.last();
        assert(char_fits(text[text.len() - 1]));
        lemma_all_fit_subrange(text, 0, text.len() - 1);
        assert(text.subrange(0, text.len() - 1) =~= prev);
        lemma_wrap_fold_keeps(prev);
        let (lines, cur, last_ws) = wrap_fold(prev);
        let c = concat_lines(lines);
        if ch == '\n' {
            assert(is_ws(ch));
            lemma_concat_push(lines, trim_end_seq(cur));
            lemma_drop_ws_add(c, trim_end_seq(cur));
            lemma_drop_ws_add(c, cur);
            lemma_drop_ws_trim_end(cur);
            assert(c + trim_end_seq(cur) + Seq::<char>::empty() =~= c + trim_end_seq(cur));
        } else {
            let cur1 = cur.push(ch);
            assert((c + cur).push(ch) =~= c + cur1);
            assert((c + cur1).drop_last() =~= c + cur);
            assert forall|j: int| 0 <= j < cur1.len() implies #[trigger] char_fits(cur1[j]) by {
                if j < cur.len() {
                    assert(cur1[j] == cur[j]);
                }
            }
            let ws1 = if is_ws(ch) {
                Some(cur1.len())
            } else {
                last_ws
            };
            if str_width(cur1) > CONTENT_WIDTH {
                lemma_break_line_keeps(lines, cur1, ws1);
                let (lines2, cur2) = break_line(lines, cur1, ws1);
                lemma_last_ws_after_bound(cur2);
            }
        }
    }
}

/// Wrapping loses no text but white space: with white space removed, the wrapped lines
/// read end to end exactly as the input does. This holds whenever each character alone
/// fits within the content width; a character wider than that would be cut with `…`.
pub proof fn lemma_wrap_keeps_visible_text(text: Seq<char>)
    requires
        all_fit(text),
    ensures
        drop_ws(concat_lines(wrap_spec(text))) == drop_ws(text),
{
    let empty_lines = Seq::<Seq<char>>::empty();
    assert(seq![Seq::<char>::empty()].drop_last() =~= empty_lines);
    assert(concat_lines(empty_lines) =~= Seq::<char>::empty());
    assert(concat_lines(seq![Seq::<char>::empty()]) =~= Seq::<char>::empty());
    if text.len() > 0 {
        lemma_wrap_fold_keeps(text);
        let (lines, cur, _) = wrap_fold(text);
        let c = concat_lines(lines);
        if cur.len() > 0 {
            lemma_concat_push(lines, trim_end_seq(cur));
            lemma_drop_ws_add(c, trim_end_seq(cur));
            lemma_drop_ws_add(c, cur);
            lemma_drop_ws_trim_end(cur);
        } else {
            assert(c + cur =~= c);
            if lines.len() == 0 {
                assert(c =~= Seq::<char>::empty());
            }
        }
    }
}

/// Position just after the last white space character of `cur`.
fn last_ws_position(cur: &Vec<char>) -> (res: Option<usize>)
    ensures
        match res {
            Some(i) => last_ws_after(cur@) == Some(i as nat),
            None => last_ws_after(cur@) is None,
        },
{
    let mut j = cur.len();
    assert(cur@.subrange(0, j as int) =~= cur@);
    while j > 0
        invariant
            j <= cur@.len(),
            last_ws_after(cur@) == last_ws_after(cur@.subrange(0, j as int)),
        decreases j,
    {
        if is_whitespace(cur[j - 1]) {
            return Some(j);
        }
        assert(cur@.subrange(0, j as int).drop_last() =~= cur@.subrange(0, j - 1));
        j = j - 1;
    }
    None
}

/// Length of the widest prefix of `cur` that fits the content width.
fn fitting_prefix_len(cur: &Vec<char>) -> (res: usize)
    ensures
        res == fit_len(cur@, 0),
{
    let mut j: usize = 0;
    while j < cur.len()
        invariant
            j <= cur@.len(),
            fit_len(cur@, 0) == fit_len(cur@, j as nat),
        decreases cur@.len() - j,
    {
        let candidate = string_from_range(cur, 0, j + 1);
        if display_width(candidate.as_str()) > CONTENT_WIDTH {
            return j;
        }
        j = j + 1;
    }
    j
}

/// Wraps `text` to the dialog's content width.
pub fn wrap_text(text: &str) -> (res: Vec<String>)
    ensures
        views(res@) == wrap_spec(text@),
{
    let chars = chars_of(text);
    if chars.len() == 0 {
        let mut v: Vec<String> = Vec::new();
        v.push(String::new());
        assert(views(v@) =~= seq![seq![]]);
        return v;
    }
    let mut lines: Vec<String> = Vec::new();
    let mut cur: Vec<char> = Vec::new();
    let mut last_ws: Option<usize> = None;
    let mut i: usize = 0;
    assert(text@.subrange(0, 0) =~= Seq::<char>::empty());
    assert(views(lines@) =~= Seq::<Seq<char>>::empty());
    while i < chars.len()
        invariant
            chars@ == text@,
            i <= chars@.len(),
            wrap_fold(text@.subrange(0, i as int)) == (
                views(lines@),
                cur@,
                match last_ws {
                    Some(k) => Some(k as nat),
                    None => None,
                },
            ),
            match last_ws {
                Some(k) => k <= cur@.len(),
                None => true,
            },
        decreases chars@.len() - i,
    {
        let ch = chars[i];
        assert(text@.subrange(0, i + 1).drop_last() =~= text@.subrange(0, i as int));
        assert(text@.subrange(0, i + 1).last() == ch);
        if ch == '\n' {
            let e = trim_end_range(&cur, 0, cur.len());
            let line = string_from_range(&cur, 0, e);
            assert(cur@.subrange(0, cur@.len() as int) =~= cur@);
            let ghost old_lines = lines@;
            lines.push(line);
            assert(views(lines@) =~= views(old_lines).push(trim_end_seq(cur@)));
            cur = Vec::new();
            last_ws = None;
        } else {
            cur.push(ch);
            if is_whitespace(ch) {
                last_ws = Some(cur.len());
            }
            let current = string_from_chars(cur.as_slice());
            if display_width(current.as_str()) > CONTENT_WIDTH {
                let ghost old_lines = lines@;
                let ghost cur1 = cur@;
                match last_ws {
                    Some(idx) => {
                        let e = trim_end_range(&cur, 0, idx);
                        let s = trim_start_range(&cur, idx, cur.len());
                        if e > 0 {
                            let line = string_from_range(&cur, 0, e);
                            lines.push(line);
                            assert(views(lines@) =~= views(old_lines).push(
                                trim_end_seq(cur1.subrange(0, idx as int)),
                            ));
                        }
                        let mut rem: Vec<char> = Vec::new();
                        let mut k = s;
                        while k < cur.len()
                            invariant
                                s <= k <= cur@.len(),
                                rem@ == cur@.subrange(s as int, k as int),
                            decreases cur@.len() - k,
                        {
                            rem.push(cur[k]);
                            k = k + 1;
                            assert(rem@ =~= cur@.subrange(s as int, k as int));
                        }
                        cur = rem;
                    },
                    None => {
                        let k = fitting_prefix_len(&cur);
                        proof {
                            lemma_fit_len_bound(cur1, 0);
                        }
                        if k == 0 {
                            let t = truncate_text(current.as_str(), CONTENT_WIDTH);
                            lines.push(t);
                            assert(views(lines@) =~= views(old_lines).push(
                                truncate_spec(cur1, CONTENT_WIDTH as nat),
                            ));
                            cur = Vec::new();
                        } else {
                            let line = string_from_range(&cur, 0, k);
                            lines.push(line);
                            assert(views(lines@) =~= views(old_lines).push(
                                cur1.subrange(0, k as int),
                            ));
                            let mut rem: Vec<char> = Vec::new();
                            let mut m = k;
                            while m < cur.len()
                                invariant
                                    k <= m <= cur@.len(),
                                    rem@ == cur@.subrange(k as int, m as int),
                                decreases cur@.len() - m,
                            {
                                rem.push(cur[m]);
                                m = m + 1;
                                assert(rem@ =~= cur@.subrange(k as int, m as int));
                            }
                            cur = rem;
                        }
                    },
                }
                last_ws = last_ws_position(&cur);
                proof {
                    lemma_last_ws_after_bound(cur@);
                }
            }
        }
        i = i + 1;
    }
    assert(text@.subrange(0, i as int) =~= text@);
    let ghost folded_lines = lines@;
    if cur.len() > 0 {
        let e = trim_end_range(&cur, 0, cur.len());
        let line = string_from_range(&cur, 0, e);
        assert(cur@.subrange(0, cur@.len() as int) =~= cur@);
        lines.push(line);
        assert(views(lines@) =~= views(folded_lines).push(trim_end_seq(cur@)));
    }
    if lines.len() == 0 {
        lines.push(String::new());
        assert(views(lines@) =~= seq![seq![]]);
    }
    lines
}

} // verus!
