//! Character-level text helpers shared by the rest of the library.

use vstd::prelude::*;

verus! {

/// The view of an optional string slice.
pub open spec fn opt_view(o: Option<&str>) -> Option<Seq<char>> {
    match o {
        Some(s) => Some(s@),
        None => None,
    }
}

/// The view of an optional owned string.
pub open spec fn opt_string_view(o: Option<String>) -> Option<Seq<char>> {
    match o {
        Some(s) => Some(s@),
        None => None,
    }
}

/// Appends one character to a string (`String::push`).
///
/// Trusted: `String::push` appends the character at the end, as its documentation says.
#[verifier::external_body]
pub fn push_char(s: &mut String, c: char)
    ensures
        final(s)@ == old(s)@.push(c),
{
    s.push(c);
}

/// The characters of `s`, in order.
pub fn chars_of(s: &str) -> (res: Vec<char>)
    ensures
        res@ == s@,
{
    let n = s.unicode_len();
    let mut res: Vec<char> = Vec::new();
    let mut i: usize = 0;
    while i < n
        invariant
            n == s@.len(),
            i <= n,
            res@ == s@.subrange(0, i as int),
        decreases n - i,
    {
        let c = s.get_char(i);
        res.push(c);
        i = i + 1;
        assert(res@ =~= s@.subrange(0, i as int));
    }
    assert(res@ =~= s@);
    res
}

/// Builds a string holding exactly the characters of `chars`.
pub fn string_from_chars(chars: &[char]) -> (res: String)
    ensures
        res@ == chars@,
{
    let mut res = String::new();
    let mut i: usize = 0;
    while i < chars.len()
        invariant
            i <= chars@.len(),
            res@ == chars@.subrange(0, i as int),
        decreases chars@.len() - i,
    {
        push_char(&mut res, chars[i]);
        i = i + 1;
        assert(res@ =~= chars@.subrange(0, i as int));
    }
    assert(res@ =~= chars@);
    res
}


/// Builds a string from `chars[lo..hi]`.
pub fn string_from_range(chars: &Vec<char>, lo: usize, hi: usize) -> (res: String)
    requires
        lo <= hi <= chars@.len(),
    ensures
        res@ == chars@.subrange(lo as int, hi as int),
{
    let mut res = String::new();
    let mut i: usize = lo;
    while i < hi
        invariant
            lo <= i <= hi <= chars@.len(),
            res@ == chars@.subrange(lo as int, i as int),
        decreases hi - i,
    {
        push_char(&mut res, chars[i]);
        i = i + 1;
        assert(res@ =~= chars@.subrange(lo as int, i as int));
    }
    res
}

/// Whether two strings hold the same characters.
pub fn str_eq(a: &str, b: &str) -> (res: bool)
    ensures
        res == (a@ == b@),
{
    a.to_owned() == b.to_owned()
}

/// Unicode `White_Space`, the set that `char::is_whitespace` tests.
pub open spec fn is_ws(c: char) -> bool {
    let u = c as u32;
    ||| 0x9 <= u <= 0xd
    ||| u == 0x20
    ||| u == 0x85
    ||| u == 0xa0
    ||| u == 0x1680
    ||| 0x2000 <= u <= 0x200a
    ||| u == 0x2028
    ||| u == 0x2029
    ||| u == 0x202f
    ||| u == 0x205f
    ||| u == 0x3000
}

/// Whether `c` is Unicode white space.
pub fn is_whitespace(c: char) -> (res: bool)
    ensures
        res == is_ws(c),
{
    let u = c as u32;
    (0x9 <= u && u <= 0xd) || u == 0x20 || u == 0x85 || u == 0xa0 || u == 0x1680 || (0x2000 <= u
        && u <= 0x200a) || u == 0x2028 || u == 0x2029 || u == 0x202f || u == 0x205f || u == 0x3000
}

/// `s` without its leading white space.
pub open spec fn trim_start_seq(s: Seq<char>) -> Seq<char>
    decreases s.len(),
{
    if s.len() > 0 && is_ws(s[0]) {
        trim_start_seq(s.drop_first())
    } else {
        s
    }
}

/// `s` without its trailing white space.
pub open spec fn trim_end_seq(s: Seq<char>) -> Seq<char>
    decreases s.len(),
{
    if s.len() > 0 && is_ws(s.last()) {
        trim_end_seq(s.drop_last())
    } else {
        s
    }
}

/// `s` without leading and trailing white space (`str::trim`).
pub open spec fn trim_seq(s: Seq<char>) -> Seq<char> {
    trim_end_seq(trim_start_seq(s))
}

/// Index of the first character of `chars[from..]` that is not white space.
fn skip_leading_ws(chars: &Vec<char>, from: usize) -> (res: usize)
    requires
        from <= chars@.len(),
    ensures
        from <= res <= chars@.len(),
        trim_start_seq(chars@.subrange(from as int, chars@.len() as int)) == chars@.subrange(
            res as int,
            chars@.len() as int,
        ),
{
    let n = chars.len();
    let mut i = from;
    while i < n && is_whitespace(chars[i])
        invariant
            n == chars@.len(),
            from <= i <= n,
            trim_start_seq(chars@.subrange(from as int, n as int)) == trim_start_seq(
                chars@.subrange(i as int, n as int),
            ),
        decreases n - i,
    {
        assert(chars@.subrange(i as int, n as int).drop_first() =~= chars@.subrange(
            i + 1,
            n as int,
        ));
        i = i + 1;
    }
    i
}

/// Characters of `s` with white space removed at both ends.
pub fn trim_chars(chars: &Vec<char>) -> (res: (usize, usize))
    ensures
        res.0 <= res.1 <= chars@.len(),
        chars@.subrange(res.0 as int, res.1 as int) == trim_seq(chars@),
{
    let n = chars.len();
    let lo = skip_leading_ws(chars, 0);
    assert(chars@.subrange(0, n as int) =~= chars@);
    let mut hi = n;
    while hi > lo && is_whitespace(chars[hi - 1])
        invariant
            n == chars@.len(),
            lo <= hi <= n,
            trim_start_seq(chars@) == chars@.subrange(lo as int, n as int),
            trim_end_seq(chars@.subrange(lo as int, n as int)) == trim_end_seq(
                chars@.subrange(lo as int, hi as int),
            ),
        decreases hi,
    {
        assert(chars@.subrange(lo as int, hi as int).drop_last() =~= chars@.subrange(
            lo as int,
            hi - 1,
        ));
        hi = hi - 1;
    }
    (lo, hi)
}

/// `s` with leading and trailing white space removed (`str::trim`).
pub fn trim(s: &str) -> (res: String)
    ensures
        res@ == trim_seq(s@),
{
    let chars = chars_of(s);
    let (lo, hi) = trim_chars(&chars);
    string_from_range(&chars, lo, hi)
}


/// ASCII lower case of one character (`char::to_ascii_lowercase`).
pub open spec fn ascii_lower(c: char) -> char {
    if 'A' <= c <= 'Z' {
        ((c as u32) + 32) as char
    } else {
        c
    }
}

/// ASCII lower case of a whole sequence.
pub open spec fn lower_seq(s: Seq<char>) -> Seq<char> {
    s.map_values(|c: char| ascii_lower(c))
}

/// Lower case of an ASCII letter; other characters are kept.
pub fn to_ascii_lower_char(c: char) -> (res: char)
    ensures
        res == ascii_lower(c),
{
    if 'A' <= c && c <= 'Z' {
        let b = (c as u8) + 32;
        b as char
    } else {
        c
    }
}

/// `s` with ASCII letters in lower case (`str::to_ascii_lowercase`).
pub fn to_ascii_lowercase(s: &str) -> (res: String)
    ensures
        res@ == lower_seq(s@),
{
    let chars = chars_of(s);
    let mut res = String::new();
    let mut i: usize = 0;
    while i < chars.len()
        invariant
            i <= chars@.len(),
            chars@ == s@,
            res@ == lower_seq(s@.subrange(0, i as int)),
        decreases chars@.len() - i,
    {
        push_char(&mut res, to_ascii_lower_char(chars[i]));
        i = i + 1;
        assert(lower_seq(s@.subrange(0, i as int)) =~= lower_seq(s@.subrange(0, i - 1)).push(
            ascii_lower(s@[i - 1]),
        ));
    }
    assert(s@.subrange(0, i as int) =~= s@);
    res
}

/// Trimmed, ASCII-lower-cased form of user input.
pub fn trim_lower(s: &str) -> (res: String)
    ensures
        res@ == lower_seq(trim_seq(s@)),
{
    let t = trim(s);
    to_ascii_lowercase(t.as_str())
}

/// Whether `a` and `b` are equal up to ASCII case (`str::eq_ignore_ascii_case`).
pub fn eq_ignore_ascii_case(a: &str, b: &str) -> (res: bool)
    ensures
        res == (lower_seq(a@) == lower_seq(b@)),
{
    let la = to_ascii_lowercase(a);
    let lb = to_ascii_lowercase(b);
    la == lb
}

/// Whether `s` begins with `prefix`.
pub open spec fn has_prefix(s: Seq<char>, prefix: Seq<char>) -> bool {
    prefix.len() <= s.len() && s.subrange(0, prefix.len() as int) == prefix
}

/// Whether `s` begins with `prefix` (`str::starts_with`).
pub fn starts_with(s: &str, prefix: &str) -> (res: bool)
    ensures
        res == has_prefix(s@, prefix@),
{
    let sc = chars_of(s);
    let pc = chars_of(prefix);
    if pc.len() > sc.len() {
        return false;
    }
    let mut i: usize = 0;
    while i < pc.len()
        invariant
            pc@ == prefix@,
            sc@ == s@,
            pc@.len() <= sc@.len(),
            i <= pc@.len(),
            forall|k: int| 0 <= k < i ==> sc@[k] == pc@[k],
        decreases pc@.len() - i,
    {
        if sc[i] != pc[i] {
            assert(s@.subrange(0, prefix@.len() as int)[i as int] != prefix@[i as int]);
            return false;
        }
        i = i + 1;
    }
    assert(s@.subrange(0, prefix@.len() as int) =~= prefix@);
    true
}

/// The ASCII digit for `d < 10`.
pub open spec fn digit_char(d: nat) -> char {
    (48 + d) as char
}

/// Decimal text of a natural number, as `{}` formats it.
pub open spec fn decimal(n: nat) -> Seq<char>
    decreases n,
{
    if n < 10 {
        seq![digit_char(n)]
    } else {
        decimal(n / 10).push(digit_char(n % 10))
    }
}

/// Appends the decimal text of `n` to `out`.
pub fn push_decimal(out: &mut String, n: u64)
    ensures
        final(out)@ == old(out)@ + decimal(n as nat),
    decreases n,
{
    if n >= 10 {
        push_decimal(out, n / 10);
    }
    let d = (n % 10) as u8;
    push_char(out, (48u8 + d) as char);
    assert(digit_char((n % 10) as nat) == (48u8 + d) as char);
}

/// Decimal text of `n`.
pub fn u64_text(n: u64) -> (res: String)
    ensures
        res@ == decimal(n as nat),
{
    let mut s = String::new();
    push_decimal(&mut s, n);
    assert(s@ =~= decimal(n as nat));
    s
}

/// Decimal text of `n`.
pub fn usize_text(n: usize) -> (res: String)
    ensures
        res@ == decimal(n as nat),
{
    u64_text(n as u64)
}


/// Whether `c` is an ASCII digit.
pub open spec fn is_digit(c: char) -> bool {
    '0' <= c <= '9'
}

/// Value of a run of ASCII digits, most significant first.
pub open spec fn digits_value(s: Seq<char>) -> nat
    decreases s.len(),
{
    if s.len() == 0 {
        0
    } else {
        digits_value(s.drop_last()) * 10 + ((s.last() as u32) - 48) as nat
    }
}

/// Whether every character of `s` is an ASCII digit.
pub open spec fn all_digits(s: Seq<char>) -> bool {
    forall|i: int| 0 <= i < s.len() ==> is_digit(#[trigger] s[i])
}

/// `s` without one leading `+`.
pub open spec fn sign_stripped(s: Seq<char>) -> Seq<char> {
    if s.len() > 0 && s[0] == '+' {
        s.drop_first()
    } else {
        s
    }
}

/// What `str::parse::<usize>` accepts and returns: an optional `+`, then at least
/// one ASCII digit, with a value that fits in `usize`.
pub open spec fn parse_usize_seq(s: Seq<char>) -> Option<usize> {
    let body = sign_stripped(s);
    if body.len() > 0 && all_digits(body) && digits_value(body) <= usize::MAX {
        Some(digits_value(body) as usize)
    } else {
        None
    }
}

proof fn lemma_digits_value_monotone(s: Seq<char>, i: int)
    requires
        0 <= i <= s.len(),
        forall|k: int| 0 <= k < s.len() ==> is_digit(#[trigger] s[k]),
    ensures
        digits_value(s.subrange(0, i)) <= digits_value(s),
    decreases s.len() - i,
{
    if i < s.len() {
        lemma_digits_value_monotone(s, i + 1);
        let t = s.subrange(0, i + 1);
        assert(t.drop_last() =~= s.subrange(0, i));
    } else {
        assert(s.subrange(0, i) =~= s);
    }
}

/// The decimal text of `n` is a non-empty run of digits whose value is `n`.
pub proof fn lemma_decimal_digits(n: nat)
    ensures
        decimal(n).len() > 0,
        all_digits(decimal(n)),
        digits_value(decimal(n)) == n,
        decimal(n)[0] != '+',
    decreases n,
{
    assert((digit_char(n % 10) as u32) == 48 + n % 10);
    if n < 10 {
        assert(decimal(n).drop_last() =~= Seq::<char>::empty());
        assert(digits_value(Seq::<char>::empty()) == 0);
        assert(n % 10 == n);
    } else {
        lemma_decimal_digits(n / 10);
        let d = decimal(n);
        assert(d.drop_last() =~= decimal(n / 10));
        assert(n == (n / 10) * 10 + n % 10) by (nonlinear_arith);
        assert(d.last() == digit_char(n % 10));
        assert(digits_value(d) == digits_value(decimal(n / 10)) * 10 + n % 10);
    }
}

/// Parsing the decimal text of a `usize` gives the number back.
pub proof fn lemma_parse_decimal(n: nat)
    requires
        n <= usize::MAX,
    ensures
        parse_usize_seq(decimal(n)) == Some(n as usize),
{
    lemma_decimal_digits(n);
}

/// Parses a decimal `usize` the way `str::parse::<usize>` does.
pub fn parse_usize(s: &str) -> (res: Option<usize>)
    ensures
        res == parse_usize_seq(s@),
{
    let chars = chars_of(s);
    let start: usize = if chars.len() > 0 && chars[0] == '+' {
        1
    } else {
        0
    };
    let ghost body = sign_stripped(s@);
    assert(body =~= chars@.subrange(start as int, chars@.len() as int));
    if start >= chars.len() {
        return None;
    }
    let mut value: usize = 0;
    let mut i: usize = start;
    while i < chars.len()
        invariant
            chars@ == s@,
            start <= i <= chars@.len(),
            body =~= chars@.subrange(start as int, chars@.len() as int),
            body == sign_stripped(s@),
            start < chars@.len(),
            forall|k: int| start <= k < i ==> is_digit(#[trigger] chars@[k]),
            value as nat == digits_value(chars@.subrange(start as int, i as int)),
        decreases chars@.len() - i,
    {
        let c = chars[i];
        if !('0' <= c && c <= '9') {
            assert(!is_digit(body[i - start]));
            return None;
        }
        let d = (c as u32 - 48) as usize;
        assert(chars@.subrange(start as int, i + 1).drop_last() =~= chars@.subrange(
            start as int,
            i as int,
        ));
        if value > (usize::MAX - d) / 10 {
            assert(parse_usize_seq(s@) is None) by {
                if all_digits(body) {
                    lemma_digits_value_monotone(body, (i + 1 - start) as int);
                    assert(body.subrange(0, (i + 1 - start) as int) =~= chars@.subrange(
                        start as int,
                        i + 1,
                    ));
                    assert(value * 10 + d > usize::MAX) by (nonlinear_arith)
                        requires
                            value > (usize::MAX - d) / 10,
                            d <= 9,
                    ;
                }
            }
            return None;
        }
        value = value * 10 + d;
        i = i + 1;
    }
    assert(chars@.subrange(start as int, i as int) =~= body);
    Some(value)
}


/// The views of a list of strings.
pub open spec fn views(v: Seq<String>) -> Seq<Seq<char>> {
    v.map_values(|x: String| x@)
}

/// The word `cur` as a list of at most one word.
pub open spec fn word_list(cur: Seq<char>) -> Seq<Seq<char>> {
    if cur.len() > 0 {
        seq![cur]
    } else {
        seq![]
    }
}

/// Maximal runs of non-white-space characters of `s`, the first one prefixed by `cur`.
pub open spec fn words_from(s: Seq<char>, cur: Seq<char>) -> Seq<Seq<char>>
    decreases s.len(),
{
    if s.len() == 0 {
        word_list(cur)
    } else if is_ws(s[0]) {
        word_list(cur) + words_from(s.drop_first(), seq![])
    } else {
        words_from(s.drop_first(), cur.push(s[0]))
    }
}

/// The words of `s` (`str::split_whitespace`).
pub open spec fn words(s: Seq<char>) -> Seq<Seq<char>> {
    words_from(s, seq![])
}

/// Splits `s` at white space, dropping empty pieces (`str::split_whitespace`).
pub fn split_whitespace(s: &str) -> (res: Vec<String>)
    ensures
        views(res@) == words(s@),
{
    let chars = chars_of(s);
    let mut res: Vec<String> = Vec::new();
    let mut cur: Vec<char> = Vec::new();
    let mut i: usize = 0;
    assert(chars@.subrange(0, chars@.len() as int) =~= s@);
    assert(views(res@) =~= Seq::<Seq<char>>::empty());
    assert(cur@ =~= Seq::<char>::empty());
    assert(views(res@) + words(s@) =~= words(s@));
    while i < chars.len()
        invariant
            chars@ == s@,
            i <= chars@.len(),
            views(res@) + words_from(chars@.subrange(i as int, chars@.len() as int), cur@)
                == words(s@),
        decreases chars@.len() - i,
    {
        let ghost rest = chars@.subrange(i as int, chars@.len() as int);
        assert(rest.drop_first() =~= chars@.subrange(i + 1, chars@.len() as int));
        let c = chars[i];
        if is_whitespace(c) {
            let ghost old_res = res@;
            if cur.len() > 0 {
                let w = string_from_chars(cur.as_slice());
                res.push(w);
                assert(views(res@) =~= views(old_res).push(cur@));
            }
            assert(views(res@) + words_from(rest.drop_first(), seq![]) =~= views(old_res) + (
            word_list(cur@) + words_from(rest.drop_first(), seq![])));
            cur = Vec::new();
        } else {
            cur.push(c);
        }
        i = i + 1;
    }
    let ghost old_res = res@;
    if cur.len() > 0 {
        let w = string_from_chars(cur.as_slice());
        res.push(w);
        assert(views(res@) =~= views(old_res).push(cur@));
    }
    assert(chars@.subrange(i as int, chars@.len() as int) =~= Seq::<char>::empty());
    assert(views(res@) =~= views(old_res) + word_list(cur@));
    res
}

/// The pieces of `list` joined with `sep` between neighbours (`[String]::join`).
pub open spec fn join_seq(list: Seq<Seq<char>>, sep: Seq<char>) -> Seq<char>
    decreases list.len(),
{
    if list.len() == 0 {
        seq![]
    } else if list.len() == 1 {
        list[0]
    } else {
        join_seq(list.drop_last(), sep) + sep + list.last()
    }
}

/// Joins `list` with `sep` between neighbours.
pub fn join(list: &Vec<String>, sep: &str) -> (res: String)
    ensures
        res@ == join_seq(views(list@), sep@),
{
    let mut res = String::new();
    let mut i: usize = 0;
    while i < list.len()
        invariant
            i <= list@.len(),
            res@ == join_seq(views(list@.subrange(0, i as int)), sep@),
        decreases list@.len() - i,
    {
        let ghost prev = views(list@.subrange(0, i as int));
        assert(views(list@.subrange(0, i + 1)).drop_last() =~= prev);
        if i > 0 {
            res.append(sep);
        }
        res.append(list[i].as_str());
        i = i + 1;
        assert(views(list@.subrange(0, i as int)).last() == list@[i - 1]@);
        assert(res@ =~= join_seq(views(list@.subrange(0, i as int)), sep@));
    }
    assert(list@.subrange(0, i as int) =~= list@);
    res
}

/// `s` with every `from` replaced by `to` (`str::replace` with a character pattern).
pub open spec fn replace_seq(s: Seq<char>, from: char, to: Seq<char>) -> Seq<char>
    decreases s.len(),
{
    if s.len() == 0 {
        seq![]
    } else {
        replace_seq(s.drop_last(), from, to) + (if s.last() == from {
            to
        } else {
            seq![s.last()]
        })
    }
}

/// Replaces every `from` in `s` by `to`.
pub fn replace_char(s: &str, from: char, to: &str) -> (res: String)
    ensures
        res@ == replace_seq(s@, from, to@),
{
    let chars = chars_of(s);
    let mut res = String::new();
    let mut i: usize = 0;
    while i < chars.len()
        invariant
            chars@ == s@,
            i <= chars@.len(),
            res@ == replace_seq(s@.subrange(0, i as int), from, to@),
        decreases chars@.len() - i,
    {
        assert(s@.subrange(0, i + 1).drop_last() =~= s@.subrange(0, i as int));
        if chars[i] == from {
            res.append(to);
        } else {
            push_char(&mut res, chars[i]);
        }
        i = i + 1;
        assert(res@ =~= replace_seq(s@.subrange(0, i as int), from, to@));
    }
    assert(s@.subrange(0, i as int) =~= s@);
    res
}


/// Start of `chars[lo..hi]` once its leading white space is skipped.
pub fn trim_start_range(chars: &Vec<char>, lo: usize, hi: usize) -> (res: usize)
    requires
        lo <= hi <= chars@.len(),
    ensures
        lo <= res <= hi,
        chars@.subrange(res as int, hi as int) == trim_start_seq(
            chars@.subrange(lo as int, hi as int),
        ),
{
    let mut i = lo;
    while i < hi && is_whitespace(chars[i])
        invariant
            lo <= i <= hi <= chars@.len(),
            trim_start_seq(chars@.subrange(lo as int, hi as int)) == trim_start_seq(
                chars@.subrange(i as int, hi as int),
            ),
        decreases hi - i,
    {
        assert(chars@.subrange(i as int, hi as int).drop_first() =~= chars@.subrange(
            i + 1,
            hi as int,
        ));
        i = i + 1;
    }
    i
}

/// End of `chars[lo..hi]` once its trailing white space is dropped.
pub fn trim_end_range(chars: &Vec<char>, lo: usize, hi: usize) -> (res: usize)
    requires
        lo <= hi <= chars@.len(),
    ensures
        lo <= res <= hi,
        chars@.subrange(lo as int, res as int) == trim_end_seq(
            chars@.subrange(lo as int, hi as int),
        ),
{
    let mut j = hi;
    while j > lo && is_whitespace(chars[j - 1])
        invariant
            lo <= j <= hi <= chars@.len(),
            trim_end_seq(chars@.subrange(lo as int, hi as int)) == trim_end_seq(
                chars@.subrange(lo as int, j as int),
            ),
        decreases j,
    {
        assert(chars@.subrange(lo as int, j as int).drop_last() =~= chars@.subrange(
            lo as int,
            j - 1,
        ));
        j = j - 1;
    }
    j
}


/// `s` with leading white space removed (`str::trim_start`).
pub fn trim_start(s: &str) -> (res: String)
    ensures
        res@ == trim_start_seq(s@),
{
    let chars = chars_of(s);
    let lo = trim_start_range(&chars, 0, chars.len());
    assert(chars@.subrange(0, chars@.len() as int) =~= chars@);
    string_from_range(&chars, lo, chars.len())
}

/// `s` with trailing white space removed (`str::trim_end`).
pub fn trim_end(s: &str) -> (res: String)
    ensures
        res@ == trim_end_seq(s@),
{
    let chars = chars_of(s);
    let hi = trim_end_range(&chars, 0, chars.len());
    assert(chars@.subrange(0, chars@.len() as int) =~= chars@);
    string_from_range(&chars, 0, hi)
}

/// Concatenation of two strings.
pub fn concat2(a: &str, b: &str) -> (res: String)
    ensures
        res@ == a@ + b@,
{
    let mut s = String::new();
    s.append(a);
    s.append(b);
    assert(s@ =~= a@ + b@);
    s
}

/// Concatenation of three strings.
pub fn concat3(a: &str, b: &str, c: &str) -> (res: String)
    ensures
        res@ == a@ + b@ + c@,
{
    let mut s = String::new();
    s.append(a);
    s.append(b);
    s.append(c);
    assert(s@ =~= a@ + b@ + c@);
    s
}

/// The canonical form of a typed keyword: trimmed, ASCII lower case, `-` read as `_`.
pub open spec fn keyword_form(value: Seq<char>) -> Seq<char> {
    replace_seq(lower_seq(trim_seq(value)), '-', "_"@)
}

/// The canonical form of a typed keyword.
pub fn keyword_form_of(value: &str) -> (res: String)
    ensures
        res@ == keyword_form(value@),
{
    let lowered = to_ascii_lowercase(trim(value).as_str());
    replace_char(lowered.as_str(), '-', "_")
}

/// `s` without any leading `c` (`str::trim_start_matches` with a character).
pub open spec fn strip_leading(s: Seq<char>, c: char) -> Seq<char>
    decreases s.len(),
{
    if s.len() > 0 && s[0] == c {
        strip_leading(s.drop_first(), c)
    } else {
        s
    }
}

/// `s` without any leading `c`.
pub fn trim_start_char(s: &str, c: char) -> (res: String)
    ensures
        res@ == strip_leading(s@, c),
{
    let chars = chars_of(s);
    let mut i: usize = 0;
    assert(chars@.subrange(0, chars@.len() as int) =~= chars@);
    while i < chars.len() && chars[i] == c
        invariant
            chars@ == s@,
            i <= chars@.len(),
            strip_leading(chars@.subrange(i as int, chars@.len() as int), c) == strip_leading(s@, c),
        decreases chars@.len() - i,
    {
        assert(chars@.subrange(i as int, chars@.len() as int).drop_first() =~= chars@.subrange(
            i + 1,
            chars@.len() as int,
        ));
        i = i + 1;
    }
    string_from_range(&chars, i, chars.len())
}

/// `s` without any trailing `c` (`str::trim_end_matches` with a character).
pub open spec fn strip_trailing(s: Seq<char>, c: char) -> Seq<char>
    decreases s.len(),
{
    if s.len() > 0 && s.last() == c {
        strip_trailing(s.drop_last(), c)
    } else {
        s
    }
}

/// `s` without any trailing `c`.
pub fn trim_end_char(s: &str, c: char) -> (res: String)
    ensures
        res@ == strip_trailing(s@, c),
{
    let chars = chars_of(s);
    let mut j: usize = chars.len();
    assert(chars@.subrange(0, j as int) =~= chars@);
    while j > 0 && chars[j - 1] == c
        invariant
            chars@ == s@,
            j <= chars@.len(),
            strip_trailing(chars@.subrange(0, j as int), c) == strip_trailing(s@, c),
        decreases j,
    {
        assert(chars@.subrange(0, j as int).drop_last() =~= chars@.subrange(0, j - 1));
        j = j - 1;
    }
    string_from_range(&chars, 0, j)
}

/// Whether `pat` occurs in `s` (`str::contains` with a string pattern).
pub open spec fn has_substring(s: Seq<char>, pat: Seq<char>) -> bool {
    exists|i: int| 0 <= i && i + pat.len() <= s.len() && #[trigger] s.subrange(i, i + pat.len()) == pat
}

fn matches_at(s: &Vec<char>, pat: &Vec<char>, i: usize) -> (res: bool)
    requires
        i + pat@.len() <= s@.len(),
    ensures
        res == (s@.subrange(i as int, i + pat@.len()) == pat@),
{
    let mut j: usize = 0;
    while j < pat.len()
        invariant
            i + pat@.len() <= s@.len(),
            j <= pat@.len(),
            forall|k: int| 0 <= k < j ==> s@[i + k] == pat@[k],
        decreases pat@.len() - j,
    {
        let n = s.len();
        assert(i + j < n);
        if s[i + j] != pat[j] {
            assert(s@.subrange(i as int, i + pat@.len())[j as int] != pat@[j as int]);
            return false;
        }
        j = j + 1;
    }
    assert(s@.subrange(i as int, i + pat@.len()) =~= pat@);
    true
}

/// Whether `pat` occurs in `s`.
pub fn contains_str(s: &str, pat: &str) -> (res: bool)
    ensures
        res == has_substring(s@, pat@),
{
    let sc = chars_of(s);
    let pc = chars_of(pat);
    if pc.len() > sc.len() {
        return false;
    }
    let last = sc.len() - pc.len();
    let mut i: usize = 0;
    loop
        invariant
            sc@ == s@,
            pc@ == pat@,
            last == sc@.len() - pc@.len(),
            pc@.len() <= sc@.len(),
            i <= last,
            forall|k: int| 0 <= k < i ==> #[trigger] s@.subrange(k, k + pat@.len()) != pat@,
        decreases last - i,
    {
        if matches_at(&sc, &pc, i) {
            return true;
        }
        if i == last {
            assert(!has_substring(s@, pat@)) by {
                if has_substring(s@, pat@) {
                    let k = choose|k: int|
                        0 <= k && k + pat@.len() <= s@.len() && #[trigger] s@.subrange(
                            k,
                            k + pat@.len(),
                        ) == pat@;
                    assert(k <= last);
                }
            }
            return false;
        }
        i = i + 1;
    }
}


/// The first position at or after `k` where `pat` occurs in `s`.
pub open spec fn find_from(s: Seq<char>, pat: Seq<char>, k: nat) -> Option<nat>
    decreases s.len() + 1 - k,
{
    if k + pat.len() > s.len() {
        None
    } else if s.subrange(k as int, (k + pat.len()) as int) == pat {
        Some(k)
    } else {
        find_from(s, pat, k + 1)
    }
}

/// A position `find_from` reports holds an occurrence of `pat`, at or after `k`.
pub proof fn lemma_find_from_found(s: Seq<char>, pat: Seq<char>, k: nat)
    ensures
        find_from(s, pat, k) matches Some(m) ==> k <= m && m + pat.len() <= s.len()
            && s.subrange(m as int, (m + pat.len()) as int) == pat,
    decreases s.len() + 1 - k,
{
    if k + pat.len() <= s.len() && s.subrange(k as int, (k + pat.len()) as int) != pat {
        lemma_find_from_found(s, pat, k + 1);
    }
}

/// The first position where `pat` occurs in `s` (`str::find`, counted in characters).
pub fn find_str(s: &str, pat: &str) -> (res: Option<usize>)
    ensures
        match res {
            Some(i) => find_from(s@, pat@, 0) == Some(i as nat),
            None => find_from(s@, pat@, 0) is None,
        },
{
    let sc = chars_of(s);
    let pc = chars_of(pat);
    if pc.len() > sc.len() {
        return None;
    }
    let last = sc.len() - pc.len();
    let mut i: usize = 0;
    loop
        invariant
            sc@ == s@,
            pc@ == pat@,
            last == sc@.len() - pc@.len(),
            i <= last,
            find_from(s@, pat@, 0) == find_from(s@, pat@, i as nat),
        decreases last - i,
    {
        if matches_at(&sc, &pc, i) {
            return Some(i);
        }
        if i == last {
            assert(find_from(s@, pat@, (i + 1) as nat) is None);
            return None;
        }
        i = i + 1;
    }
}

/// Whether `s` ends with `suffix`.
pub open spec fn has_suffix(s: Seq<char>, suffix: Seq<char>) -> bool {
    suffix.len() <= s.len() && s.subrange(s.len() - suffix.len(), s.len() as int) == suffix
}

/// `s` with every trailing copy of `suffix` removed (`str::trim_end_matches`).
pub open spec fn strip_all_suffix(s: Seq<char>, suffix: Seq<char>) -> Seq<char>
    decreases s.len(),
{
    if suffix.len() > 0 && has_suffix(s, suffix) {
        strip_all_suffix(s.subrange(0, s.len() - suffix.len()), suffix)
    } else {
        s
    }
}

/// `s` with every trailing copy of `suffix` removed.
pub fn trim_end_matches_str(s: &str, suffix: &str) -> (res: String)
    ensures
        res@ == strip_all_suffix(s@, suffix@),
{
    let sc = chars_of(s);
    let pc = chars_of(suffix);
    let mut end: usize = sc.len();
    assert(sc@.subrange(0, end as int) =~= s@);
    if pc.len() > 0 {
        while pc.len() <= end && matches_at(&sc, &pc, end - pc.len())
            invariant
                sc@ == s@,
                pc@ == suffix@,
                pc@.len() > 0,
                end <= sc@.len(),
                strip_all_suffix(sc@.subrange(0, end as int), pc@) == strip_all_suffix(s@, suffix@),
            decreases end,
        {
            let ghost cur = sc@.subrange(0, end as int);
            assert(cur.subrange(cur.len() - pc@.len(), cur.len() as int) =~= sc@.subrange(
                end - pc@.len(),
                end as int,
            ));
            assert(cur.subrange(0, cur.len() - pc@.len()) =~= sc@.subrange(0, end - pc@.len()));
            end = end - pc.len();
        }
        let ghost cur = sc@.subrange(0, end as int);
        if pc.len() <= end {
            assert(cur.subrange(cur.len() - pc@.len(), cur.len() as int) =~= sc@.subrange(
                end - pc@.len(),
                end as int,
            ));
        }
    } else {
        assert(sc@.subrange(0, end as int) =~= s@);
    }
    string_from_range(&sc, 0, end)
}

/// Whether `a` comes before `b` in code-point order (the order of `str`'s `<`).
pub open spec fn text_less(a: Seq<char>, b: Seq<char>) -> bool
    decreases a.len(),
{
    if a.len() == 0 {
        b.len() > 0
    } else if b.len() == 0 {
        false
    } else if a[0] != b[0] {
        a[0] < b[0]
    } else {
        text_less(a.drop_first(), b.drop_first())
    }
}

/// Code-point order is transitive.
pub proof fn lemma_text_less_transitive(a: Seq<char>, b: Seq<char>, c: Seq<char>)
    requires
        text_less(a, b),
        text_less(b, c),
    ensures
        text_less(a, c),
    decreases a.len(),
{
    if a.len() > 0 && b.len() > 0 && c.len() > 0 && a[0] == b[0] && b[0] == c[0] {
        lemma_text_less_transitive(a.drop_first(), b.drop_first(), c.drop_first());
    }
}

/// Code-point order is asymmetric.
pub proof fn lemma_text_less_asymmetric(a: Seq<char>, b: Seq<char>)
    requires
        text_less(a, b),
    ensures
        !text_less(b, a),
    decreases a.len(),
{
    if a.len() > 0 && b.len() > 0 && a[0] == b[0] {
        lemma_text_less_asymmetric(a.drop_first(), b.drop_first());
    }
}

/// Code-point order is total: of two different texts, one comes first.
pub proof fn lemma_text_less_total(a: Seq<char>, b: Seq<char>)
    requires
        a != b,
    ensures
        text_less(a, b) || text_less(b, a),
    decreases a.len(),
{
    if a.len() == 0 && b.len() == 0 {
        assert(a =~= b);
    }
    if a.len() > 0 && b.len() > 0 && a[0] == b[0] {
        if a.drop_first() == b.drop_first() {
            assert(a =~= seq![a[0]] + a.drop_first());
            assert(b =~= seq![b[0]] + b.drop_first());
        }
        lemma_text_less_total(a.drop_first(), b.drop_first());
    }
}

/// Whether `a` comes before `b` in code-point order.
pub fn str_less(a: &str, b: &str) -> (res: bool)
    ensures
        res == text_less(a@, b@),
{
    let ac = chars_of(a);
    let bc = chars_of(b);
    let mut i: usize = 0;
    assert(a@.skip(0) =~= a@);
    assert(b@.skip(0) =~= b@);
    loop
        invariant
            ac@ == a@,
            bc@ == b@,
            i <= ac@.len(),
            i <= bc@.len(),
            text_less(a@, b@) == text_less(a@.skip(i as int), b@.skip(i as int)),
        decreases ac@.len() - i,
    {
        let ghost sa = a@.skip(i as int);
        let ghost sb = b@.skip(i as int);
        if i == ac.len() {
            return i < bc.len();
        }
        if i == bc.len() {
            return false;
        }
        let x = ac[i];
        let y = bc[i];
        assert(sa[0] == x && sb[0] == y);
        if x != y {
            return x < y;
        }
        assert(sa.drop_first() =~= a@.skip(i + 1));
        assert(sb.drop_first() =~= b@.skip(i + 1));
        i = i + 1;
    }
}

/// Whether a character is a lower-case ASCII letter, a digit or `_`.
pub open spec fn plain_keyword_char(c: char) -> bool {
    ('a' <= c && c <= 'z') || ('0' <= c && c <= '9') || c == '_'
}

proof fn lemma_replace_absent(s: Seq<char>, from: char, to: Seq<char>)
    requires
        forall|i: int| 0 <= i < s.len() ==> s[i] != from,
    ensures
        replace_seq(s, from, to) == s,
    decreases s.len(),
{
    if s.len() > 0 {
        lemma_replace_absent(s.drop_last(), from, to);
        assert(s.drop_last() + seq![s.last()] =~= s);
    }
}

/// A word of lower-case letters, digits and `_` is its own keyword form.
pub proof fn lemma_keyword_form_of_plain(s: Seq<char>)
    requires
        forall|i: int| 0 <= i < s.len() ==> plain_keyword_char(#[trigger] s[i]),
    ensures
        keyword_form(s) == s,
{
    if s.len() > 0 {
        assert(!is_ws(s[0]) && !is_ws(s.last())) by {
            let a = s[0];
            let b = s.last();
            assert(plain_keyword_char(a) && plain_keyword_char(b));
            assert(('a' as u32) == 0x61 && ('z' as u32) == 0x7a && ('0' as u32) == 0x30 && ('9' as u32) == 0x39 && ('_' as u32) == 0x5f);
        }
    }
    assert(trim_start_seq(s) == s);
    assert(trim_end_seq(s) == s);
    assert(lower_seq(s) =~= s);
    lemma_replace_absent(s, '-', "_"@);
}

} // verus!
