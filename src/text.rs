//! Character-level text helpers: trimming, case folding, truncation and the
//! extraction of a structured payload from an agent's free-text reply.
use vstd::prelude::*;

verus! {

/// Relies on `str::chars`: the characters of the string, in order.
#[verifier::external_body]
pub(crate) fn chars_of(s: &str) -> (r: Vec<char>)
    ensures
        r@ == s@,
{
    s.chars().collect()
}

/// Relies on collecting characters into a `String`: the same characters, in order.
#[verifier::external_body]
pub(crate) fn string_of(v: &Vec<char>) -> (r: String)
    ensures
        r@ == v@,
{
    v.iter().collect()
}

/// The characters with the Unicode `White_Space` property.
pub open spec fn is_ws(c: char) -> bool {
    ('\u{9}' <= c && c <= '\u{d}') || c == ' ' || c == '\u{85}' || c == '\u{a0}' || c == '\u{1680}'
        || ('\u{2000}' <= c && c <= '\u{200a}') || c == '\u{2028}' || c == '\u{2029}' || c
        == '\u{202f}' || c == '\u{205f}' || c == '\u{3000}'
}

pub fn is_white_space(c: char) -> (r: bool)
    ensures
        r == is_ws(c),
{
    ('\u{9}' <= c && c <= '\u{d}') || c == ' ' || c == '\u{85}' || c == '\u{a0}' || c == '\u{1680}'
        || ('\u{2000}' <= c && c <= '\u{200a}') || c == '\u{2028}' || c == '\u{2029}' || c
        == '\u{202f}' || c == '\u{205f}' || c == '\u{3000}'
}

pub open spec fn trim_start_spec(s: Seq<char>) -> Seq<char>
    decreases s.len(),
{
    if s.len() > 0 && is_ws(s[0]) {
        trim_start_spec(s.drop_first())
    } else {
        s
    }
}

pub open spec fn trim_end_spec(s: Seq<char>) -> Seq<char>
    decreases s.len(),
{
    if s.len() > 0 && is_ws(s.last()) {
        trim_end_spec(s.drop_last())
    } else {
        s
    }
}

/// `s` without its leading and trailing white space.
pub open spec fn trim_spec(s: Seq<char>) -> Seq<char> {
    trim_end_spec(trim_start_spec(s))
}

pub open spec fn is_ascii_upper(c: char) -> bool {
    'A' <= c && c <= 'Z'
}

pub open spec fn is_ascii_lower(c: char) -> bool {
    'a' <= c && c <= 'z'
}

pub open spec fn lower_char(c: char) -> char {
    if is_ascii_upper(c) {
        ((c as u32) + 32) as char
    } else {
        c
    }
}

pub open spec fn upper_char(c: char) -> char {
    if is_ascii_lower(c) {
        ((c as u32) - 32) as char
    } else {
        c
    }
}

/// ASCII letters folded to lower case, every other character kept.
pub open spec fn ascii_lower_spec(s: Seq<char>) -> Seq<char> {
    Seq::new(s.len(), |i: int| lower_char(s[i]))
}

/// The form in which an alias is compared: trimmed, ASCII letters in lower case.
pub open spec fn alias_key(s: Seq<char>) -> Seq<char> {
    ascii_lower_spec(trim_spec(s))
}

fn to_lower_ascii_char(c: char) -> (r: char)
    ensures
        r == lower_char(c),
{
    if 'A' <= c && c <= 'Z' {
        ((c as u8) + 32) as char
    } else {
        c
    }
}

fn to_upper_ascii_char(c: char) -> (r: char)
    ensures
        r == upper_char(c),
{
    if 'a' <= c && c <= 'z' {
        ((c as u8) - 32) as char
    } else {
        c
    }
}

proof fn lemma_trim_start_skip(s: Seq<char>, i: int)
    requires
        0 <= i <= s.len(),
        forall|k: int| 0 <= k < i ==> is_ws(#[trigger] s[k]),
    ensures
        trim_start_spec(s) == trim_start_spec(s.subrange(i, s.len() as int)),
    decreases i,
{
    if i > 0 {
        assert(s.drop_first() == s.subrange(1, s.len() as int));
        lemma_trim_start_skip(s.drop_first(), i - 1);
        assert(s.drop_first().subrange(i - 1, s.drop_first().len() as int) == s.subrange(
            i,
            s.len() as int,
        ));
    } else {
        assert(s.subrange(0, s.len() as int) == s);
    }
}

proof fn lemma_trim_end_skip(s: Seq<char>, j: int)
    requires
        0 <= j <= s.len(),
        forall|k: int| j <= k < s.len() ==> is_ws(#[trigger] s[k]),
    ensures
        trim_end_spec(s) == trim_end_spec(s.subrange(0, j)),
    decreases s.len() - j,
{
    if j < s.len() {
        assert(s.drop_last() == s.subrange(0, s.len() - 1));
        lemma_trim_end_skip(s.drop_last(), j);
        assert(s.drop_last().subrange(0, j) == s.subrange(0, j));
    } else {
        assert(s.subrange(0, s.len() as int) == s);
    }
}

/// The trimmed characters of `v`.
pub fn trim_chars(v: &Vec<char>) -> (r: Vec<char>)
    ensures
        r@ == trim_spec(v@),
{
    let n = v.len();
    let mut i: usize = 0;
    while i < n && is_white_space(v[i])
        invariant
            i <= n == v@.len(),
            forall|k: int| 0 <= k < i ==> is_ws(#[trigger] v@[k]),
        decreases n - i,
    {
        i = i + 1;
    }
    proof {
        lemma_trim_start_skip(v@, i as int);
    }
    let mut j: usize = n;
    while j > i && is_white_space(v[j - 1])
        invariant
            i <= j <= n == v@.len(),
            forall|k: int| j <= k < n ==> is_ws(#[trigger] v@[k]),
        decreases j,
    {
        j = j - 1;
    }
    let ghost mid = v@.subrange(i as int, n as int);
    proof {
        assert forall|k: int| (j - i) <= k < mid.len() implies is_ws(#[trigger] mid[k]) by {
            assert(mid[k] == v@[k + i]);
        }
        lemma_trim_end_skip(mid, j - i);
        assert(mid.subrange(0, j - i) == v@.subrange(i as int, j as int));
        if i < j {
            assert(!is_ws(v@[i as int]));
            assert(trim_start_spec(mid) == mid);
        } else {
            assert(i == n || !is_ws(v@[i as int]));
            assert(trim_start_spec(mid) == mid);
        }
        let t = v@.subrange(i as int, j as int);
        if t.len() > 0 {
            assert(t.last() == v@[j - 1]);
        }
        assert(trim_end_spec(t) == t);
    }
    let mut r: Vec<char> = Vec::new();
    let mut k: usize = i;
    while k < j
        invariant
            i <= k <= j <= n == v@.len(),
            r@ == v@.subrange(i as int, k as int),
        decreases j - k,
    {
        r.push(v[k]);
        assert(v@.subrange(i as int, k + 1) == v@.subrange(i as int, k as int).push(v@[k as int]));
        k = k + 1;
    }
    r
}

/// `s` without leading and trailing white space.
pub fn trim(s: &str) -> (r: String)
    ensures
        r@ == trim_spec(s@),
{
    let v = chars_of(s);
    let t = trim_chars(&v);
    string_of(&t)
}

pub fn ascii_lower_chars(v: &Vec<char>) -> (r: Vec<char>)
    ensures
        r@ == ascii_lower_spec(v@),
{
    let mut r: Vec<char> = Vec::new();
    let mut i: usize = 0;
    while i < v.len()
        invariant
            i <= v@.len(),
            r@.len() == i,
            forall|k: int| 0 <= k < i ==> #[trigger] r@[k] == lower_char(v@[k]),
        decreases v@.len() - i,
    {
        r.push(to_lower_ascii_char(v[i]));
        i = i + 1;
    }
    assert(r@ == ascii_lower_spec(v@));
    r
}

/// Folds an alias to the form in which it is compared.
pub fn normalize_alias(input: &str) -> (r: String)
    ensures
        r@ == alias_key(input@),
{
    let v = chars_of(input);
    let t = trim_chars(&v);
    let l = ascii_lower_chars(&t);
    string_of(&l)
}


/// The first index at or after `i` that holds `c`, or the length when none does.
pub open spec fn first_from(s: Seq<char>, c: char, i: int) -> int
    decreases s.len() - i,
{
    if i >= s.len() {
        s.len() as int
    } else if s[i] == c {
        i
    } else {
        first_from(s, c, i + 1)
    }
}

/// The last index before `j` that holds `c`, or -1 when none does.
pub open spec fn last_before(s: Seq<char>, c: char, j: int) -> int
    decreases j,
{
    if j <= 0 {
        -1
    } else if s[j - 1] == c {
        j - 1
    } else {
        last_before(s, c, j - 1)
    }
}

pub proof fn lemma_first_from_bounds(s: Seq<char>, c: char, i: int)
    requires
        0 <= i <= s.len(),
    ensures
        i <= first_from(s, c, i) <= s.len(),
        first_from(s, c, i) < s.len() ==> s[first_from(s, c, i)] == c,
        forall|k: int| i <= k < first_from(s, c, i) ==> s[k] != c,
    decreases s.len() - i,
{
    if i < s.len() && s[i] != c {
        lemma_first_from_bounds(s, c, i + 1);
    }
}

/// The index of the first `c` at or after `i`, or the length when there is none.
pub fn find_from(v: &Vec<char>, c: char, i: usize) -> (r: usize)
    requires
        i <= v@.len(),
    ensures
        r == first_from(v@, c, i as int),
{
    let mut k: usize = i;
    while k < v.len() && v[k] != c
        invariant
            i <= k <= v@.len(),
            first_from(v@, c, i as int) == first_from(v@, c, k as int),
        decreases v@.len() - k,
    {
        k = k + 1;
    }
    k
}

/// The index of the last `c` before `j`, if any.
pub fn rfind_before(v: &Vec<char>, c: char, j: usize) -> (r: Option<usize>)
    requires
        j <= v@.len(),
    ensures
        r is Some <==> last_before(v@, c, j as int) >= 0,
        r is Some ==> r->0 == last_before(v@, c, j as int) && r->0 < j,
{
    let mut k: usize = j;
    while k > 0 && v[k - 1] != c
        invariant
            k <= j <= v@.len(),
            last_before(v@, c, j as int) == last_before(v@, c, k as int),
        decreases k,
    {
        k = k - 1;
    }
    if k == 0 {
        None
    } else {
        Some(k - 1)
    }
}

/// The object candidate of a reply: from its first `{` through its last `}`.
pub open spec fn json_object_candidate(s: Seq<char>) -> Option<Seq<char>> {
    let start = first_from(s, '{', 0);
    let end = last_before(s, '}', s.len() as int);
    if start >= s.len() || end < 0 || end <= start {
        None
    } else {
        Some(s.subrange(start, end + 1))
    }
}

/// The text from the first `{` through the last `}`, when the last follows the first.
pub fn extract_json_object(input: &str) -> (r: Option<&str>)
    ensures
        r is None <==> json_object_candidate(input@) is None,
        r is Some ==> json_object_candidate(input@) == Some(r->0@),
{
    let v = chars_of(input);
    let start = find_from(&v, '{', 0);
    proof {
        lemma_first_from_bounds(v@, '{', 0);
    }
    if start >= v.len() {
        return None;
    }
    match rfind_before(&v, '}', v.len()) {
        None => None,
        Some(end) => {
            if end <= start {
                None
            } else {
                Some(input.substring_char(start, end + 1))
            }
        },
    }
}

/// `s` cut to its first `max` characters, with `...` appended when anything was cut.
pub open spec fn truncate_spec(s: Seq<char>, max: nat) -> Seq<char> {
    if s.len() <= max {
        s
    } else {
        s.take(max as int) + "..."@
    }
}

pub fn truncate(s: &str, max: usize) -> (r: String)
    ensures
        r@ == truncate_spec(s@, max as nat),
{
    let n = s.unicode_len();
    if n <= max {
        return String::from_str(s);
    }
    let head = s.substring_char(0, max);
    let mut out = String::from_str(head);
    out.append("...");
    out
}

/// The line of `s` that runs from `i` to the line break at `k`, without a
/// carriage return that stands before that break.
pub open spec fn line_of(s: Seq<char>, i: int, k: int) -> Seq<char> {
    if k < s.len() && k > i && s[k - 1] == '\r' {
        s.subrange(i, k - 1)
    } else {
        s.subrange(i, k)
    }
}

/// The lines of `s` from index `i` on, split at `\n` (and `\r\n`); a break at the
/// very end opens no further line.
pub open spec fn split_lines_from(s: Seq<char>, i: int) -> Seq<Seq<char>>
    decreases s.len() - i,
{
    if i < 0 || i >= s.len() {
        seq![]
    } else {
        let f = first_from(s, '\n', i);
        let k = if f < i {
            i
        } else if f > s.len() {
            s.len() as int
        } else {
            f
        };
        if k >= s.len() {
            seq![line_of(s, i, k)]
        } else {
            seq![line_of(s, i, k)] + split_lines_from(s, k + 1)
        }
    }
}

pub open spec fn split_lines(s: Seq<char>) -> Seq<Seq<char>> {
    split_lines_from(s, 0)
}

pub open spec fn starts_with_fence(s: Seq<char>) -> bool {
    s.len() >= 3 && s[0] == '`' && s[1] == '`' && s[2] == '`'
}

/// The lines before the first one that opens with a fence (after leading blanks).
pub open spec fn take_until_fence(ls: Seq<Seq<char>>) -> Seq<Seq<char>>
    decreases ls.len(),
{
    if ls.len() == 0 || starts_with_fence(trim_start_spec(ls[0])) {
        seq![]
    } else {
        seq![ls[0]] + take_until_fence(ls.drop_first())
    }
}

/// The lines joined with `\n` between them.
pub open spec fn join_lines(ls: Seq<Seq<char>>) -> Seq<char>
    decreases ls.len(),
{
    if ls.len() == 0 {
        seq![]
    } else if ls.len() == 1 {
        ls[0]
    } else {
        ls[0] + seq!['\n'] + join_lines(ls.drop_first())
    }
}

/// A reply with its surrounding fenced code block removed: the trimmed text,
/// or, when it opens with a fence, the lines after the opening line up to the
/// closing fence.
pub open spec fn strip_fences_spec(raw: Seq<char>) -> Seq<char> {
    let t = trim_spec(raw);
    if !starts_with_fence(t) {
        t
    } else {
        trim_spec(join_lines(take_until_fence(split_lines(t).drop_first())))
    }
}

pub open spec fn views(ls: Seq<Vec<char>>) -> Seq<Seq<char>> {
    ls.map_values(|l: Vec<char>| l@)
}

pub(crate) fn copy_range(v: &Vec<char>, i: usize, k: usize) -> (r: Vec<char>)
    requires
        i <= k <= v@.len(),
    ensures
        r@ == v@.subrange(i as int, k as int),
{
    let mut r: Vec<char> = Vec::new();
    let mut j: usize = i;
    while j < k
        invariant
            i <= j <= k <= v@.len(),
            r@ == v@.subrange(i as int, j as int),
        decreases k - j,
    {
        r.push(v[j]);
        assert(v@.subrange(i as int, j + 1) == v@.subrange(i as int, j as int).push(v@[j as int]));
        j = j + 1;
    }
    r
}

proof fn lemma_split_step(s: Seq<char>, i: int)
    requires
        0 <= i < s.len(),
    ensures
        split_lines_from(s, i) == seq![
            line_of(s, i, first_from(s, '\n', i)),
        ] + split_lines_from(s, first_from(s, '\n', i) + 1),
{
    lemma_first_from_bounds(s, '\n', i);
}

/// The lines of `v`, as `str::lines` gives them.
pub fn split_lines_chars(v: &Vec<char>) -> (r: Vec<Vec<char>>)
    ensures
        views(r@) == split_lines(v@),
{
    let n = v.len();
    let mut out: Vec<Vec<char>> = Vec::new();
    let mut i: usize = 0;
    while i < n
        invariant
            n == v@.len(),
            i <= n,
            views(out@) + split_lines_from(v@, i as int) == split_lines(v@),
        decreases n - i,
    {
        let k = find_from(v, '\n', i);
        proof {
            lemma_first_from_bounds(v@, '\n', i as int);
            lemma_split_step(v@, i as int);
        }
        let line = if k < n && k > i && v[k - 1] == '\r' {
            copy_range(v, i, k - 1)
        } else {
            copy_range(v, i, k)
        };
        let ghost before = views(out@);
        out.push(line);
        proof {
            assert(views(out@) == before.push(line@));
            assert(before + split_lines_from(v@, i as int) == before.push(line@) + split_lines_from(
                v@,
                k + 1,
            ));
        }
        if k >= n {
            i = n;
            assert(split_lines_from(v@, k + 1) == Seq::<Seq<char>>::empty());
            assert(split_lines_from(v@, n as int) == Seq::<Seq<char>>::empty());
        } else {
            i = k + 1;
        }
    }
    assert(split_lines_from(v@, i as int) == Seq::<Seq<char>>::empty());
    assert(views(out@) + Seq::<Seq<char>>::empty() == views(out@));
    out
}

fn starts_with_fence_chars(v: &Vec<char>) -> (r: bool)
    ensures
        r == starts_with_fence(v@),
{
    v.len() >= 3 && v[0] == '`' && v[1] == '`' && v[2] == '`'
}

fn trim_start_chars(v: &Vec<char>) -> (r: Vec<char>)
    ensures
        r@ == trim_start_spec(v@),
{
    let n = v.len();
    let mut i: usize = 0;
    while i < n && is_white_space(v[i])
        invariant
            i <= n == v@.len(),
            forall|k: int| 0 <= k < i ==> is_ws(#[trigger] v@[k]),
        decreases n - i,
    {
        i = i + 1;
    }
    proof {
        lemma_trim_start_skip(v@, i as int);
    }
    copy_range(v, i, n)
}

proof fn lemma_take_until_fence_prefix(ls: Seq<Seq<char>>, m: int)
    requires
        0 <= m <= ls.len(),
        forall|k: int| 0 <= k < m ==> !starts_with_fence(trim_start_spec(#[trigger] ls[k])),
    ensures
        take_until_fence(ls) == ls.take(m) + take_until_fence(ls.skip(m)),
    decreases m,
{
    if m > 0 {
        lemma_take_until_fence_prefix(ls.drop_first(), m - 1);
        assert(ls.drop_first().take(m - 1) == ls.take(m).drop_first());
        assert(ls.drop_first().skip(m - 1) == ls.skip(m));
        assert(ls.take(m) == seq![ls[0]] + ls.take(m).drop_first());
    } else {
        assert(ls.take(0) == Seq::<Seq<char>>::empty());
        assert(ls.skip(0) == ls);
    }
}

proof fn lemma_join_push(ls: Seq<Seq<char>>, l: Seq<char>)
    requires
        ls.len() > 0,
    ensures
        join_lines(ls.push(l)) == join_lines(ls) + seq!['\n'] + l,
    decreases ls.len(),
{
    let p = ls.push(l);
    assert(p.len() >= 2);
    assert(p[0] == ls[0]);
    if ls.len() == 1 {
        assert(p.drop_first() == seq![l]);
        assert(join_lines(seq![l]) == l);
        assert(join_lines(ls) == ls[0]);
    } else {
        assert(p.drop_first() == ls.drop_first().push(l));
        lemma_join_push(ls.drop_first(), l);
        let j = join_lines(ls.drop_first());
        assert(join_lines(p) == ls[0] + seq!['\n'] + (j + seq!['\n'] + l));
        assert(join_lines(ls) == ls[0] + seq!['\n'] + j);
        assert(ls[0] + seq!['\n'] + (j + seq!['\n'] + l) =~= ls[0] + seq!['\n'] + j + seq!['\n'] + l);
    }
}

/// Removes a surrounding fenced code block from an agent's reply.
pub fn strip_fences(raw: &str) -> (r: String)
    ensures
        r@ == strip_fences_spec(raw@),
{
    let v = chars_of(raw);
    let t = trim_chars(&v);
    if !starts_with_fence_chars(&t) {
        return string_of(&t);
    }
    let lines = split_lines_chars(&t);
    let ghost ls = split_lines(t@).drop_first();
    let mut out: Vec<char> = Vec::new();
    let mut m: usize = 1;
    let mut done = false;
    while m < lines.len() && !done
        invariant
            1 <= m <= lines@.len(),
            views(lines@) == split_lines(t@),
            ls == split_lines(t@).drop_first(),
            done ==> m < lines@.len() && starts_with_fence(trim_start_spec(ls[m - 1])),
            forall|k: int| 0 <= k < m - 1 ==> !starts_with_fence(trim_start_spec(#[trigger] ls[k])),
            !done ==> out@ == join_lines(ls.take(m - 1)),
            done ==> out@ == join_lines(ls.take(m - 1)),
        decreases 2 * (lines@.len() - m) + (if done { 0int } else { 1int }),
    {
        let ts = trim_start_chars(&lines[m]);
        assert(ls[m - 1] == lines@[m as int]@);
        if starts_with_fence_chars(&ts) {
            done = true;
        } else {
            let ghost prev = ls.take(m - 1);
            assert(ls.take(m as int) == prev.push(ls[m - 1]));
            if m > 1 {
                proof {
                    lemma_join_push(prev, ls[m - 1]);
                }
                out.push('\n');
            } else {
                assert(ls.take(1) == seq![ls[0]]);
            }
            let mut j: usize = 0;
            let ghost base = out@;
            while j < lines[m].len()
                invariant
                    1 <= m < lines@.len(),
                    j <= lines@[m as int]@.len(),
                    out@ == base + lines@[m as int]@.take(j as int),
                decreases lines@[m as int]@.len() - j,
            {
                out.push(lines[m][j]);
                assert(lines@[m as int]@.take(j + 1) == lines@[m as int]@.take(j as int).push(
                    lines@[m as int]@[j as int],
                ));
                j = j + 1;
            }
            assert(lines@[m as int]@.take(j as int) == lines@[m as int]@);
            m = m + 1;
        }
    }
    proof {
        let taken = (m - 1) as int;
        lemma_take_until_fence_prefix(ls, taken);
        if done {
            assert(ls.skip(taken)[0] == ls[taken]);
            assert(take_until_fence(ls.skip(taken)) == Seq::<Seq<char>>::empty());
        } else {
            assert(ls.skip(taken).len() == 0);
            assert(take_until_fence(ls.skip(taken)) == Seq::<Seq<char>>::empty());
        }
        assert(ls.take(taken) + Seq::<Seq<char>>::empty() == ls.take(taken));
    }
    let r = trim_chars(&out);
    string_of(&r)
}


/// The upper-case mapping of a character, as `char::to_uppercase` yields it.
pub uninterp spec fn upper_of(c: char) -> Seq<char>;

/// Relies on `char::to_uppercase`: the mapping depends on the character alone;
/// an ASCII lower-case letter maps to its capital and any other ASCII character,
/// having no upper-case mapping, to itself.
#[verifier::external_body]
fn char_to_upper(c: char) -> (r: String)
    ensures
        r@ == upper_of(c),
        (c as u32) < 128 ==> r@ == seq![upper_char(c)],
{
    c.to_uppercase().collect()
}

/// A name with its first character in upper case; the fallback when it is blank.
pub open spec fn name_with_fallback_spec(input: Seq<char>, fallback: Seq<char>) -> Seq<char> {
    let t = trim_spec(input);
    if t.len() == 0 {
        fallback
    } else {
        upper_of(t[0]) + t.drop_first()
    }
}

pub fn normalize_name_with_fallback(input: &str, fallback: &str) -> (r: String)
    ensures
        r@ == name_with_fallback_spec(input@, fallback@),
{
    let v = chars_of(input);
    let t = trim_chars(&v);
    if t.len() == 0 {
        return String::from_str(fallback);
    }
    let head = char_to_upper(t[0]);
    let tail = copy_range(&t, 1, t.len());
    assert(tail@ == t@.drop_first());
    let tail_s = string_of(&tail);
    head.concat(tail_s.as_str())
}

pub fn normalize_display_name(input: &str) -> (r: String)
    ensures
        r@ == name_with_fallback_spec(input@, "Luna"@),
{
    normalize_name_with_fallback(input, "Luna")
}

pub open spec fn pronouns_spec(input: Seq<char>) -> Seq<char> {
    if trim_spec(input).len() == 0 {
        "they/them"@
    } else {
        trim_spec(input)
    }
}

pub fn normalize_pronouns(input: &str) -> (r: String)
    ensures
        r@ == pronouns_spec(input@),
{
    let t = trim(input);
    if t.unicode_len() == 0 {
        String::from_str("they/them")
    } else {
        t
    }
}

/// The number of leading characters of `s` that are not white space.
pub open spec fn word_len(s: Seq<char>) -> nat
    decreases s.len(),
{
    if s.len() == 0 || is_ws(s[0]) {
        0
    } else {
        1 + word_len(s.drop_first())
    }
}

/// The first white-space separated word of `s`, if it has one.
pub open spec fn first_word(s: Seq<char>) -> Option<Seq<char>> {
    let t = trim_start_spec(s);
    if t.len() == 0 {
        None
    } else {
        Some(t.take(word_len(t) as int))
    }
}

proof fn lemma_word_len_prefix(s: Seq<char>, i: int)
    requires
        0 <= i <= s.len(),
        forall|k: int| 0 <= k < i ==> !is_ws(#[trigger] s[k]),
    ensures
        word_len(s) == i + word_len(s.subrange(i, s.len() as int)),
    decreases i,
{
    if i > 0 {
        lemma_word_len_prefix(s.drop_first(), i - 1);
        assert(s.drop_first().subrange(i - 1, s.drop_first().len() as int) == s.subrange(
            i,
            s.len() as int,
        ));
    } else {
        assert(s.subrange(0, s.len() as int) == s);
    }
}

pub fn first_word_chars(v: &Vec<char>) -> (r: Option<Vec<char>>)
    ensures
        r is None <==> first_word(v@) is None,
        r is Some ==> first_word(v@) == Some(r->0@),
{
    let t = trim_start_chars(v);
    if t.len() == 0 {
        return None;
    }
    let mut k: usize = 0;
    while k < t.len() && !is_white_space(t[k])
        invariant
            k <= t@.len(),
            forall|j: int| 0 <= j < k ==> !is_ws(#[trigger] t@[j]),
        decreases t@.len() - k,
    {
        k = k + 1;
    }
    proof {
        lemma_word_len_prefix(t@, k as int);
        let rest = t@.subrange(k as int, t@.len() as int);
        if k < t@.len() {
            assert(rest[0] == t@[k as int]);
        }
        assert(word_len(rest) == 0);
    }
    let w = copy_range(&t, 0, k);
    assert(w@ == t@.take(k as int));
    Some(w)
}

/// The characters of `s` that are not plain spaces.
pub open spec fn without_spaces(s: Seq<char>) -> Seq<char>
    decreases s.len(),
{
    if s.len() == 0 {
        seq![]
    } else if s.last() == ' ' {
        without_spaces(s.drop_last())
    } else {
        without_spaces(s.drop_last()).push(s.last())
    }
}

pub fn remove_spaces(v: &Vec<char>) -> (r: Vec<char>)
    ensures
        r@ == without_spaces(v@),
{
    let mut r: Vec<char> = Vec::new();
    let mut i: usize = 0;
    while i < v.len()
        invariant
            i <= v@.len(),
            r@ == without_spaces(v@.take(i as int)),
        decreases v@.len() - i,
    {
        assert(v@.take(i + 1).drop_last() == v@.take(i as int));
        if v[i] != ' ' {
            r.push(v[i]);
        }
        i = i + 1;
    }
    assert(v@.take(v@.len() as int) == v@);
    r
}

pub open spec fn is_tag_char(c: char) -> bool {
    ('a' <= c && c <= 'z') || ('A' <= c && c <= 'Z') || ('0' <= c && c <= '9') || c == '_'
}

/// The ASCII letters, digits and underscores of `s`, in order.
pub open spec fn tag_chars(s: Seq<char>) -> Seq<char>
    decreases s.len(),
{
    if s.len() == 0 {
        seq![]
    } else if is_tag_char(s.last()) {
        tag_chars(s.drop_last()).push(s.last())
    } else {
        tag_chars(s.drop_last())
    }
}

/// The short tag shown in the human's input prompt: the first word of the name
/// reduced to ASCII letters, digits and underscores, with a capital first letter.
pub open spec fn prompt_tag_spec(name: Seq<char>) -> Seq<char> {
    let first = match first_word(name) {
        Some(w) => w,
        None => "player"@,
    };
    let compact = tag_chars(first);
    if compact.len() == 0 {
        "Player"@
    } else {
        seq![upper_char(compact[0])] + compact.drop_first()
    }
}

pub fn make_prompt_tag(name: &str) -> (r: String)
    ensures
        r@ == prompt_tag_spec(name@),
{
    let v = chars_of(name);
    let first = match first_word_chars(&v) {
        Some(w) => w,
        None => chars_of("player"),
    };
    let mut compact: Vec<char> = Vec::new();
    let mut i: usize = 0;
    while i < first.len()
        invariant
            i <= first@.len(),
            compact@ == tag_chars(first@.take(i as int)),
        decreases first@.len() - i,
    {
        assert(first@.take(i + 1).drop_last() == first@.take(i as int));
        let c = first[i];
        if ('a' <= c && c <= 'z') || ('A' <= c && c <= 'Z') || ('0' <= c && c <= '9') || c == '_' {
            compact.push(c);
        }
        i = i + 1;
    }
    assert(first@.take(first@.len() as int) == first@);
    if compact.len() == 0 {
        return String::from_str("Player");
    }
    let mut out: Vec<char> = Vec::new();
    out.push(to_upper_ascii_char(compact[0]));
    let mut j: usize = 1;
    while j < compact.len()
        invariant
            1 <= j <= compact@.len(),
            out@ == seq![upper_char(compact@[0])] + compact@.subrange(1, j as int),
        decreases compact@.len() - j,
    {
        out.push(compact[j]);
        assert(compact@.subrange(1, j + 1) == compact@.subrange(1, j as int).push(compact@[j as int]));
        j = j + 1;
    }
    assert(compact@.subrange(1, j as int) == compact@.drop_first());
    string_of(&out)
}


/// The pieces joined with `sep` between each two.
pub open spec fn join_with(ls: Seq<Seq<char>>, sep: Seq<char>) -> Seq<char>
    decreases ls.len(),
{
    if ls.len() == 0 {
        seq![]
    } else if ls.len() == 1 {
        ls[0]
    } else {
        ls[0] + sep + join_with(ls.drop_first(), sep)
    }
}

pub proof fn lemma_join_with_push(ls: Seq<Seq<char>>, sep: Seq<char>, l: Seq<char>)
    ensures
        join_with(ls.push(l), sep) == if ls.len() == 0 {
            l
        } else {
            join_with(ls, sep) + sep + l
        },
    decreases ls.len(),
{
    let p = ls.push(l);
    if ls.len() == 0 {
        assert(p == seq![l]);
    } else if ls.len() == 1 {
        assert(p.drop_first() == seq![l]);
        assert(join_with(seq![l], sep) == l);
    } else {
        assert(p.drop_first() == ls.drop_first().push(l));
        lemma_join_with_push(ls.drop_first(), sep, l);
        let j = join_with(ls.drop_first(), sep);
        assert(ls[0] + sep + (j + sep + l) =~= ls[0] + sep + j + sep + l);
    }
}

/// Joins the strings with `sep` between each two.
pub fn join_strings(parts: &Vec<String>, sep: &str) -> (r: String)
    ensures
        r@ == join_with(parts@.map_values(|p: String| p@), sep@),
{
    let ghost ps = parts@.map_values(|p: String| p@);
    let mut out = String::new();
    let mut i: usize = 0;
    while i < parts.len()
        invariant
            i <= parts@.len(),
            ps == parts@.map_values(|p: String| p@),
            out@ == join_with(ps.take(i as int), sep@),
        decreases parts@.len() - i,
    {
        proof {
            assert(ps.take(i + 1) == ps.take(i as int).push(ps[i as int]));
            lemma_join_with_push(ps.take(i as int), sep@, ps[i as int]);
        }
        if i > 0 {
            out.append(sep);
        } else {
            assert(ps.take(0) == Seq::<Seq<char>>::empty());
            assert(out@ == Seq::<char>::empty());
            assert(out@ + ps[0] == ps[0]);
        }
        out.append(parts[i].as_str());
        i = i + 1;
    }
    assert(ps.take(parts@.len() as int) == ps);
    out
}


pub open spec fn digit_char(d: int) -> char {
    if d == 0 {
        '0'
    } else if d == 1 {
        '1'
    } else if d == 2 {
        '2'
    } else if d == 3 {
        '3'
    } else if d == 4 {
        '4'
    } else if d == 5 {
        '5'
    } else if d == 6 {
        '6'
    } else if d == 7 {
        '7'
    } else if d == 8 {
        '8'
    } else {
        '9'
    }
}

/// The decimal digits of `n`, most significant first, without leading zeros.
pub open spec fn decimal_spec(n: nat) -> Seq<char>
    decreases n,
{
    if n < 10 {
        seq![digit_char(n as int)]
    } else {
        decimal_spec(n / 10).push(digit_char((n % 10) as int))
    }
}

fn digit(d: u64) -> (r: char)
    requires
        d < 10,
    ensures
        r == digit_char(d as int),
{
    if d == 0 {
        '0'
    } else if d == 1 {
        '1'
    } else if d == 2 {
        '2'
    } else if d == 3 {
        '3'
    } else if d == 4 {
        '4'
    } else if d == 5 {
        '5'
    } else if d == 6 {
        '6'
    } else if d == 7 {
        '7'
    } else if d == 8 {
        '8'
    } else {
        '9'
    }
}

/// `n` written in decimal.
pub fn decimal(n: u64) -> (r: String)
    ensures
        r@ == decimal_spec(n as nat),
{
    let mut rev: Vec<char> = Vec::new();
    let mut m: u64 = n;
    let ghost mut tail: Seq<char> = Seq::empty();
    while m >= 10
        invariant
            decimal_spec(n as nat) == decimal_spec(m as nat) + tail,
            rev@.len() == tail.len(),
            forall|k: int| 0 <= k < tail.len() ==> #[trigger] rev@[k] == tail[tail.len() - 1 - k],
        decreases m,
    {
        let d = digit(m % 10);
        proof {
            let t2 = seq![d] + tail;
            assert(decimal_spec(m as nat) == decimal_spec((m / 10) as nat).push(d));
            assert(decimal_spec((m / 10) as nat).push(d) + tail =~= decimal_spec((m / 10) as nat)
                + t2);
            tail = t2;
        }
        rev.push(d);
        m = m / 10;
    }
    let d0 = digit(m);
    proof {
        let t2 = seq![d0] + tail;
        assert(decimal_spec(m as nat) == seq![d0]);
        assert(seq![d0] + tail =~= t2);
        tail = t2;
    }
    rev.push(d0);
    let mut out: Vec<char> = Vec::new();
    let mut i: usize = rev.len();
    while i > 0
        invariant
            i <= rev@.len() == tail.len(),
            decimal_spec(n as nat) == tail,
            forall|k: int| 0 <= k < tail.len() ==> #[trigger] rev@[k] == tail[tail.len() - 1 - k],
            out@ == tail.take(tail.len() - i),
        decreases i,
    {
        i = i - 1;
        out.push(rev[i]);
        assert(tail.take(tail.len() - i) == tail.take(tail.len() - i - 1).push(
            tail[tail.len() - 1 - i],
        ));
    }
    assert(tail.take(tail.len() as int) == tail);
    string_of(&out)
}

} // verus!
