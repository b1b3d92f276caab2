//! The human participant's command line: control commands, whispers, and the
//! small choices made while setting up a campaign.
use vstd::prelude::*;
use crate::text::{
    ascii_lower_chars, ascii_lower_spec, chars_of, copy_range, find_from, first_from, lemma_first_from_bounds,
    string_of, trim_chars, trim_spec,
};
use crate::actors::str_eq;
use crate::types::RunMode;

verus! {

/// Equality of two texts with ASCII letters compared without regard to case.
pub open spec fn eq_ignore_case(a: Seq<char>, b: Seq<char>) -> bool {
    ascii_lower_spec(a) == ascii_lower_spec(b)
}

pub open spec fn starts_with(s: Seq<char>, p: Seq<char>) -> bool {
    p.len() <= s.len() && s.take(p.len() as int) == p
}

/// What a line typed by the human asks for.
#[derive(Clone, Copy, Debug, PartialEq, Eq, Structural)]
pub enum HumanCommand {
    Empty,
    Pass,
    Quit,
    Help,
    History,
    Whisper,
    Say,
}

pub open spec fn classify_spec(input: Seq<char>) -> HumanCommand {
    let t = trim_spec(input);
    if t.len() == 0 {
        HumanCommand::Empty
    } else if eq_ignore_case(t, "/pass"@) {
        HumanCommand::Pass
    } else if eq_ignore_case(t, "/quit"@) || eq_ignore_case(t, "/exit"@) {
        HumanCommand::Quit
    } else if eq_ignore_case(t, "/help"@) {
        HumanCommand::Help
    } else if eq_ignore_case(t, "/history"@) {
        HumanCommand::History
    } else if starts_with(t, "/w "@) || starts_with(t, "/whisper "@) {
        HumanCommand::Whisper
    } else {
        HumanCommand::Say
    }
}

fn eq_ignore_case_chars(a: &Vec<char>, b: &str) -> (r: bool)
    ensures
        r == eq_ignore_case(a@, b@),
{
    let la = string_of(&ascii_lower_chars(a));
    let lb = string_of(&ascii_lower_chars(&chars_of(b)));
    str_eq(la.as_str(), lb.as_str())
}

fn starts_with_chars(s: &Vec<char>, p: &str) -> (r: bool)
    ensures
        r == starts_with(s@, p@),
{
    let n = p.unicode_len();
    if n > s.len() {
        return false;
    }
    let head = string_of(&copy_range(s, 0, n));
    assert(s@.subrange(0, n as int) == s@.take(n as int));
    str_eq(head.as_str(), p)
}

pub fn classify_human_input(input: &str) -> (r: HumanCommand)
    ensures
        r == classify_spec(input@),
{
    let t = trim_chars(&chars_of(input));
    if t.len() == 0 {
        HumanCommand::Empty
    } else if eq_ignore_case_chars(&t, "/pass") {
        HumanCommand::Pass
    } else if eq_ignore_case_chars(&t, "/quit") || eq_ignore_case_chars(&t, "/exit") {
        HumanCommand::Quit
    } else if eq_ignore_case_chars(&t, "/help") {
        HumanCommand::Help
    } else if eq_ignore_case_chars(&t, "/history") {
        HumanCommand::History
    } else if starts_with_chars(&t, "/w ") || starts_with_chars(&t, "/whisper ") {
        HumanCommand::Whisper
    } else {
        HumanCommand::Say
    }
}

#[derive(Debug, PartialEq, Eq, Structural)]
pub enum CommandError {
    /// The line does not start with `/w` or `/whisper`.
    NotWhisper,
    /// The target or the message is missing.
    Usage,
}

/// The three parts of a whisper line, split at its first two spaces: the
/// command, the target and the message (the last two trimmed).
pub open spec fn whisper_parts(s: Seq<char>) -> (Seq<char>, Seq<char>, Seq<char>) {
    let first_space = first_from(s, ' ', 0);
    if first_space >= s.len() {
        (s, Seq::empty(), Seq::empty())
    } else {
        let second_space = first_from(s, ' ', first_space + 1);
        let target = s.subrange(first_space + 1, second_space);
        let message = if second_space < s.len() {
            s.subrange(second_space + 1, s.len() as int)
        } else {
            Seq::empty()
        };
        (s.subrange(0, first_space), trim_spec(target), trim_spec(message))
    }
}

pub open spec fn whisper_command_spec(s: Seq<char>) -> Result<(Seq<char>, Seq<char>), CommandError> {
    let (command, target, message) = whisper_parts(s);
    if !(eq_ignore_case(command, "/w"@) || eq_ignore_case(command, "/whisper"@)) {
        Err(CommandError::NotWhisper)
    } else if target.len() == 0 || message.len() == 0 {
        Err(CommandError::Usage)
    } else {
        Ok((target, message))
    }
}

/// Splits `/w target message` into its target token and its message.
pub fn parse_human_whisper_command(input: &str) -> (r: Result<(String, String), CommandError>)
    ensures
        match r {
            Ok((t, m)) => whisper_command_spec(input@) == Ok::<
                (Seq<char>, Seq<char>),
                CommandError,
            >((t@, m@)),
            Err(e) => whisper_command_spec(input@) == Err::<(Seq<char>, Seq<char>), CommandError>(
                e,
            ),
        },
{
    let v = chars_of(input);
    let n = v.len();
    let first_space = find_from(&v, ' ', 0);
    proof {
        lemma_first_from_bounds(v@, ' ', 0);
    }
    let (command, target, message) = if first_space >= n {
        (v, Vec::new(), Vec::new())
    } else {
        let second_space = find_from(&v, ' ', first_space + 1);
        proof {
            lemma_first_from_bounds(v@, ' ', first_space + 1);
        }
        let mut cmd: Vec<char> = Vec::new();
        let mut i: usize = 0;
        while i < first_space
            invariant
                first_space < n == v@.len(),
                i <= first_space,
                cmd@ == v@.subrange(0, i as int),
            decreases first_space - i,
        {
            cmd.push(v[i]);
            assert(v@.subrange(0, i + 1) == v@.subrange(0, i as int).push(v@[i as int]));
            i = i + 1;
        }
        let mut tgt: Vec<char> = Vec::new();
        let mut j: usize = first_space + 1;
        while j < second_space
            invariant
                first_space < second_space <= n == v@.len(),
                first_space + 1 <= j <= second_space,
                tgt@ == v@.subrange(first_space + 1, j as int),
            decreases second_space - j,
        {
            tgt.push(v[j]);
            assert(v@.subrange(first_space + 1, j + 1) == v@.subrange(first_space + 1, j as int).push(v@[j as int]));
            j = j + 1;
        }
        let mut msg: Vec<char> = Vec::new();
        if second_space < n {
            let mut k: usize = second_space + 1;
            while k < n
                invariant
                    second_space < n == v@.len(),
                    second_space + 1 <= k <= n,
                    msg@ == v@.subrange(second_space + 1, k as int),
                decreases n - k,
            {
                msg.push(v[k]);
                assert(v@.subrange(second_space + 1, k + 1) == v@.subrange(second_space + 1, k as int).push(
                    v@[k as int],
                ));
                k = k + 1;
            }
        }
        (cmd, trim_chars(&tgt), trim_chars(&msg))
    };
    if !(eq_ignore_case_chars(&command, "/w") || eq_ignore_case_chars(&command, "/whisper")) {
        return Err(CommandError::NotWhisper);
    }
    if target.len() == 0 || message.len() == 0 {
        return Err(CommandError::Usage);
    }
    Ok((string_of(&target), string_of(&message)))
}

/// The mode typed for a new campaign.
pub enum ModeChoice {
    /// Nothing typed: the configured default.
    Default,
    Chosen(RunMode),
    Unknown,
}

pub fn parse_mode_choice(raw: &str) -> (r: ModeChoice)
    ensures
        ({
            let t = ascii_lower_spec(trim_spec(raw@));
            &&& t.len() == 0 <==> r is Default
            &&& (t == "l"@ || t == "local"@) <==> r == ModeChoice::Chosen(RunMode::Local)
            &&& (t == "r"@ || t == "remote"@) <==> r == ModeChoice::Chosen(RunMode::Remote)
            &&& r is Unknown <==> !(t.len() == 0 || t == "l"@ || t == "local"@ || t == "r"@
                || t == "remote"@)
        }),
{
    let t = string_of(&ascii_lower_chars(&trim_chars(&chars_of(raw))));
    proof {
        reveal_strlit("l");
        reveal_strlit("local");
        reveal_strlit("r");
        reveal_strlit("remote");
        assert("r"@[0] != "l"@[0]);
        assert("r"@.len() != "local"@.len());
        assert("remote"@.len() != "l"@.len());
        assert("remote"@.len() != "local"@.len());
    }
    if t.unicode_len() == 0 {
        ModeChoice::Default
    } else if crate::actors::str_eq(t.as_str(), "l") || crate::actors::str_eq(t.as_str(), "local") {
        ModeChoice::Chosen(RunMode::Local)
    } else if crate::actors::str_eq(t.as_str(), "r") || crate::actors::str_eq(t.as_str(), "remote") {
        ModeChoice::Chosen(RunMode::Remote)
    } else {
        ModeChoice::Unknown
    }
}


/// The comma-separated fields of `s` from index `i` on; a trailing comma opens
/// one more, empty, field.
pub open spec fn fields_from(s: Seq<char>, i: int) -> Seq<Seq<char>>
    decreases s.len() - i,
{
    if i < 0 || i > s.len() {
        seq![]
    } else {
        let f = first_from(s, ',', i);
        let k = if f < i {
            i
        } else if f > s.len() {
            s.len() as int
        } else {
            f
        };
        if k >= s.len() {
            seq![s.subrange(i, s.len() as int)]
        } else {
            seq![s.subrange(i, k)] + fields_from(s, k + 1)
        }
    }
}

pub open spec fn is_digit(c: char) -> bool {
    '0' <= c && c <= '9'
}

pub open spec fn digits_value(d: Seq<char>) -> nat
    decreases d.len(),
{
    if d.len() == 0 {
        0
    } else {
        digits_value(d.drop_last()) * 10 + ((d.last() as u32) - ('0' as u32)) as nat
    }
}

/// The token without one leading `+`.
pub open spec fn number_digits(tok: Seq<char>) -> Seq<char> {
    if tok.len() > 0 && tok[0] == '+' {
        tok.drop_first()
    } else {
        tok
    }
}

pub open spec fn all_digits(d: Seq<char>) -> bool {
    forall|k: int| 0 <= k < d.len() ==> is_digit(#[trigger] d[k])
}

/// The number that a token spells: an optional `+` and at least one digit.
pub open spec fn number_spec(tok: Seq<char>) -> Option<nat> {
    let d = number_digits(tok);
    if d.len() > 0 && all_digits(d) {
        Some(digits_value(d))
    } else {
        None
    }
}

/// A field is acceptable when blank or when it names a theme by its number.
pub open spec fn field_ok(f: Seq<char>, count: nat) -> bool {
    let t = trim_spec(f);
    t.len() == 0 || match number_spec(t) {
        Some(v) => 1 <= v <= count,
        None => false,
    }
}

/// Whether some field names theme `i` (counting from zero).
pub open spec fn removes(fs: Seq<Seq<char>>, i: int) -> bool {
    exists|j: int| 0 <= j < fs.len() && number_spec(trim_spec(#[trigger] fs[j])) == Some((i + 1) as nat)
}

pub enum ThemeChoice {
    /// The positions of the themes kept, in order.
    Kept(Vec<usize>),
    /// A field is neither blank nor the number of a theme.
    InvalidList,
    /// Every theme was removed.
    NoneLeft,
}

pub open spec fn kept_spec(fs: Seq<Seq<char>>, count: nat) -> Seq<usize> {
    Seq::new(count, |i: int| i as usize).filter(|i: usize| !removes(fs, i as int))
}

proof fn lemma_digits_prefix(d: Seq<char>, k: int)
    requires
        0 <= k <= d.len(),
        forall|j: int| 0 <= j < d.len() ==> is_digit(#[trigger] d[j]),
    ensures
        digits_value(d) >= digits_value(d.take(k)),
    decreases d.len() - k,
{
    if k < d.len() {
        let p = d.take(k + 1);
        assert(p.drop_last() == d.take(k));
        assert(is_digit(p.last()));
        assert(digits_value(p) == digits_value(d.take(k)) * 10 + ((p.last() as u32) - ('0' as u32)) as nat);
        lemma_digits_prefix(d, k + 1);
    } else {
        assert(d.take(k) == d);
    }
}

/// Whether every character from `i` on is a digit.
fn forall_digits(tok: &Vec<char>, i: usize) -> (r: bool)
    requires
        i <= tok@.len(),
    ensures
        r == forall|k: int| i <= k < tok@.len() ==> is_digit(#[trigger] tok@[k]),
{
    let mut j: usize = i;
    while j < tok.len()
        invariant
            i <= j <= tok@.len(),
            forall|k: int| i <= k < j ==> is_digit(#[trigger] tok@[k]),
        decreases tok@.len() - j,
    {
        if !('0' <= tok[j] && tok[j] <= '9') {
            return false;
        }
        j = j + 1;
    }
    true
}

/// The number a token spells if it is at most `limit`; `None` otherwise.
fn small_number(tok: &Vec<char>, limit: usize) -> (r: Option<usize>)
    ensures
        match r {
            Some(v) => number_spec(tok@) == Some(v as nat) && v <= limit,
            None => match number_spec(tok@) {
                Some(v) => v > limit,
                None => true,
            },
        },
{
    let start: usize = if tok.len() > 0 && tok[0] == '+' {
        1
    } else {
        0
    };
    let ghost d = number_digits(tok@);
    assert(d == tok@.subrange(start as int, tok@.len() as int));
    if start >= tok.len() {
        assert(d.len() == 0);
        assert(number_spec(tok@) is None);
        return None;
    }
    if !forall_digits(tok, start) {
        proof {
            let k = choose|k: int| start <= k < tok@.len() && !is_digit(#[trigger] tok@[k]);
            assert(d[k - start] == tok@[k]);
            assert(!all_digits(d));
        }
        return None;
    }
    assert forall|k: int| 0 <= k < d.len() implies is_digit(#[trigger] d[k]) by {
        assert(d[k] == tok@[k + start]);
    }
    assert(all_digits(d));
    let mut v: usize = 0;
    let mut i: usize = start;
    while i < tok.len()
        invariant
            start <= i <= tok@.len(),
            d == tok@.subrange(start as int, tok@.len() as int),
            forall|k: int| 0 <= k < d.len() ==> is_digit(#[trigger] d[k]),
            all_digits(d),
            d.len() > 0,
            d == number_digits(tok@),
            forall|k: int| start <= k < tok@.len() ==> is_digit(#[trigger] tok@[k]),
            v <= limit,
            v as nat == digits_value(d.take(i - start)),
        decreases tok@.len() - i,
    {
        let c = tok[i];
        assert(d[i - start] == c);
        assert(d.take(i - start + 1).drop_last() == d.take(i - start));
        assert(d.take(i - start + 1).last() == c);
        let dv: u128 = (c as u32 - '0' as u32) as u128;
        let nv: u128 = (v as u128) * 10 + dv;
        if nv > limit as u128 {
            proof {
                lemma_digits_prefix(d, i - start + 1);
                assert(digits_value(d.take(i - start + 1)) == nv);
                assert(number_digits(tok@) == d);
                assert(d.len() > 0 && all_digits(d));
                assert(number_spec(tok@) == Some(digits_value(d)));
            }
            return None;
        }
        v = nv as usize;
        i = i + 1;
    }
    assert(d.take(i - start) == d);
    Some(v)
}


proof fn lemma_fields_step(s: Seq<char>, i: int)
    requires
        0 <= i <= s.len(),
    ensures
        first_from(s, ',', i) < s.len() ==> fields_from(s, i) == seq![
            s.subrange(i, first_from(s, ',', i)),
        ] + fields_from(s, first_from(s, ',', i) + 1),
        first_from(s, ',', i) >= s.len() ==> fields_from(s, i) == seq![
            s.subrange(i, s.len() as int),
        ],
{
    lemma_first_from_bounds(s, ',', i);
}

/// The comma-separated fields of `v`, as `str::split(',')` gives them.
fn split_fields(v: &Vec<char>) -> (r: Vec<Vec<char>>)
    ensures
        r@.map_values(|f: Vec<char>| f@) == fields_from(v@, 0),
{
    let n = v.len();
    let mut out: Vec<Vec<char>> = Vec::new();
    let mut i: usize = 0;
    loop
        invariant
            n == v@.len(),
            i <= n,
            out@.map_values(|f: Vec<char>| f@) + fields_from(v@, i as int) == fields_from(v@, 0),
        decreases n - i,
    {
        let k = find_from(v, ',', i);
        proof {
            lemma_first_from_bounds(v@, ',', i as int);
            lemma_fields_step(v@, i as int);
        }
        let field = copy_range(v, i, k);
        let ghost before = out@.map_values(|f: Vec<char>| f@);
        out.push(field);
        assert(out@.map_values(|f: Vec<char>| f@) =~= before.push(field@));
        if k >= n {
            assert(before + fields_from(v@, i as int) =~= before.push(field@));
            return out;
        }
        assert(before + fields_from(v@, i as int) =~= before.push(field@) + fields_from(v@, k + 1));
        i = k + 1;
    }
}

pub open spec fn has_bad_field(fs: Seq<Seq<char>>, count: nat) -> bool {
    exists|j: int| 0 <= j < fs.len() && !field_ok(#[trigger] fs[j], count)
}

/// The themes kept after a removal list: all of them for a blank line; none
/// when a field is neither blank nor a theme number; otherwise those whose
/// number no field names, when any remain.
pub open spec fn theme_choice_ok(raw: Seq<char>, count: nat, r: ThemeChoice) -> bool {
    let t = trim_spec(raw);
    let fs = fields_from(t, 0);
    if t.len() == 0 {
        r is Kept && r->0@ == Seq::new(count, |i: int| i as usize)
    } else if has_bad_field(fs, count) {
        r is InvalidList
    } else if kept_spec(fs, count).len() == 0 {
        r is NoneLeft
    } else {
        r is Kept && r->0@ == kept_spec(fs, count)
    }
}

/// Reads the list of theme numbers to remove, out of `count` themes.
pub fn theme_kept_indices(raw: &str, count: usize) -> (r: ThemeChoice)
    ensures
        theme_choice_ok(raw@, count as nat, r),
{
    let t = trim_chars(&chars_of(raw));
    if t.len() == 0 {
        let mut all: Vec<usize> = Vec::new();
        let mut i: usize = 0;
        while i < count
            invariant
                i <= count,
                all@ == Seq::new(i as nat, |k: int| k as usize),
            decreases count - i,
        {
            all.push(i);
            assert(all@ =~= Seq::new((i + 1) as nat, |k: int| k as usize));
            i = i + 1;
        }
        return ThemeChoice::Kept(all);
    }
    let fields = split_fields(&t);
    assert(t@ == trim_spec(raw@));
    let ghost fs = fields_from(trim_spec(raw@), 0);
    let mut removed: Vec<bool> = Vec::new();
    let mut i: usize = 0;
    while i < count
        invariant
            i <= count,
            removed@.len() == i,
            forall|k: int| 0 <= k < i ==> !#[trigger] removed@[k],
        decreases count - i,
    {
        removed.push(false);
        i = i + 1;
    }
    let mut m: usize = 0;
    while m < fields.len()
        invariant
            fields@.map_values(|f: Vec<char>| f@) == fs,
            fs == fields_from(trim_spec(raw@), 0),
            trim_spec(raw@).len() > 0,
            m <= fields@.len(),
            removed@.len() == count,
            forall|j: int| 0 <= j < m ==> field_ok(#[trigger] fs[j], count as nat),
            forall|k: int|
                0 <= k < count ==> (#[trigger] removed@[k] <==> exists|j: int|
                    0 <= j < m && number_spec(trim_spec(#[trigger] fs[j])) == Some((k + 1) as nat)),
        decreases fields@.len() - m,
    {
        assert(fs[m as int] == fields@[m as int]@);
        let tf = trim_chars(&fields[m]);
        if tf.len() > 0 {
            match small_number(&tf, count) {
                Some(v) => {
                    if v == 0 {
                        assert(!field_ok(fs[m as int], count as nat));
                        assert(m < fs.len());
                        assert(has_bad_field(fs, count as nat));
                        assert(theme_choice_ok(raw@, count as nat, ThemeChoice::InvalidList));
                        return ThemeChoice::InvalidList;
                    }
                    removed.set(v - 1, true);
                    assert forall|k: int| 0 <= k < count implies (#[trigger] removed@[k]
                        <==> exists|j: int|
                        0 <= j < m + 1 && number_spec(trim_spec(#[trigger] fs[j])) == Some(
                            (k + 1) as nat,
                        )) by {
                        if k == v - 1 {
                            assert(number_spec(trim_spec(fs[m as int])) == Some((k + 1) as nat));
                        } else {
                            if exists|j: int|
                                0 <= j < m + 1 && number_spec(trim_spec(#[trigger] fs[j]))
                                    == Some((k + 1) as nat) {
                                let j = choose|j: int|
                                    0 <= j < m + 1 && number_spec(trim_spec(#[trigger] fs[j]))
                                        == Some((k + 1) as nat);
                                if j == m {
                                    assert(false);
                                }
                            }
                        }
                    }
                },
                None => {
                    assert(!field_ok(fs[m as int], count as nat));
                    assert(m < fs.len());
                    assert(has_bad_field(fs, count as nat));
                    assert(theme_choice_ok(raw@, count as nat, ThemeChoice::InvalidList));
                    return ThemeChoice::InvalidList;
                },
            }
        } else {
            assert forall|k: int| 0 <= k < count implies (#[trigger] removed@[k] <==> exists|j: int|
                0 <= j < m + 1 && number_spec(trim_spec(#[trigger] fs[j])) == Some(
                    (k + 1) as nat,
                )) by {
                if exists|j: int|
                    0 <= j < m + 1 && number_spec(trim_spec(#[trigger] fs[j])) == Some(
                        (k + 1) as nat,
                    ) {
                    let j = choose|j: int|
                        0 <= j < m + 1 && number_spec(trim_spec(#[trigger] fs[j])) == Some(
                            (k + 1) as nat,
                        );
                    if j == m {
                        assert(number_digits(tf@).len() == 0);
                    }
                }
            }
        }
        m = m + 1;
    }
    let ghost all_idx = Seq::new(count as nat, |k: int| k as usize);
    let ghost p = |x: usize| !removes(fs, x as int);
    let mut kept: Vec<usize> = Vec::new();
    let mut k: usize = 0;
    while k < count
        invariant
            k <= count,
            removed@.len() == count,
            all_idx == Seq::new(count as nat, |q: int| q as usize),
            p == (|x: usize| !removes(fs, x as int)),
            forall|q: int| 0 <= q < count ==> (#[trigger] removed@[q] <==> removes(fs, q)),
            kept@ == all_idx.take(k as int).filter(p),
        decreases count - k,
    {
        proof {
            reveal(Seq::filter);
            assert(all_idx.take(k + 1).drop_last() == all_idx.take(k as int));
            assert(all_idx.take(k + 1).last() == k);
        }
        if !removed[k] {
            kept.push(k);
        }
        k = k + 1;
    }
    assert(all_idx.take(count as int) == all_idx);
    assert forall|j: int| 0 <= j < fs.len() implies field_ok(#[trigger] fs[j], count as nat) by {}
    if kept.len() == 0 {
        ThemeChoice::NoneLeft
    } else {
        ThemeChoice::Kept(kept)
    }
}


/// The answer to the campaign menu.
pub enum CampaignSelection {
    /// Create a new campaign.
    New,
    /// Open the listed campaign at this position.
    Existing(usize),
    Unknown,
}

/// The first position at or after `i` whose identifier is `t`, or the length.
pub open spec fn first_id(ids: Seq<String>, t: Seq<char>, i: int) -> int
    decreases ids.len() - i,
{
    if i < 0 || i >= ids.len() {
        ids.len() as int
    } else if ids[i]@ == t {
        i
    } else {
        first_id(ids, t, i + 1)
    }
}

/// `n` or `new` in any case; else a menu number; else a listed identifier.
pub open spec fn selection_ok(input: Seq<char>, ids: Seq<String>, r: CampaignSelection) -> bool {
    let t = trim_spec(input);
    if eq_ignore_case(t, "n"@) || eq_ignore_case(t, "new"@) {
        r is New
    } else if number_spec(t) is Some && 1 <= number_spec(t)->0 <= ids.len() {
        r == CampaignSelection::Existing((number_spec(t)->0 - 1) as usize)
    } else if first_id(ids, t, 0) < ids.len() {
        r == CampaignSelection::Existing(first_id(ids, t, 0) as usize)
    } else {
        r is Unknown
    }
}

proof fn lemma_first_id_bounds(ids: Seq<String>, t: Seq<char>, i: int)
    requires
        0 <= i <= ids.len(),
    ensures
        i <= first_id(ids, t, i) <= ids.len(),
    decreases ids.len() - i,
{
    if i < ids.len() && ids[i]@ != t {
        lemma_first_id_bounds(ids, t, i + 1);
    }
}

pub fn parse_campaign_selection(input: &str, existing: &Vec<String>) -> (r: CampaignSelection)
    ensures
        selection_ok(input@, existing@, r),
{
    let t = trim_chars(&chars_of(input));
    if eq_ignore_case_chars(&t, "n") || eq_ignore_case_chars(&t, "new") {
        return CampaignSelection::New;
    }
    match small_number(&t, existing.len()) {
        Some(v) => {
            if v >= 1 {
                return CampaignSelection::Existing(v - 1);
            }
        },
        None => {},
    }
    let ts = string_of(&t);
    let mut i: usize = 0;
    proof {
        lemma_first_id_bounds(existing@, t@, 0);
    }
    while i < existing.len()
        invariant
            i <= existing@.len(),
            ts@ == t@,
            t@ == trim_spec(input@),
            !(eq_ignore_case(t@, "n"@) || eq_ignore_case(t@, "new"@)),
            !(number_spec(t@) is Some && 1 <= number_spec(t@)->0 <= existing@.len()),
            first_id(existing@, t@, 0) == first_id(existing@, t@, i as int),
        decreases existing@.len() - i,
    {
        if str_eq(existing[i].as_str(), ts.as_str()) {
            return CampaignSelection::Existing(i);
        }
        i = i + 1;
    }
    CampaignSelection::Unknown
}

} // verus!
