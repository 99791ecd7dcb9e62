//! Recognising the parts of a model id: versions, dates, date markers and the
//! `gpt` and `o<digit>` prefixes.
use vstd::prelude::*;

use super::tokenizer::{Token, TokenMeta};
use crate::text::push_char;

verus! {

/// A recognised part of a model id.
#[derive(Debug)]
pub enum Pattern {
    /// `gpt`.
    GPT,
    /// `o` and a digit: the digit.
    O(u8),
    /// Two single digits joined by a dot (`3-5` is `3.5`).
    Version(String),
    /// Any other segment.
    Word(String),
    /// A date (`2024-04-09`, `03-25`, or `0528` read as `05-28`).
    Date(String),
    /// `latest` or `legacy`.
    DateMarker(String),
}

/// What a recognised part stands for.
pub enum PatView {
    Gpt,
    O(u8),
    Version(Seq<char>),
    Word(Seq<char>),
    Date(Seq<char>),
    Marker(Seq<char>),
}

pub open spec fn pattern_view(p: Pattern) -> PatView {
    match p {
        Pattern::GPT => PatView::Gpt,
        Pattern::O(n) => PatView::O(n),
        Pattern::Version(v) => PatView::Version(v@),
        Pattern::Word(w) => PatView::Word(w@),
        Pattern::Date(d) => PatView::Date(d@),
        Pattern::DateMarker(m) => PatView::Marker(m@),
    }
}

pub open spec fn pattern_views(ps: Seq<Pattern>) -> Seq<PatView> {
    ps.map_values(|p: Pattern| pattern_view(p))
}

/// The parts of a model id: the name parts, and the date parts shown in
/// brackets after them.
pub struct ParseResult {
    pub main_parts: Vec<Pattern>,
    pub date_parts: Vec<Pattern>,
}

/// Whether a date part is a date or a date marker.
pub open spec fn is_date_part(p: PatView) -> bool {
    p is Date || p is Marker
}

/// What a token stands for: its text and summary.
pub open spec fn token_views(ts: Seq<Token>) -> Seq<(Seq<char>, TokenMeta)> {
    ts.map_values(|t: Token| (t.content@, t.meta))
}

/// The token is made of exactly `n` digits.
pub open spec fn digits_n(t: (Seq<char>, TokenMeta), n: u8) -> bool {
    t.1.is_digit_only && t.1.len == n
}

/// A four-digit `MMDD` date written as `MM-DD`.
pub open spec fn month_day(c: Seq<char>) -> Seq<char> {
    if c.len() >= 2 {
        c.take(2) + seq!['-'] + c.skip(2)
    } else {
        c + seq!['-']
    }
}

/// The part recognised at token `i`, whether it is a date part, and how many
/// tokens it takes: a four-digit and two two-digit tokens are a full date; two
/// two-digit tokens a month and day; a lone four-digit token an `MMDD` date;
/// two single digits a version; `latest` and `legacy` date markers; then
/// `gpt`, `o<digit>`, and any other token a word.
pub open spec fn step(ts: Seq<(Seq<char>, TokenMeta)>, i: int) -> (PatView, bool, int) {
    let t = ts[i];
    let c = t.0;
    if digits_n(t, 4) && i + 2 < ts.len() && digits_n(ts[i + 1], 2) && digits_n(ts[i + 2], 2) {
        (PatView::Date(c + seq!['-'] + ts[i + 1].0 + seq!['-'] + ts[i + 2].0), true, 3)
    } else if digits_n(t, 2) && i + 1 < ts.len() && digits_n(ts[i + 1], 2) {
        (PatView::Date(c + seq!['-'] + ts[i + 1].0), true, 2)
    } else if digits_n(t, 4) {
        (PatView::Date(month_day(c)), true, 1)
    } else if digits_n(t, 1) && i + 1 < ts.len() && digits_n(ts[i + 1], 1) {
        (PatView::Version(c + seq!['.'] + ts[i + 1].0), false, 2)
    } else if c == "latest"@ || c == "legacy"@ {
        (PatView::Marker(c), true, 1)
    } else if c == "gpt"@ {
        (PatView::Gpt, false, 1)
    } else if c.len() == 2 && c[0] == 'o' && '0' <= c[1] && c[1] <= '9' {
        (PatView::O(((c[1] as u32) - 48) as u8), false, 1)
    } else {
        (PatView::Word(c), false, 1)
    }
}

/// The parts recognised from token `i` on: name parts and date parts.
pub open spec fn parse_from(ts: Seq<(Seq<char>, TokenMeta)>, i: int) -> (Seq<PatView>, Seq<PatView>)
    decreases ts.len() - i,
    when 0 <= i
{
    if i >= ts.len() {
        (Seq::empty(), Seq::empty())
    } else {
        let (p, is_date, k) = step(ts, i);
        let rest = parse_from(ts, i + k);
        if is_date {
            (rest.0, seq![p] + rest.1)
        } else {
            (seq![p] + rest.0, rest.1)
        }
    }
}

/// Whether the token is made of exactly `n` digits.
fn is_digits_n(t: &Token, n: u8) -> (r: bool)
    ensures
        r == digits_n((t.content@, t.meta), n),
{
    t.meta.is_digit_only && t.meta.len == n
}

/// `a`, a separator character, then `b`.
fn joined(a: &String, sep: char, b: &String) -> (r: String)
    ensures
        r@ == a@ + seq![sep] + b@,
{
    let mut s = a.clone();
    push_char(&mut s, sep);
    s.append(b.as_str());
    s
}

/// A four-digit `MMDD` date written as `MM-DD`.
fn to_month_day(c: &String) -> (r: String)
    ensures
        r@ == month_day(c@),
{
    let n = c.as_str().unicode_len();
    if n >= 2 {
        let mut s = c.as_str().substring_char(0, 2).to_owned();
        push_char(&mut s, '-');
        s.append(c.as_str().substring_char(2, n));
        assert(s@ =~= c@.take(2) + seq!['-'] + c@.skip(2));
        s
    } else {
        let mut s = c.clone();
        push_char(&mut s, '-');
        s
    }
}

/// The part recognised at token `i` (see `step`).
fn step_at(ts: &Vec<Token>, i: usize) -> (r: (Pattern, bool, usize))
    requires
        i < ts.len(),
    ensures
        (pattern_view(r.0), r.1, r.2 as int) == step(token_views(ts@), i as int),
{
    let ghost tv = token_views(ts@);
    assert(tv[i as int] == (ts@[i as int].content@, ts@[i as int].meta));
    assert(i + 1 < ts.len() ==> tv[i + 1] == (ts@[i + 1].content@, ts@[i + 1].meta));
    assert(i + 2 < ts.len() ==> tv[i + 2] == (ts@[i + 2].content@, ts@[i + 2].meta));
    let n = ts.len();
    let t = &ts[i];
    if is_digits_n(t, 4) && n - i > 2 && is_digits_n(&ts[i + 1], 2) && is_digits_n(&ts[i + 2], 2) {
        let d = joined(&joined(&t.content, '-', &ts[i + 1].content), '-', &ts[i + 2].content);
        (Pattern::Date(d), true, 3)
    } else if is_digits_n(t, 2) && n - i > 1 && is_digits_n(&ts[i + 1], 2) {
        (Pattern::Date(joined(&t.content, '-', &ts[i + 1].content)), true, 2)
    } else if is_digits_n(t, 4) {
        (Pattern::Date(to_month_day(&t.content)), true, 1)
    } else if is_digits_n(t, 1) && n - i > 1 && is_digits_n(&ts[i + 1], 1) {
        (Pattern::Version(joined(&t.content, '.', &ts[i + 1].content)), false, 2)
    } else {
        let c = t.content.as_str();
        if crate::text::str_eq(c, "latest") || crate::text::str_eq(c, "legacy") {
            (Pattern::DateMarker(t.content.clone()), true, 1)
        } else if crate::text::str_eq(c, "gpt") {
            (Pattern::GPT, false, 1)
        } else if c.unicode_len() == 2 && c.get_char(0) == 'o' && '0' <= c.get_char(1) && c.get_char(1) <= '9' {
            let d = c.get_char(1) as u32 - 48;
            (Pattern::O(d as u8), false, 1)
        } else {
            (Pattern::Word(t.content.clone()), false, 1)
        }
    }
}

/// The parts of a tokenized model id (see `parse_from`).
pub fn parse_patterns(tokens: Vec<Token>) -> (r: ParseResult)
    ensures
        pattern_views(r.main_parts@) == parse_from(token_views(tokens@), 0).0,
        pattern_views(r.date_parts@) == parse_from(token_views(tokens@), 0).1,
        forall|i: int| 0 <= i < r.date_parts.len() ==> is_date_part(#[trigger] pattern_views(r.date_parts@)[i]),
{
    let ghost ts = token_views(tokens@);
    let mut main_parts: Vec<Pattern> = Vec::new();
    let mut date_parts: Vec<Pattern> = Vec::new();
    let mut i: usize = 0;
    proof {
        lemma_parse_dates(ts, 0);
    }
    while i < tokens.len()
        invariant
            ts == token_views(tokens@),
            i <= tokens.len(),
            parse_from(ts, 0).0 == pattern_views(main_parts@) + parse_from(ts, i as int).0,
            parse_from(ts, 0).1 == pattern_views(date_parts@) + parse_from(ts, i as int).1,
            forall|j: int| 0 <= j < date_parts.len() ==> is_date_part(#[trigger] pattern_views(date_parts@)[j]),
        decreases tokens.len() - i,
    {
        let (p, is_date, k) = step_at(&tokens, i);
        let ghost pv = pattern_view(p);
        let ghost rest = parse_from(ts, i as int + k as int);
        assert(parse_from(ts, i as int) == (if is_date {
            (rest.0, seq![pv] + rest.1)
        } else {
            (seq![pv] + rest.0, rest.1)
        }));
        if is_date {
            let ghost prev = date_parts@;
            date_parts.push(p);
            assert(pattern_views(date_parts@) =~= pattern_views(prev).push(pv));
            assert(pattern_views(prev) + (seq![pv] + rest.1) =~= pattern_views(date_parts@) + rest.1);
        } else {
            let ghost prev = main_parts@;
            main_parts.push(p);
            assert(pattern_views(main_parts@) =~= pattern_views(prev).push(pv));
            assert(pattern_views(prev) + (seq![pv] + rest.0) =~= pattern_views(main_parts@) + rest.0);
        }
        i = if k <= tokens.len() - i { i + k } else { tokens.len() };
    }
    assert(parse_from(ts, i as int).0 =~= Seq::<PatView>::empty());
    assert(pattern_views(main_parts@) + Seq::<PatView>::empty() =~= pattern_views(main_parts@));
    assert(pattern_views(date_parts@) + Seq::<PatView>::empty() =~= pattern_views(date_parts@));
    ParseResult { main_parts, date_parts }
}

/// Every date part is a date or a date marker.
proof fn lemma_parse_dates(ts: Seq<(Seq<char>, TokenMeta)>, i: int)
    requires
        0 <= i,
    ensures
        forall|j: int| 0 <= j < parse_from(ts, i).1.len() ==> is_date_part(#[trigger] parse_from(ts, i).1[j]),
    decreases ts.len() - i,
{
    if i < ts.len() {
        let (p, is_date, k) = step(ts, i);
        lemma_parse_dates(ts, i + k);
        let rest = parse_from(ts, i + k);
        assert forall|j: int| 0 <= j < parse_from(ts, i).1.len() implies is_date_part(#[trigger] parse_from(ts, i).1[j]) by {
            if is_date {
                assert(parse_from(ts, i).1 == seq![p] + rest.1);
                if j > 0 {
                    assert(parse_from(ts, i).1[j] == rest.1[j - 1]);
                }
            } else {
                assert(parse_from(ts, i).1 == rest.1);
            }
        }
    }
}

} // verus!
