//! Display names of model ids: `gemini-2-5-pro` is shown as
//! `Gemini 2.5 Pro`, dates and the `latest` and `legacy` markers go in
//! brackets, `gpt` is written `GPT` and `o3` `O3`.
use vstd::prelude::*;

pub mod formatter;
pub mod parser;
pub mod tokenizer;

use formatter::{display_text, format_output};
use parser::{PatView, digits_n, parse_from, parse_patterns, step, token_views};
use tokenizer::{TokenMeta, all_digit_bytes, is_digit_byte, meta_of, segments_fit, split_dash, token_texts, tokenize, utf8};

verus! {

/// The tokens of a model id as texts and summaries: its dash-separated
/// segments, each with the summary of its bytes.
pub open spec fn tokens_of(s: Seq<char>) -> Seq<(Seq<char>, TokenMeta)> {
    split_dash(s).map_values(|c: Seq<char>| (c, meta_of(utf8(c))))
}

/// The display name of the model id `s`.
pub open spec fn display_name_of(s: Seq<char>) -> Seq<char> {
    display_text(parse_from(tokens_of(s), 0).0, parse_from(tokens_of(s), 0).1)
}

/// The display name of a model id (see `display_name_of`).
pub fn calculate_display_name_internal(identifier: &str) -> (r: String)
    requires
        segments_fit(identifier@),
    ensures
        r@ == display_name_of(identifier@),
{
    let tokens = tokenize(identifier);
    assert(token_views(tokens@) =~= tokens_of(identifier@)) by {
        assert forall|i: int| 0 <= i < tokens@.len() implies #[trigger] token_views(tokens@)[i] == tokens_of(identifier@)[i] by {
            assert(token_texts(tokens@)[i] == tokens@[i].content@);
        }
    }
    let patterns = parse_patterns(tokens);
    format_output(patterns)
}

/// The display name of a model id; empty for an empty id.
pub fn calculate_display_name(identifier: &str) -> (r: String)
    requires
        segments_fit(identifier@),
    ensures
        r@ == (if identifier@.len() == 0 {
            Seq::empty()
        } else {
            display_name_of(identifier@)
        }),
{
    if identifier.unicode_len() == 0 {
        String::new()
    } else {
        calculate_display_name_internal(identifier)
    }
}

/// Display names are repeatable: the name that `calculate_display_name`
/// gives depends on the text of the id alone, so asking again for the same
/// id gives the same name, and the empty id is named by the empty text.
pub proof fn lemma_display_name_repeatable(a: Seq<char>, b: Seq<char>)
    requires
        a == b,
    ensures
        (if a.len() == 0 {
            Seq::<char>::empty()
        } else {
            display_name_of(a)
        }) == (if b.len() == 0 {
            Seq::<char>::empty()
        } else {
            display_name_of(b)
        }),
{
}

/// Appending a dash and a segment without dashes to a text appends the
/// segment to the text's segments.
proof fn lemma_split_dash_append(w: Seq<char>, x: Seq<char>)
    requires
        forall|j: int| 0 <= j < x.len() ==> x[j] != '-',
    ensures
        split_dash(w + seq!['-'] + x) == split_dash(w).push(x),
    decreases x.len(),
{
    let s = w + seq!['-'] + x;
    if x.len() == 0 {
        assert(s.drop_last() =~= w);
        assert(s.last() == '-');
        assert(Seq::<char>::empty() =~= x);
    } else {
        let x1 = x.drop_last();
        lemma_split_dash_append(w, x1);
        assert(s.drop_last() =~= w + seq!['-'] + x1);
        assert(s.last() == x.last());
        assert(x.last() != '-');
        let r = split_dash(w).push(x1);
        assert(r.last() == x1);
        assert(x1.push(x.last()) =~= x);
        assert(r.update(r.len() - 1, r.last().push(s.last())) =~= split_dash(w).push(x));
        assert(split_dash(s) == r.update(r.len() - 1, r.last().push(s.last())));
    }
}

/// A segment that starts with `l` is not made of digits.
proof fn lemma_l_word_not_digits(m: Seq<char>)
    requires
        m.len() > 0,
        m[0] == 'l',
    ensures
        !meta_of(utf8(m)).is_digit_only,
{
    let b = utf8(m);
    let c = m[0] as u32;
    assert(c == 108);
    assert(vstd::utf8::has_width_1_encoding(c));
    assert((108u32 & 0x7Fu32) as u8 == 108u8) by (bit_vector);
    assert(vstd::utf8::encode_scalar(c) == seq![108u8]);
    assert(b == vstd::utf8::encode_scalar(c) + vstd::utf8::encode_utf8(m.drop_first()));
    assert(b[0] == 108u8);
    assert(!is_digit_byte(b[0]));
    assert(!all_digit_bytes(b));
}

/// Parsing tokens followed by a date-marker token that is not made of
/// digits gives the same name parts, and the marker after the date parts.
proof fn lemma_parse_marker_last(ts: Seq<(Seq<char>, TokenMeta)>, l: (Seq<char>, TokenMeta), i: int)
    requires
        0 <= i <= ts.len(),
        !l.1.is_digit_only,
        l.0 == "latest"@ || l.0 == "legacy"@,
    ensures
        parse_from(ts.push(l), i) == (parse_from(ts, i).0, parse_from(ts, i).1.push(PatView::Marker(l.0))),
    decreases ts.len() - i,
{
    let t2 = ts.push(l);
    if i == ts.len() {
        assert(!digits_n(l, 4) && !digits_n(l, 2) && !digits_n(l, 1));
        assert(t2[i] == l);
        assert(step(t2, i) == (PatView::Marker(l.0), true, 1int));
        assert(parse_from(t2, i + 1) == (Seq::<PatView>::empty(), Seq::<PatView>::empty()));
        assert(seq![PatView::Marker(l.0)] + Seq::<PatView>::empty() =~= Seq::<PatView>::empty().push(PatView::Marker(l.0)));
    } else {
        assert(t2[i] == ts[i]);
        assert(i + 1 < ts.len() ==> t2[i + 1] == ts[i + 1]);
        assert(i + 2 < ts.len() ==> t2[i + 2] == ts[i + 2]);
        assert(i + 1 == ts.len() ==> t2[i + 1] == l);
        assert(i + 2 == ts.len() ==> t2[i + 2] == l);
        assert(!digits_n(l, 4) && !digits_n(l, 2) && !digits_n(l, 1));
        assert(step(t2, i) == step(ts, i));
        let (p, is_date, k) = step(ts, i);
        assert(i + k <= ts.len());
        lemma_parse_marker_last(ts, l, i + k);
        let rest = parse_from(ts, i + k);
        if is_date {
            assert(seq![p] + rest.1.push(PatView::Marker(l.0)) =~= (seq![p] + rest.1).push(PatView::Marker(l.0)));
        }
    }
}

/// `latest` and `legacy` are date markers, shown in brackets after the name:
/// appending `-latest` or `-legacy` to a model id appends ` (latest)` or
/// ` (legacy)` to its display name and changes nothing before it.
pub proof fn lemma_marker_suffix(w: Seq<char>, m: Seq<char>)
    requires
        m == "latest"@ || m == "legacy"@,
    ensures
        display_name_of(w + seq!['-'] + m) == display_name_of(w) + " ("@ + m + ")"@,
{
    reveal_strlit("latest");
    reveal_strlit("legacy");
    assert forall|j: int| 0 <= j < m.len() implies m[j] != '-' by {}
    let s = w + seq!['-'] + m;
    lemma_split_dash_append(w, m);
    lemma_l_word_not_digits(m);
    let l = (m, meta_of(utf8(m)));
    let tw = tokens_of(w);
    assert(tokens_of(s) =~= tw.push(l));
    lemma_parse_marker_last(tw, l, 0);
    let pw = parse_from(tw, 0);
    let ds = pw.1.push(PatView::Marker(m));
    assert(ds.len() > 0);
    assert(ds.drop_last() =~= pw.1);
    assert(ds.last() == PatView::Marker(m));
}

} // verus!
