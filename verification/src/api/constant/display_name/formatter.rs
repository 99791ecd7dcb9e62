//! Writing the recognised parts of a model id as a display name.
use vstd::prelude::*;

use super::parser::{ParseResult, PatView, Pattern, is_date_part, pattern_view, pattern_views};
use crate::text::{join, push_char, str_eq};

verus! {

/// The upper-case form of a character, as `char::to_uppercase` gives it.
pub uninterp spec fn unicode_upper(c: char) -> Seq<char>;

/// Whether a character is upper case, as `char::is_uppercase` says.
pub uninterp spec fn unicode_is_upper(c: char) -> bool;

/// The characters of the upper-case form of `c`.
///
/// Trusted: calls `char::to_uppercase`, whose result std documents as the
/// character's upper-case mapping, a function of the character alone; the
/// mapping itself is only named.
#[verifier::external_body]
fn upper_chars(c: char) -> (r: String)
    ensures
        r@ == unicode_upper(c),
{
    c.to_uppercase().collect()
}

/// Whether `c` is upper case.
///
/// Trusted: calls `char::is_uppercase`, which std documents as the Unicode
/// `Uppercase` property of the character; the property is only named.
#[verifier::external_body]
fn is_upper(c: char) -> (r: bool)
    ensures
        r == unicode_is_upper(c),
{
    c.is_uppercase()
}

/// A word with its first letter in upper case: `default` becomes `Default`;
/// an ASCII lower-case first letter is raised; an ASCII word that starts with
/// an upper-case letter or a non-letter is kept; a word that starts with
/// another character has it raised unless it is upper case already.
pub open spec fn capitalized(w: Seq<char>) -> Seq<char> {
    if w == "default"@ {
        "Default"@
    } else if w.len() == 0 {
        w
    } else if (w[0] as u32) < 128 {
        if 'a' <= w[0] && w[0] <= 'z' {
            seq![(((w[0] as u32) - 32) as u8) as char] + w.skip(1)
        } else {
            w
        }
    } else if unicode_is_upper(w[0]) {
        w
    } else {
        unicode_upper(w[0]) + w.skip(1)
    }
}

/// `word` with its first letter in upper case (see `capitalized`).
pub fn capitalize_word(word: &str) -> (r: String)
    ensures
        r@ == capitalized(word@),
{
    if str_eq(word, "default") {
        return String::from_str("Default");
    }
    let n = word.unicode_len();
    if n == 0 {
        return word.to_owned();
    }
    let first = word.get_char(0);
    let rest = word.substring_char(1, n);
    assert(rest@ =~= word@.skip(1));
    if (first as u32) < 128 {
        if 'a' <= first && first <= 'z' {
            let b = (first as u32 - 32) as u8;
            let mut s = String::new();
            push_char(&mut s, b as char);
            s.append(rest);
            s
        } else {
            word.to_owned()
        }
    } else if is_upper(first) {
        word.to_owned()
    } else {
        let mut s = upper_chars(first);
        s.append(rest);
        s
    }
}

/// The text of a name part.
pub open spec fn main_text(p: PatView) -> Seq<char> {
    match p {
        PatView::Gpt => "GPT"@,
        PatView::O(n) => seq!['O', ((48 + n) as u8) as char],
        PatView::Version(v) => v,
        PatView::Word(w) => capitalized(w),
        _ => Seq::empty(),
    }
}

/// The text of a date part.
pub open spec fn date_text(p: PatView) -> Seq<char> {
    match p {
        PatView::Date(d) => d,
        PatView::Marker(m) => m,
        _ => Seq::empty(),
    }
}

/// Each date part in brackets, after a space.
pub open spec fn dates_text(ds: Seq<PatView>) -> Seq<char>
    decreases ds.len(),
{
    if ds.len() == 0 {
        Seq::empty()
    } else {
        dates_text(ds.drop_last()) + " ("@ + date_text(ds.last()) + ")"@
    }
}

/// The display name: the name parts separated by spaces, then each date part
/// in brackets.
pub open spec fn display_text(main: Seq<PatView>, dates: Seq<PatView>) -> Seq<char> {
    join(main.map_values(|p: PatView| main_text(p)), seq![' ']) + dates_text(dates)
}

/// The text of a name part.
fn main_part_text(p: &Pattern) -> (r: String)
    ensures
        r@ == main_text(pattern_view(*p)),
{
    match p {
        Pattern::GPT => String::from_str("GPT"),
        Pattern::O(n) => {
            let mut s = String::new();
            push_char(&mut s, 'O');
            if *n < 10 {
                push_char(&mut s, (48u8 + *n) as char);
            } else {
                push_char(&mut s, ((48 + *n as u32) as u8) as char);
            }
            s
        },
        Pattern::Version(v) => v.clone(),
        Pattern::Word(w) => capitalize_word(w.as_str()),
        _ => String::new(),
    }
}

/// The display name of the recognised parts (see `display_text`).
pub fn format_output(result: ParseResult) -> (r: String)
    requires
        forall|i: int| 0 <= i < result.date_parts.len() ==> is_date_part(#[trigger] pattern_views(result.date_parts@)[i]),
    ensures
        r@ == display_text(pattern_views(result.main_parts@), pattern_views(result.date_parts@)),
{
    let ghost mains = pattern_views(result.main_parts@).map_values(|p: PatView| main_text(p));
    let mut output = String::new();
    let mut i: usize = 0;
    while i < result.main_parts.len()
        invariant
            i <= result.main_parts.len(),
            mains == pattern_views(result.main_parts@).map_values(|p: PatView| main_text(p)),
            output@ == join(mains.take(i as int), seq![' ']),
        decreases result.main_parts.len() - i,
    {
        let piece = main_part_text(&result.main_parts[i]);
        proof {
            crate::text::lemma_join_push(mains.take(i as int), seq![' '], piece@);
            assert(mains.take(i as int).push(piece@) =~= mains.take(i as int + 1));
        }
        if i > 0 {
            push_char(&mut output, ' ');
        }
        output.append(piece.as_str());
        proof {
            if i == 0 {
                assert(output@ =~= piece@);
            } else {
                assert(output@ =~= join(mains.take(i as int), seq![' ']) + seq![' '] + piece@);
            }
        }
        i = i + 1;
    }
    assert(mains.take(result.main_parts.len() as int) =~= mains);
    let ghost head = output@;
    let ghost ds = pattern_views(result.date_parts@);
    let mut k: usize = 0;
    while k < result.date_parts.len()
        invariant
            k <= result.date_parts.len(),
            ds == pattern_views(result.date_parts@),
            forall|i: int| 0 <= i < ds.len() ==> is_date_part(#[trigger] ds[i]),
            output@ == head + dates_text(ds.take(k as int)),
        decreases result.date_parts.len() - k,
    {
        let text: &str = match &result.date_parts[k] {
            Pattern::Date(d) => d.as_str(),
            Pattern::DateMarker(m) => m.as_str(),
            _ => "",
        };
        let ghost prev = output@;
        output.append(" (");
        output.append(text);
        push_char(&mut output, ')');
        proof {
            reveal_strlit(" (");
            reveal_strlit(")");
            assert(ds.take(k as int + 1).drop_last() =~= ds.take(k as int));
            assert(ds.take(k as int + 1).last() == ds[k as int]);
            assert(text@ == date_text(ds[k as int]));
            assert(output@ =~= prev + " ("@ + text@ + ")"@);
        }
        k = k + 1;
    }
    assert(ds.take(result.date_parts.len() as int) =~= ds);
    output
}

} // verus!
