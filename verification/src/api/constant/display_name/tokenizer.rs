//! Splitting a model id into its dash-separated segments, with a summary of
//! the bytes of each.
use vstd::prelude::*;

use crate::text::push_char;

verus! {

/// A segment of a model id with its summary.
#[derive(Debug)]
pub struct Token {
    pub content: String,
    pub meta: TokenMeta,
}

/// What a segment's bytes are made of.
#[derive(Clone, Copy, Debug, PartialEq, Eq, Structural)]
pub struct TokenMeta {
    /// Only digits, no dot.
    pub is_digit_only: bool,
    pub digit_count: u8,
    pub has_dot: bool,
    /// The first byte (0 for an empty segment).
    pub first_char: u8,
    /// The length in bytes (modulo 256).
    pub len: u8,
}

/// Whether `b` is an ASCII digit.
pub open spec fn is_digit_byte(b: u8) -> bool {
    48 <= b && b <= 57
}

/// The number of ASCII digits among the bytes.
pub open spec fn count_digits(b: Seq<u8>) -> nat
    decreases b.len(),
{
    if b.len() == 0 {
        0
    } else {
        count_digits(b.drop_last()) + if is_digit_byte(b.last()) {
            1nat
        } else {
            0nat
        }
    }
}

/// Whether some byte is a dot.
pub open spec fn has_dot_byte(b: Seq<u8>) -> bool {
    exists|i: int| 0 <= i < b.len() && #[trigger] b[i] == 46u8
}

/// Whether every byte is an ASCII digit.
pub open spec fn all_digit_bytes(b: Seq<u8>) -> bool {
    forall|i: int| 0 <= i < b.len() ==> is_digit_byte(#[trigger] b[i])
}

/// The summary of a segment's bytes.
pub open spec fn meta_of(b: Seq<u8>) -> TokenMeta {
    if b.len() == 0 {
        TokenMeta { is_digit_only: false, digit_count: 0, has_dot: false, first_char: 0, len: 0 }
    } else {
        TokenMeta {
            is_digit_only: all_digit_bytes(b),
            digit_count: count_digits(b) as u8,
            has_dot: has_dot_byte(b),
            first_char: b[0],
            len: b.len() as u8,
        }
    }
}

/// The bytes of a text in UTF-8.
pub open spec fn utf8(s: Seq<char>) -> Seq<u8> {
    vstd::utf8::encode_utf8(s)
}

/// The segments of `s` between dashes, in order (one more than there are
/// dashes; segments may be empty).
pub open spec fn split_dash(s: Seq<char>) -> Seq<Seq<char>>
    decreases s.len(),
{
    if s.len() == 0 {
        seq![Seq::empty()]
    } else {
        let r = split_dash(s.drop_last());
        if s.last() == '-' {
            r.push(Seq::empty())
        } else {
            r.update(r.len() - 1, r.last().push(s.last()))
        }
    }
}

/// There is always at least one segment.
pub proof fn lemma_split_nonempty(s: Seq<char>)
    ensures
        split_dash(s).len() >= 1,
    decreases s.len(),
{
    if s.len() > 0 {
        lemma_split_nonempty(s.drop_last());
    }
}

/// No segment holds more than 255 digits (the digit count is a byte).
pub open spec fn segments_fit(s: Seq<char>) -> bool {
    forall|i: int| 0 <= i < split_dash(s).len() ==> count_digits(#[trigger] utf8(split_dash(s)[i])) <= 255
}

/// The summary of a segment (see `meta_of`).
pub fn analyze_segment(segment: &str) -> (r: TokenMeta)
    requires
        count_digits(utf8(segment@)) <= 255,
    ensures
        r == meta_of(utf8(segment@)),
{
    let bytes = segment.as_bytes();
    let ghost b = bytes@;
    let n = bytes.len();
    if n == 0 {
        return TokenMeta { is_digit_only: false, digit_count: 0, has_dot: false, first_char: 0, len: 0 };
    }
    let first_char = bytes[0];
    let mut all_digits = true;
    let mut digit_count: u8 = 0;
    let mut has_dot = false;
    let mut i: usize = 0;
    while i < n
        invariant
            n == b.len(),
            b == bytes@,
            b == utf8(segment@),
            count_digits(b) <= 255,
            i <= n,
            all_digits == all_digit_bytes(b.take(i as int)),
            digit_count == count_digits(b.take(i as int)),
            has_dot == has_dot_byte(b.take(i as int)),
        decreases n - i,
    {
        let byte = bytes[i];
        assert(b.take(i as int + 1).drop_last() =~= b.take(i as int));
        assert(b.take(i as int + 1).last() == byte);
        proof {
            lemma_count_digits_prefix(b, i as int + 1);
        }
        if 48 <= byte && byte <= 57 {
            digit_count = digit_count + 1;
        } else if byte == 46 {
            has_dot = true;
        }
        if !(48 <= byte && byte <= 57) {
            all_digits = false;
        }
        assert(all_digits == all_digit_bytes(b.take(i as int + 1))) by {
            if all_digit_bytes(b.take(i as int)) && is_digit_byte(byte) {
                assert forall|j: int| 0 <= j < i + 1 implies is_digit_byte(#[trigger] b.take(i as int + 1)[j]) by {
                    if j < i {
                        assert(b.take(i as int + 1)[j] == b.take(i as int)[j]);
                    }
                }
            }
        }
        assert(has_dot == has_dot_byte(b.take(i as int + 1))) by {
            if has_dot_byte(b.take(i as int)) {
                let j = choose|j: int| 0 <= j < i && #[trigger] b.take(i as int)[j] == 46u8;
                assert(b.take(i as int + 1)[j] == 46u8);
            }
            if has_dot_byte(b.take(i as int + 1)) {
                let j = choose|j: int| 0 <= j < i + 1 && #[trigger] b.take(i as int + 1)[j] == 46u8;
                if j < i {
                    assert(b.take(i as int)[j] == 46u8);
                }
            }
        }
        i = i + 1;
    }
    assert(b.take(n as int) =~= b);
    TokenMeta { is_digit_only: all_digits && !has_dot, digit_count, has_dot, first_char, len: n as u8 }
}

/// A prefix holds no more digits than the whole.
proof fn lemma_count_digits_prefix(b: Seq<u8>, k: int)
    requires
        0 <= k <= b.len(),
    ensures
        count_digits(b.take(k)) <= count_digits(b),
    decreases b.len(),
{
    if k < b.len() {
        lemma_count_digits_prefix(b.drop_last(), k);
        assert(b.drop_last().take(k) =~= b.take(k));
    } else {
        assert(b.take(k) =~= b);
    }
}

/// What a list of tokens stands for: each segment's text.
pub open spec fn token_texts(ts: Seq<Token>) -> Seq<Seq<char>> {
    ts.map_values(|t: Token| t.content@)
}

/// The tokens of a model id: its dash-separated segments, each with its
/// summary.
pub fn tokenize(identifier: &str) -> (r: Vec<Token>)
    requires
        segments_fit(identifier@),
    ensures
        token_texts(r@) == split_dash(identifier@),
        forall|i: int| 0 <= i < r.len() ==> #[trigger] r@[i].meta == meta_of(utf8(r@[i].content@)),
{
    let n = identifier.unicode_len();
    let ghost s = identifier@;
    let mut tokens: Vec<Token> = Vec::new();
    let mut cur = String::new();
    let mut i: usize = 0;
    proof {
        lemma_split_nonempty(s);
        assert(s.take(0) =~= Seq::<char>::empty());
        assert forall|k: int| #![trigger split_dash(s.take(k))] 0 <= k <= n implies split_dash(s.take(0)).len() <= split_dash(s.take(k)).len()
            && forall|j: int| 0 <= j < split_dash(s.take(0)).len() - 1 ==> #[trigger] split_dash(s.take(k))[j]
            == split_dash(s.take(0))[j] by {
            lemma_split_prefix(s, 0, k);
        }
    }
    while i < n
        invariant
            n == s.len(),
            s == identifier@,
            segments_fit(s),
            i <= n,
            split_dash(s.take(i as int)).len() >= 1,
            token_texts(tokens@) + seq![cur@] == split_dash(s.take(i as int)),
            forall|j: int| 0 <= j < tokens.len() ==> #[trigger] tokens@[j].meta == meta_of(utf8(tokens@[j].content@)),
            forall|k: int| #![trigger split_dash(s.take(k))] i <= k <= n ==> split_dash(s.take(i as int)).len() <= split_dash(s.take(k)).len()
                && forall|j: int| 0 <= j < split_dash(s.take(i as int)).len() - 1 ==> #[trigger] split_dash(s.take(k))[j]
                == split_dash(s.take(i as int))[j],
        decreases n - i,
    {
        let c = identifier.get_char(i);
        let ghost t = s.take(i as int + 1);
        assert(t.drop_last() =~= s.take(i as int));
        assert(t.last() == c);
        if c == '-' {
            let ghost prev = tokens@;
            let ghost j = prev.len() as int;
            proof {
                let sp = split_dash(s);
                assert(split_dash(s.take(n as int)) == sp) by {
                    assert(s.take(n as int) =~= s);
                }
                assert(split_dash(s.take(i as int))[j] == cur@);
                assert(split_dash(t)[j] == cur@);
                lemma_split_prefix(s, i as int + 1, n as int);
                assert(split_dash(s.take(n as int))[j] == cur@);
                assert(count_digits(utf8(sp[j])) <= 255);
            }
            let meta = analyze_segment(cur.as_str());
            tokens.push(Token { content: cur, meta });
            cur = String::new();
            assert(token_texts(tokens@) =~= token_texts(prev).push(split_dash(s.take(i as int))[j]));
            assert(token_texts(tokens@) + seq![cur@] =~= split_dash(t));
        } else {
            let ghost old_cur = cur@;
            push_char(&mut cur, c);
            assert(token_texts(tokens@) + seq![cur@] =~= split_dash(t));
        }
        proof {
            assert forall|k: int| #![trigger split_dash(s.take(k))] i + 1 <= k <= n implies split_dash(t).len() <= split_dash(s.take(k)).len()
                && forall|j: int| 0 <= j < split_dash(t).len() - 1 ==> #[trigger] split_dash(s.take(k))[j]
                == split_dash(t)[j] by {
                lemma_split_prefix(s, i as int + 1, k);
            }
        }
        i = i + 1;
    }
    proof {
        let sp = split_dash(s);
        assert(s.take(n as int) =~= s);
        let j = tokens@.len() as int;
        assert(sp[j] == cur@);
        assert(count_digits(utf8(sp[j])) <= 255);
    }
    let meta = analyze_segment(cur.as_str());
    let ghost prev = tokens@;
    tokens.push(Token { content: cur, meta });
    assert(token_texts(tokens@) =~= token_texts(prev) + seq![cur@]);
    assert(s.take(n as int) =~= s);
    tokens
}

/// Extending the text keeps every completed segment of a prefix.
proof fn lemma_split_prefix(s: Seq<char>, a: int, k: int)
    requires
        0 <= a <= k <= s.len(),
    ensures
        split_dash(s.take(a)).len() <= split_dash(s.take(k)).len(),
        forall|j: int| 0 <= j < split_dash(s.take(a)).len() - 1 ==> #[trigger] split_dash(s.take(k))[j]
            == split_dash(s.take(a))[j],
    decreases k - a,
{
    if a < k {
        lemma_split_prefix(s, a, k - 1);
        let t = s.take(k);
        assert(t.drop_last() =~= s.take(k - 1));
        lemma_split_nonempty(s.take(k - 1));
    }
}

} // verus!
