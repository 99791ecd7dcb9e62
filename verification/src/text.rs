//! Character-level string helpers shared by the formatting and parsing code.
use vstd::prelude::*;
use vstd::string::*;

verus! {

/// Appends one character to a string.
///
/// Trusted: calls `String::push`, which std documents as appending the given
/// character to the end of the string.
#[verifier::external_body]
pub(crate) fn push_char(s: &mut String, c: char)
    ensures
        final(s)@ == old(s)@.push(c),
{
    s.push(c);
}

/// Whether two string slices hold the same characters.
pub fn str_eq(a: &str, b: &str) -> (r: bool)
    ensures
        r == (a@ == b@),
{
    let n = a.unicode_len();
    let m = b.unicode_len();
    if n != m {
        return false;
    }
    let mut i: usize = 0;
    while i < n
        invariant
            n == a@.len(),
            m == b@.len(),
            n == m,
            i <= n,
            forall|j: int| 0 <= j < i ==> a@[j] == b@[j],
        decreases n - i,
    {
        if a.get_char(i) != b.get_char(i) {
            return false;
        }
        i = i + 1;
    }
    assert(a@ =~= b@);
    true
}

} // verus!

verus! {

/// The decimal digit character for `d` (`d < 10`).
pub open spec fn digit_char(d: nat) -> char {
    ((48 + d) as u32) as char
}

/// The decimal representation of `n`, without sign or leading zeros.
pub open spec fn dec(n: nat) -> Seq<char>
    decreases n,
{
    if n < 10 {
        seq![digit_char(n)]
    } else {
        dec(n / 10).push(digit_char(n % 10))
    }
}

/// `dec(n)` left-padded with `'0'` to at least `width` characters.
pub open spec fn dec_padded(n: nat, width: nat) -> Seq<char> {
    let d = dec(n);
    if d.len() < width {
        Seq::new((width - d.len()) as nat, |i: int| '0') + d
    } else {
        d
    }
}

/// The pieces joined with `sep` between consecutive pieces.
pub open spec fn join(pieces: Seq<Seq<char>>, sep: Seq<char>) -> Seq<char>
    decreases pieces.len(),
{
    if pieces.len() == 0 {
        Seq::empty()
    } else if pieces.len() == 1 {
        pieces[0]
    } else {
        join(pieces.drop_last(), sep) + sep + pieces.last()
    }
}

/// A single piece when `cond` holds, no piece otherwise.
pub open spec fn piece_if(cond: bool, piece: Seq<char>) -> Seq<Seq<char>> {
    if cond {
        seq![piece]
    } else {
        Seq::empty()
    }
}

pub proof fn lemma_dec_nonempty(n: nat)
    ensures
        dec(n).len() >= 1,
    decreases n,
{
    if n >= 10 {
        lemma_dec_nonempty(n / 10);
    }
}

/// Appending a piece to a joined sequence.
pub proof fn lemma_join_push(pieces: Seq<Seq<char>>, sep: Seq<char>, x: Seq<char>)
    ensures
        join(pieces.push(x), sep) == if pieces.len() == 0 {
            x
        } else {
            join(pieces, sep) + sep + x
        },
{
    let p = pieces.push(x);
    if pieces.len() == 0 {
        assert(p.len() == 1);
    } else {
        assert(p.drop_last() =~= pieces);
    }
}

/// A joined sequence of non-empty pieces is empty exactly when there are no pieces.
pub proof fn lemma_join_empty(pieces: Seq<Seq<char>>, sep: Seq<char>)
    requires
        forall|i: int| 0 <= i < pieces.len() ==> #[trigger] pieces[i].len() > 0,
    ensures
        (join(pieces, sep).len() == 0) <==> (pieces.len() == 0),
    decreases pieces.len(),
{
    if pieces.len() > 1 {
        let q = pieces.drop_last();
        assert forall|i: int| 0 <= i < q.len() implies #[trigger] q[i].len() > 0 by {
            assert(q[i] == pieces[i]);
        }
        lemma_join_empty(q, sep);
        assert(pieces[pieces.len() - 1].len() > 0);
    }
}

/// The digit character for `d`.
fn digit(d: u64) -> (c: char)
    requires
        d < 10,
    ensures
        c == digit_char(d as nat),
{
    let b: u8 = 48u8 + d as u8;
    b as char
}

/// The decimal representation of `n`.
pub fn u64_to_string(n: u64) -> (s: String)
    ensures
        s@ == dec(n as nat),
    decreases n,
{
    if n < 10 {
        let mut s = String::new();
        push_char(&mut s, digit(n));
        assert(s@ =~= seq![digit_char(n as nat)]);
        s
    } else {
        let mut s = u64_to_string(n / 10);
        push_char(&mut s, digit(n % 10));
        s
    }
}

/// The decimal representation of `n`, left-padded with zeros to `width` characters.
pub fn u64_to_padded_string(n: u64, width: usize) -> (s: String)
    ensures
        s@ == dec_padded(n as nat, width as nat),
{
    let d = u64_to_string(n);
    let len = d.as_str().unicode_len();
    if len < width {
        let mut s = String::new();
        let mut i: usize = 0;
        while i < width - len
            invariant
                i <= width - len,
                len < width,
                s@ =~= Seq::new(i as nat, |k: int| '0'),
            decreases width - len - i,
        {
            push_char(&mut s, '0');
            i = i + 1;
        }
        s.append(d.as_str());
        s
    } else {
        d
    }
}

/// Appends an owned string to `s`.
pub fn append_string(s: &mut String, t: String)
    ensures
        final(s)@ == old(s)@ + t@,
{
    s.append(t.as_str());
}

} // verus!

verus! {

/// Whether `s` begins with `p`.
pub open spec fn has_prefix(s: Seq<char>, p: Seq<char>) -> bool {
    p.len() <= s.len() && s.subrange(0, p.len() as int) == p
}

/// Whether `s` ends with `p`.
pub open spec fn has_suffix(s: Seq<char>, p: Seq<char>) -> bool {
    p.len() <= s.len() && s.subrange(s.len() - p.len(), s.len() as int) == p
}

/// Whether `s` begins with `p`.
pub fn starts_with(s: &str, p: &str) -> (r: bool)
    ensures
        r == has_prefix(s@, p@),
{
    let n = s.unicode_len();
    let m = p.unicode_len();
    if m > n {
        return false;
    }
    let mut i: usize = 0;
    while i < m
        invariant
            n == s@.len(),
            m == p@.len(),
            m <= n,
            i <= m,
            forall|j: int| 0 <= j < i ==> s@[j] == p@[j],
        decreases m - i,
    {
        if s.get_char(i) != p.get_char(i) {
            assert(s@.subrange(0, m as int)[i as int] != p@[i as int]);
            return false;
        }
        i = i + 1;
    }
    assert(s@.subrange(0, m as int) =~= p@);
    true
}

/// Whether `s` ends with `p`.
pub fn ends_with(s: &str, p: &str) -> (r: bool)
    ensures
        r == has_suffix(s@, p@),
{
    let n = s.unicode_len();
    let m = p.unicode_len();
    if m > n {
        return false;
    }
    let mut i: usize = 0;
    while i < m
        invariant
            n == s@.len(),
            m == p@.len(),
            m <= n,
            i <= m,
            forall|j: int| 0 <= j < i ==> s@[n - m + j] == p@[j],
        decreases m - i,
    {
        if s.get_char(n - m + i) != p.get_char(i) {
            assert(s@.subrange(n - m, n as int)[i as int] != p@[i as int]);
            return false;
        }
        i = i + 1;
    }
    assert(s@.subrange(n - m, n as int) =~= p@);
    true
}

/// `s` without its prefix `p`, or `None` when `s` does not begin with `p`.
pub fn strip_prefix<'a>(s: &'a str, p: &str) -> (r: Option<&'a str>)
    ensures
        r is Some == has_prefix(s@, p@),
        r matches Some(t) ==> t@ == s@.skip(p@.len() as int),
{
    if starts_with(s, p) {
        let t = s.substring_char(p.unicode_len(), s.unicode_len());
        assert(t@ =~= s@.skip(p@.len() as int));
        Some(t)
    } else {
        None
    }
}

/// `s` without its suffix `p`, or `None` when `s` does not end with `p`.
pub fn strip_suffix<'a>(s: &'a str, p: &str) -> (r: Option<&'a str>)
    ensures
        r is Some == has_suffix(s@, p@),
        r matches Some(t) ==> t@ == s@.subrange(0, s@.len() - p@.len()),
{
    if ends_with(s, p) {
        let t = s.substring_char(0, s.unicode_len() - p.unicode_len());
        Some(t)
    } else {
        None
    }
}

/// Whether `p` occurs in `s` as a contiguous run of characters.
pub open spec fn has_infix(s: Seq<char>, p: Seq<char>) -> bool {
    exists|i: int| 0 <= i && i + p.len() <= s.len() && #[trigger] s.subrange(i, i + p.len()) == p
}

/// Whether `p` occurs in `s`.
pub fn contains_str(s: &str, p: &str) -> (r: bool)
    ensures
        r == has_infix(s@, p@),
{
    let n = s.unicode_len();
    let m = p.unicode_len();
    if m > n {
        return false;
    }
    if m == 0 {
        assert(s@.subrange(0int, 0int + p@.len()) =~= p@);
        return true;
    }
    let mut i: usize = 0;
    while i <= n - m
        invariant
            m > 0,
            n == s@.len(),
            m == p@.len(),
            m <= n,
            i <= n - m + 1,
            forall|j: int| 0 <= j < i ==> #[trigger] s@.subrange(j, j + m) != p@,
        decreases n - m + 1 - i,
    {
        let t = s.substring_char(i, i + m);
        if str_eq(t, p) {
            return true;
        }
        i = i + 1;
    }
    false
}

/// Whether `c` has the Unicode `White_Space` property (what `char::is_whitespace`
/// tests).
pub open spec fn is_white_space(c: char) -> bool {
    let u = c as u32;
    (0x9 <= u && u <= 0xd) || u == 0x20 || u == 0x85 || u == 0xa0 || u == 0x1680 || (0x2000 <= u && u
        <= 0x200a) || u == 0x2028 || u == 0x2029 || u == 0x202f || u == 0x205f || u == 0x3000
}

/// Whether `c` is white space.
pub fn is_whitespace(c: char) -> (r: bool)
    ensures
        r == is_white_space(c),
{
    let u = c as u32;
    (0x9 <= u && u <= 0xd) || u == 0x20 || u == 0x85 || u == 0xa0 || u == 0x1680 || (0x2000 <= u && u <= 0x200a)
        || u == 0x2028 || u == 0x2029 || u == 0x202f || u == 0x205f || u == 0x3000
}

/// `s` without its leading white space.
pub open spec fn trim_start(s: Seq<char>) -> Seq<char>
    decreases s.len(),
{
    if s.len() > 0 && is_white_space(s[0]) {
        trim_start(s.skip(1))
    } else {
        s
    }
}

/// `s` without its trailing white space.
pub open spec fn trim_end(s: Seq<char>) -> Seq<char>
    decreases s.len(),
{
    if s.len() > 0 && is_white_space(s.last()) {
        trim_end(s.drop_last())
    } else {
        s
    }
}

/// `s` without leading and trailing white space.
pub open spec fn trim(s: Seq<char>) -> Seq<char> {
    trim_end(trim_start(s))
}

/// Skipping leading white space leaves the trimmed text unchanged.
proof fn lemma_trim_start_skip(s: Seq<char>, i: int)
    requires
        0 <= i <= s.len(),
        forall|j: int| 0 <= j < i ==> is_white_space(#[trigger] s[j]),
    ensures
        trim_start(s) == trim_start(s.skip(i)),
    decreases i,
{
    if i > 0 {
        assert(s.skip(1).skip(i - 1) =~= s.skip(i));
        assert forall|j: int| 0 <= j < i - 1 implies is_white_space(#[trigger] s.skip(1)[j]) by {
            assert(s.skip(1)[j] == s[j + 1]);
        }
        lemma_trim_start_skip(s.skip(1), i - 1);
    } else {
        assert(s.skip(0) =~= s);
    }
}

/// Dropping trailing white space leaves the trimmed text unchanged.
proof fn lemma_trim_end_take(s: Seq<char>, i: int)
    requires
        0 <= i <= s.len(),
        forall|j: int| i <= j < s.len() ==> is_white_space(#[trigger] s[j]),
    ensures
        trim_end(s) == trim_end(s.take(i)),
    decreases s.len() - i,
{
    if i < s.len() {
        assert(s.drop_last().take(i) =~= s.take(i));
        lemma_trim_end_take(s.drop_last(), i);
    } else {
        assert(s.take(i) =~= s);
    }
}

/// `s` without its leading white space.
pub fn str_trim_start(s: &str) -> (r: &str)
    ensures
        r@ == trim_start(s@),
{
    let n = s.unicode_len();
    let mut i: usize = 0;
    while i < n && is_whitespace(s.get_char(i))
        invariant
            n == s@.len(),
            i <= n,
            forall|j: int| 0 <= j < i ==> is_white_space(#[trigger] s@[j]),
        decreases n - i,
    {
        i = i + 1;
    }
    proof {
        lemma_trim_start_skip(s@, i as int);
    }
    let r = s.substring_char(i, n);
    assert(r@ =~= s@.skip(i as int));
    r
}

/// `s` without leading and trailing white space.
pub fn str_trim(s: &str) -> (r: &str)
    ensures
        r@ == trim(s@),
{
    let t = str_trim_start(s);
    let n = t.unicode_len();
    let mut i: usize = n;
    while i > 0 && is_whitespace(t.get_char(i - 1))
        invariant
            n == t@.len(),
            i <= n,
            forall|j: int| i <= j < n ==> is_white_space(#[trigger] t@[j]),
        decreases i,
    {
        i = i - 1;
    }
    proof {
        lemma_trim_end_take(t@, i as int);
        assert(t@.take(i as int) =~= t@.take(i as int));
        if i > 0 {
            assert(!is_white_space(t@.take(i as int).last()));
        }
    }
    let r = t.substring_char(0, i);
    assert(r@ =~= t@.take(i as int));
    r
}

/// The pieces of `s` between occurrences of `sep` (one more than there are
/// separators).
pub open spec fn split_char(s: Seq<char>, sep: char) -> Seq<Seq<char>>
    decreases s.len(),
{
    if s.len() == 0 {
        seq![Seq::empty()]
    } else {
        let r = split_char(s.drop_last(), sep);
        if s.last() == sep {
            r.push(Seq::empty())
        } else {
            r.update(r.len() - 1, r.last().push(s.last()))
        }
    }
}

pub proof fn lemma_split_char_nonempty(s: Seq<char>, sep: char)
    ensures
        split_char(s, sep).len() >= 1,
    decreases s.len(),
{
    if s.len() > 0 {
        lemma_split_char_nonempty(s.drop_last(), sep);
    }
}

/// `s` without one trailing carriage return.
pub open spec fn strip_cr(s: Seq<char>) -> Seq<char> {
    if s.len() > 0 && s.last() == '\r' {
        s.drop_last()
    } else {
        s
    }
}

/// The lines of `s` as `str::lines` gives them: split at each line feed, a
/// carriage return before a line feed dropped, and no empty last line after a
/// final line feed.
pub open spec fn lines_of(s: Seq<char>) -> Seq<Seq<char>> {
    let parts = split_char(s, '\n');
    let ended = parts.drop_last().map_values(|p: Seq<char>| strip_cr(p));
    if parts.last().len() == 0 {
        ended
    } else {
        ended.push(parts.last())
    }
}

/// The lines of `s` (see `lines_of`).
pub fn str_lines(s: &str) -> (r: Vec<String>)
    ensures
        r@.map_values(|x: String| x@) == lines_of(s@),
{
    let n = s.unicode_len();
    let ghost t = s@;
    let mut lines: Vec<String> = Vec::new();
    let mut cur = String::new();
    let mut i: usize = 0;
    proof {
        assert(t.take(0) =~= Seq::<char>::empty());
    }
    while i < n
        invariant
            n == t.len(),
            t == s@,
            i <= n,
            split_char(t.take(i as int), '\n').len() >= 1,
            lines@.map_values(|x: String| x@) == split_char(t.take(i as int), '\n').drop_last().map_values(
                |p: Seq<char>| strip_cr(p),
            ),
            cur@ == split_char(t.take(i as int), '\n').last(),
        decreases n - i,
    {
        let c = s.get_char(i);
        let ghost u = t.take(i as int + 1);
        let ghost prev_split = split_char(t.take(i as int), '\n');
        assert(u.drop_last() =~= t.take(i as int));
        assert(u.last() == c);
        if c == '\n' {
            let ghost prev = lines@;
            let line = if cur.as_str().unicode_len() > 0 && cur.as_str().get_char(cur.as_str().unicode_len() - 1) == '\r' {
                cur.as_str().substring_char(0, cur.as_str().unicode_len() - 1).to_owned()
            } else {
                cur.clone()
            };
            assert(line@ == strip_cr(cur@)) by {
                if cur@.len() > 0 && cur@.last() == '\r' {
                    assert(line@ =~= cur@.drop_last());
                }
            }
            lines.push(line);
            cur = String::new();
            assert(split_char(u, '\n') == prev_split.push(Seq::empty()));
            assert(split_char(u, '\n').drop_last() =~= prev_split);
            assert(lines@.map_values(|x: String| x@) =~= prev.map_values(|x: String| x@).push(line@));
            assert(prev_split.map_values(|p: Seq<char>| strip_cr(p)) =~= prev_split.drop_last().map_values(
                |p: Seq<char>| strip_cr(p),
            ).push(strip_cr(prev_split.last())));
            assert(lines@.map_values(|x: String| x@) =~= split_char(u, '\n').drop_last().map_values(
                |p: Seq<char>| strip_cr(p),
            ));
        } else {
            push_char(&mut cur, c);
            assert(split_char(u, '\n').drop_last() =~= prev_split.drop_last());
        }
        proof {
            lemma_split_char_nonempty(u, '\n');
        }
        i = i + 1;
    }
    assert(t.take(n as int) =~= t);
    if cur.as_str().unicode_len() > 0 {
        let ghost prev = lines@;
        lines.push(cur);
        assert(lines@.map_values(|x: String| x@) =~= prev.map_values(|x: String| x@).push(split_char(t, '\n').last()));
    }
    lines
}

/// The pieces of `s` between occurrences of `sep` (see `split_char`).
pub fn str_split_char(s: &str, sep: char) -> (r: Vec<String>)
    ensures
        string_texts(r@) == split_char(s@, sep),
{
    let n = s.unicode_len();
    let ghost t = s@;
    let mut pieces: Vec<String> = Vec::new();
    let mut cur = String::new();
    let mut i: usize = 0;
    proof {
        assert(t.take(0) =~= Seq::<char>::empty());
    }
    while i < n
        invariant
            n == t.len(),
            t == s@,
            i <= n,
            string_texts(pieces@).push(cur@) == split_char(t.take(i as int), sep),
        decreases n - i,
    {
        let c = s.get_char(i);
        let ghost u = t.take(i as int + 1);
        assert(u.drop_last() =~= t.take(i as int));
        assert(u.last() == c);
        let ghost prev = pieces@;
        let ghost prev_cur = cur@;
        if c == sep {
            pieces.push(cur);
            cur = String::new();
            assert(string_texts(pieces@) =~= string_texts(prev).push(prev_cur));
            assert(string_texts(pieces@).push(cur@) =~= split_char(u, sep));
        } else {
            push_char(&mut cur, c);
            assert(string_texts(pieces@).push(cur@) =~= split_char(u, sep));
        }
        i = i + 1;
    }
    assert(t.take(n as int) =~= t);
    let ghost prev = pieces@;
    let ghost last = cur@;
    pieces.push(cur);
    assert(string_texts(pieces@) =~= string_texts(prev).push(last));
    pieces
}

/// The texts of a list of strings.
pub open spec fn string_texts(v: Seq<String>) -> Seq<Seq<char>> {
    v.map_values(|x: String| x@)
}

/// The strings joined with `sep` between consecutive ones.
pub fn join_strings(parts: &Vec<String>, sep: &str) -> (r: String)
    ensures
        r@ == join(string_texts(parts@), sep@),
{
    let ghost ps = string_texts(parts@);
    let mut out = String::new();
    let mut i: usize = 0;
    while i < parts.len()
        invariant
            i <= parts.len(),
            ps == string_texts(parts@),
            out@ == join(ps.take(i as int), sep@),
        decreases parts.len() - i,
    {
        proof {
            lemma_join_push(ps.take(i as int), sep@, parts@[i as int]@);
            assert(ps.take(i as int).push(parts@[i as int]@) =~= ps.take(i as int + 1));
        }
        if i > 0 {
            out.append(sep);
        }
        out.append(parts[i].as_str());
        proof {
            if i == 0 {
                assert(out@ =~= parts@[0]@);
            }
        }
        i = i + 1;
    }
    assert(ps.take(parts.len() as int) =~= ps);
    out
}

} // verus!
