//! Preparing chat messages for the upstream service: the web references that
//! open a message, the links that a message points at, and tool names.
use vstd::prelude::*;

pub mod anthropic;
pub mod openai;

use crate::api::aiserver::v1::{ComposerExternalLink, ExplicitContext, WebReference};
use crate::text::{
    dec, has_prefix, is_white_space, is_whitespace, lines_of, push_char, starts_with, str_eq, str_lines, str_trim,
    str_trim_start, trim, trim_start, u64_to_string,
};

verus! {

/// The scheme of `input` when the `url` crate parses it as a URL.
pub uninterp spec fn url_scheme(input: Seq<char>) -> Option<Seq<char>>;

/// The scheme of `input` read as a URL; `None` when it is no URL.
///
/// Trusted: calls `url::Url::parse` and `Url::scheme`. Parsing depends on the
/// input alone; the result is only named, not described.
#[verifier::external_body]
fn parse_url_scheme(input: &str) -> (r: Option<String>)
    ensures
        (match r {
            Some(s) => url_scheme(input@) == Some(s@),
            None => url_scheme(input@) is None,
        }),
{
    match url::Url::parse(input) {
        Ok(u) => Some(u.scheme().to_string()),
        Err(_) => None,
    }
}

/// What a web reference stands for.
pub struct RefView {
    pub title: Seq<char>,
    pub url: Seq<char>,
    pub chunk: Seq<char>,
}

pub open spec fn ref_view(r: WebReference) -> RefView {
    RefView { title: r.title@, url: r.url@, chunk: r.chunk@ }
}

/// `c` added to the field that `state` writes: the title, the URL or the chunk.
pub open spec fn push_field(r: RefView, state: int, c: char) -> RefView {
    if state == 0 {
        RefView { title: r.title.push(c), ..r }
    } else if state == 1 {
        RefView { url: r.url.push(c), ..r }
    } else {
        RefView { chunk: r.chunk.push(c), ..r }
    }
}

/// Reads `[title](url)<chunk>` from position `i` of `s` (after the opening
/// bracket) in state `state` (0: title, 1: URL, 2: chunk): `](` moves from the
/// title to the URL, `)<` from the URL to the chunk, `>` ends the chunk; a
/// `]` or `)` not followed by the expected character ends the reading.
pub open spec fn read_ref(s: Seq<char>, i: int, state: int, r: RefView) -> RefView
    decreases s.len() - i,
    when 0 <= i
{
    if i >= s.len() {
        r
    } else {
        let c = s[i];
        if state == 0 && c == ']' {
            if i + 1 < s.len() && s[i + 1] == '(' {
                read_ref(s, i + 2, 1, r)
            } else {
                r
            }
        } else if state == 1 && c == ')' {
            if i + 1 < s.len() && s[i + 1] == '<' {
                read_ref(s, i + 2, 2, r)
            } else {
                r
            }
        } else if state == 2 && c == '>' {
            r
        } else {
            read_ref(s, i + 1, state, push_field(r, state, c))
        }
    }
}

/// What follows the first `.` of `s` (nothing when there is none).
pub open spec fn after_dot(s: Seq<char>) -> Seq<char>
    decreases s.len(),
{
    if s.len() == 0 {
        s
    } else if s[0] == '.' {
        s.skip(1)
    } else {
        after_dot(s.skip(1))
    }
}

/// The empty reference.
pub open spec fn empty_ref() -> RefView {
    RefView { title: Seq::empty(), url: Seq::empty(), chunk: Seq::empty() }
}

/// The references listed from line `i` on: each line is trimmed, an empty
/// line ends the list, the number before the first `.` is skipped, and a line
/// whose rest does not open with `[` is passed over.
pub open spec fn refs_from(lines: Seq<Seq<char>>, i: int) -> Seq<RefView>
    decreases lines.len() - i,
    when 0 <= i
{
    if i >= lines.len() {
        Seq::empty()
    } else {
        let tl = trim(lines[i]);
        if tl.len() == 0 {
            Seq::empty()
        } else {
            let rest = trim_start(after_dot(tl));
            let tail = refs_from(lines, i + 1);
            if rest.len() > 0 && rest[0] == '[' {
                seq![read_ref(rest, 1, 0, empty_ref())] + tail
            } else {
                tail
            }
        }
    }
}

/// The references of a `WebReferences:` block: its lines after the first.
pub open spec fn web_refs_of(text: Seq<char>) -> Seq<RefView> {
    if lines_of(text).len() == 0 {
        Seq::empty()
    } else {
        refs_from(lines_of(text), 1)
    }
}

pub open spec fn ref_views(rs: Seq<WebReference>) -> Seq<RefView> {
    rs.map_values(|r: WebReference| ref_view(r))
}

/// What follows the first `.` of `s`.
fn str_after_dot(s: &str) -> (r: &str)
    ensures
        r@ == after_dot(s@),
{
    let n = s.unicode_len();
    let mut i: usize = 0;
    assert(s@.skip(0) =~= s@);
    while i < n
        invariant
            n == s@.len(),
            i <= n,
            after_dot(s@) == after_dot(s@.skip(i as int)),
        decreases n - i,
    {
        assert(s@.skip(i as int)[0] == s@[i as int]);
        assert(s@.skip(i as int).skip(1) =~= s@.skip(i as int + 1));
        if s.get_char(i) == '.' {
            let r = s.substring_char(i + 1, n);
            assert(r@ =~= s@.skip(i as int + 1));
            return r;
        }
        i = i + 1;
    }
    assert(s@.skip(n as int) =~= Seq::<char>::empty());
    s.substring_char(n, n)
}

/// Reads a reference from `s`, which starts with `[` (see `read_ref`).
fn read_reference(s: &str) -> (r: WebReference)
    requires
        s@.len() > 0,
    ensures
        ref_view(r) == read_ref(s@, 1, 0, empty_ref()),
{
    let n = s.unicode_len();
    let mut title = String::new();
    let mut url = String::new();
    let mut chunk = String::new();
    let mut state: u8 = 0;
    let mut i: usize = 1;
    let mut done = false;
    while i < n && !done
        invariant
            n == s@.len(),
            1 <= i <= n,
            state <= 2,
            done ==> read_ref(s@, 1, 0, empty_ref()) == (RefView { title: title@, url: url@, chunk: chunk@ }),
            !done ==> read_ref(s@, 1, 0, empty_ref()) == read_ref(
                s@,
                i as int,
                state as int,
                RefView { title: title@, url: url@, chunk: chunk@ },
            ),
        decreases 2 * (n - i) + (if done { 0int } else { 1int }),
    {
        let c = s.get_char(i);
        if state == 0 && c == ']' {
            if i + 1 < n && s.get_char(i + 1) == '(' {
                state = 1;
                i = i + 2;
            } else {
                done = true;
            }
        } else if state == 1 && c == ')' {
            if i + 1 < n && s.get_char(i + 1) == '<' {
                state = 2;
                i = i + 2;
            } else {
                done = true;
            }
        } else if state == 2 && c == '>' {
            done = true;
        } else {
            let ghost before = RefView { title: title@, url: url@, chunk: chunk@ };
            if state == 0 {
                push_char(&mut title, c);
            } else if state == 1 {
                push_char(&mut url, c);
            } else {
                push_char(&mut chunk, c);
            }
            assert((RefView { title: title@, url: url@, chunk: chunk@ }) == push_field(before, state as int, c));
            i = i + 1;
        }
    }
    WebReference { title, url, chunk }
}

/// The references of a `WebReferences:` block (see `web_refs_of`).
pub fn parse_web_references(text: &str) -> (r: Vec<WebReference>)
    ensures
        ref_views(r@) == web_refs_of(text@),
{
    let lines = str_lines(text);
    let ghost ls = lines@.map_values(|x: String| x@);
    let mut refs: Vec<WebReference> = Vec::new();
    if lines.len() == 0 {
        return refs;
    }
    let mut i: usize = 1;
    let mut done = false;
    while i < lines.len() && !done
        invariant
            ls == lines@.map_values(|x: String| x@),
            ls == lines_of(text@),
            1 <= i <= lines.len(),
            done ==> refs_from(ls, 1) == ref_views(refs@),
            !done ==> refs_from(ls, 1) == ref_views(refs@) + refs_from(ls, i as int),
        decreases 2 * (lines.len() - i) + (if done { 0int } else { 1int }),
    {
        let tl = str_trim(lines[i].as_str());
        assert(ls[i as int] == lines@[i as int]@);
        if tl.unicode_len() == 0 {
            assert(refs_from(ls, i as int) =~= Seq::<RefView>::empty());
            assert(ref_views(refs@) + Seq::<RefView>::empty() =~= ref_views(refs@));
            done = true;
        } else {
            let rest = str_trim_start(str_after_dot(tl));
            if rest.unicode_len() > 0 && rest.get_char(0) == '[' {
                let ghost prev = refs@;
                let r = read_reference(rest);
                refs.push(r);
                assert(ref_views(refs@) =~= ref_views(prev).push(ref_view(r)));
                assert(ref_views(prev) + (seq![ref_view(r)] + refs_from(ls, i as int + 1)) =~= ref_views(refs@)
                    + refs_from(ls, i as int + 1));
            }
            i = i + 1;
        }
    }
    proof {
        if !done {
            assert(refs_from(ls, i as int) =~= Seq::<RefView>::empty());
            assert(ref_views(refs@) + Seq::<RefView>::empty() =~= ref_views(refs@));
        }
    }
    refs
}

/// The first position at or after `i` where `p` occurs in `s`, if any.
pub open spec fn find_from(s: Seq<char>, p: Seq<char>, i: int) -> Option<int>
    decreases s.len() + 1 - i,
    when 0 <= i
{
    if i + p.len() > s.len() {
        None
    } else if s.subrange(i, i + p.len()) == p {
        Some(i)
    } else {
        find_from(s, p, i + 1)
    }
}

/// A found position is where the pattern occurs, at or after the start.
proof fn lemma_find_from(s: Seq<char>, p: Seq<char>, i: int)
    requires
        0 <= i,
    ensures
        find_from(s, p, i) matches Some(k) ==> i <= k && k + p.len() <= s.len() && s.subrange(k, k + p.len()) == p,
    decreases s.len() + 1 - i,
{
    if i + p.len() <= s.len() && s.subrange(i, i + p.len()) != p {
        lemma_find_from(s, p, i + 1);
    }
}

/// A message opened by a `WebReferences:` block: the message after the first
/// blank line, the block's references, and whether there are any; any other
/// message is kept whole with no references.
pub open spec fn web_references_split(text: Seq<char>) -> (Seq<char>, Seq<RefView>, bool) {
    if has_prefix(text, "WebReferences:"@) {
        match find_from(text, "\n\n"@, 0) {
            Some(k) => {
                let refs = web_refs_of(text.take(k));
                (text.skip(k + 2), refs, refs.len() > 0)
            },
            None => (text, Seq::empty(), false),
        }
    } else {
        (text, Seq::empty(), false)
    }
}

/// The first position of a blank line (`\n\n`) in `s`.
fn find_blank_line(s: &str) -> (r: Option<usize>)
    ensures
        (match r {
            Some(k) => find_from(s@, "\n\n"@, 0) == Some(k as int),
            None => find_from(s@, "\n\n"@, 0) is None,
        }),
{
    proof {
        reveal_strlit("\n\n");
        assert("\n\n"@.len() == 2);
    }
    let n = s.unicode_len();
    if n < 2 {
        return None;
    }
    let mut i: usize = 0;
    while i < n - 1
        invariant
            n == s@.len(),
            n >= 2,
            "\n\n"@ == seq!['\n', '\n'],
            find_from(s@, "\n\n"@, 0) == find_from(s@, "\n\n"@, i as int),
        decreases n - i,
    {
        if s.get_char(i) == '\n' && s.get_char(i + 1) == '\n' {
            assert(s@.subrange(i as int, i + 2) =~= "\n\n"@);
            return Some(i);
        }
        assert(s@.subrange(i as int, i + 2) != "\n\n"@) by {
            assert(s@.subrange(i as int, i + 2)[0] == s@[i as int]);
            assert(s@.subrange(i as int, i + 2)[1] == s@[i + 1]);
        }
        i = i + 1;
    }
    None
}

/// Splits a message opened by a `WebReferences:` block into the message and
/// the references (see `web_references_split`).
pub fn extract_web_references_info(text: &str) -> (r: (String, Vec<WebReference>, bool))
    ensures
        (r.0@, ref_views(r.1@), r.2) == web_references_split(text@),
{
    if starts_with(text, "WebReferences:") {
        match find_blank_line(text) {
            Some(k) => {
                proof {
                    lemma_find_from(text@, "\n\n"@, 0);
                    reveal_strlit("\n\n");
                }
                let n = text.unicode_len();
                let head = text.substring_char(0, k);
                let content = text.substring_char(k + 2, n);
                assert(head@ =~= text@.take(k as int));
                assert(content@ =~= text@.skip(k + 2));
                let refs = parse_web_references(head);
                let has = refs.len() > 0;
                (content.to_owned(), refs, has)
            },
            None => (text.to_owned(), Vec::new(), false),
        }
    } else {
        (text.to_owned(), Vec::new(), false)
    }
}

/// The number of characters from position `q` of `s` up to the next white
/// space or the end.
pub open spec fn run_len(s: Seq<char>, q: int) -> nat
    decreases s.len() - q,
    when 0 <= q
{
    if q >= s.len() || is_white_space(s[q]) {
        0
    } else {
        1 + run_len(s, q + 1)
    }
}

/// Whether `w` is an accepted link: a non-empty `http` or `https` URL.
pub open spec fn link_ok(w: Seq<char>) -> bool {
    w.len() > 0 && match url_scheme(w) {
        Some(sc) => sc == "http"@ || sc == "https"@,
        None => false,
    }
}

/// The links of `s` from position `p` on, numbered from `base`, and the next
/// free number: a link is the run of non-blank characters after an `@`, kept
/// when it is an `http` or `https` URL; numbers wrap around at 65536.
pub open spec fn links_from(s: Seq<char>, p: int, base: u16) -> (Seq<(Seq<char>, Seq<char>)>, u16)
    decreases s.len() - p,
    when 0 <= p
{
    if p >= s.len() {
        (Seq::empty(), base)
    } else if s[p] == '@' {
        proof {
            lemma_run_len_bound(s, p + 1);
        }
        let n = run_len(s, p + 1);
        let w = s.subrange(p + 1, p + 1 + n);
        if link_ok(w) {
            let r = links_from(s, p + 1 + n, (if base == u16::MAX { 0 } else { base + 1 }) as u16);
            (seq![(w, dec(base as nat))] + r.0, r.1)
        } else {
            links_from(s, p + 1 + n, base)
        }
    } else {
        links_from(s, p + 1, base)
    }
}

/// A run ends at the end of the text at the latest.
pub proof fn lemma_run_len_bound(s: Seq<char>, q: int)
    requires
        0 <= q,
    ensures
        q < s.len() ==> q + run_len(s, q) <= s.len(),
        q >= s.len() ==> run_len(s, q) == 0,
    decreases s.len() - q,
{
    if q < s.len() && !is_white_space(s[q]) {
        lemma_run_len_bound(s, q + 1);
    }
}

/// A run of non-blank characters has the length that `run_len` counts.
proof fn lemma_run_len(s: Seq<char>, a: int, b: int)
    requires
        0 <= a <= b <= s.len(),
        forall|j: int| a <= j < b ==> !is_white_space(#[trigger] s[j]),
        b == s.len() || is_white_space(s[b]),
    ensures
        run_len(s, a) == b - a,
    decreases b - a,
{
    if a < b {
        lemma_run_len(s, a + 1, b);
    }
}

pub open spec fn link_views(ls: Seq<ComposerExternalLink>) -> Seq<(Seq<char>, Seq<char>)> {
    ls.map_values(|l: ComposerExternalLink| (l.url@, l.uuid@))
}

/// The `http` and `https` links that `text` points at with `@`, numbered from
/// `*base_uuid`, which is left at the next free number (see `links_from`).
pub fn extract_external_links(text: &str, base_uuid: &mut u16) -> (r: Vec<ComposerExternalLink>)
    ensures
        (link_views(r@), *final(base_uuid)) == links_from(text@, 0, *old(base_uuid)),
{
    let ghost s = text@;
    let ghost total = links_from(s, 0, *base_uuid);
    let n = text.unicode_len();
    let mut links: Vec<ComposerExternalLink> = Vec::new();
    let mut p: usize = 0;
    while p < n
        invariant
            n == s.len(),
            s == text@,
            p <= n,
            total.0 == link_views(links@) + links_from(s, p as int, *base_uuid).0,
            total.1 == links_from(s, p as int, *base_uuid).1,
        decreases n - p,
    {
        if text.get_char(p) == '@' {
            let mut q: usize = p + 1;
            while q < n && !is_whitespace(text.get_char(q))
                invariant
                    n == s.len(),
                    s == text@,
                    p < n,
                    p + 1 <= q <= n,
                    forall|j: int| p + 1 <= j < q ==> !is_white_space(#[trigger] s[j]),
                decreases n - q,
            {
                q = q + 1;
            }
            proof {
                lemma_run_len(s, p + 1, q as int);
            }
            let w = text.substring_char(p + 1, q);
            assert(w@ =~= s.subrange(p + 1, q as int));
            let ok = if w.unicode_len() > 0 {
                match parse_url_scheme(w) {
                    Some(sc) => str_eq(sc.as_str(), "http") || str_eq(sc.as_str(), "https"),
                    None => false,
                }
            } else {
                false
            };
            if ok {
                let ghost prev = links@;
                let ghost b = *base_uuid;
                let uuid = u64_to_string(*base_uuid as u64);
                links.push(ComposerExternalLink { url: w.to_owned(), uuid });
                *base_uuid = base_uuid.wrapping_add(1);
                assert(*base_uuid == (if b == u16::MAX { 0 } else { b + 1 }) as u16);
                assert(link_views(links@) =~= link_views(prev).push((w@, dec(b as nat))));
                assert(link_views(prev) + (seq![(w@, dec(b as nat))] + links_from(s, q as int, *base_uuid).0)
                    =~= link_views(links@) + links_from(s, q as int, *base_uuid).0);
            }
            p = q;
        } else {
            p = p + 1;
        }
    }
    assert(link_views(links@) + Seq::<(Seq<char>, Seq<char>)>::empty() =~= link_views(links@));
    links
}

/// The character that a tool name keeps for `c`: dots and white space become
/// underscores, ASCII letters, digits, `_` and `-` stay, anything else is
/// dropped.
pub open spec fn tool_name_char(c: char) -> Seq<char> {
    if c == '.' || is_white_space(c) {
        seq!['_']
    } else if ('a' <= c && c <= 'z') || ('A' <= c && c <= 'Z') || ('0' <= c && c <= '9') || c == '_' || c
        == '-' {
        seq![c]
    } else {
        Seq::empty()
    }
}

/// A tool name made safe for the upstream service (see `tool_name_char`).
pub open spec fn sanitized(s: Seq<char>) -> Seq<char>
    decreases s.len(),
{
    if s.len() == 0 {
        Seq::empty()
    } else {
        sanitized(s.drop_last()) + tool_name_char(s.last())
    }
}

/// A tool name made safe for the upstream service (see `sanitized`).
pub fn sanitize_tool_name(input: &str) -> (r: String)
    ensures
        r@ == sanitized(input@),
{
    let n = input.unicode_len();
    let mut result = String::new();
    let mut i: usize = 0;
    while i < n
        invariant
            n == input@.len(),
            i <= n,
            result@ == sanitized(input@.take(i as int)),
        decreases n - i,
    {
        let c = input.get_char(i);
        assert(input@.take(i as int + 1).drop_last() =~= input@.take(i as int));
        assert(input@.take(i as int + 1).last() == c);
        let ghost prev = result@;
        if c == '.' || is_whitespace(c) {
            push_char(&mut result, '_');
        } else if ('a' <= c && c <= 'z') || ('A' <= c && c <= 'Z') || ('0' <= c && c <= '9') || c == '_' || c
            == '-' {
            push_char(&mut result, c);
        }
        assert(result@ =~= prev + tool_name_char(c));
        i = i + 1;
    }
    assert(input@.take(n as int) =~= input@);
    result
}

/// The explicit context of a chat request: the system instructions, when
/// they hold more than white space; no rules and no other context.
pub fn explicit_context_of(instructions: String) -> (r: Option<ExplicitContext>)
    ensures
        trim(instructions@).len() == 0 ==> r is None,
        trim(instructions@).len() > 0 ==> (r matches Some(c) && c.context@ == instructions@ && c.repo_context is None
            && c.rules@.len() == 0 && c.mode_specific_context is None),
{
    if str_trim(instructions.as_str()).unicode_len() == 0 {
        None
    } else {
        Some(ExplicitContext { context: instructions, repo_context: None, rules: Vec::new(), mode_specific_context: None })
    }
}

/// `Some(true)` for `true`, nothing for `false` (an optional flag that is
/// only sent when set).
pub open spec fn spec_to_opt(b: bool) -> Option<bool> {
    if b {
        Some(true)
    } else {
        None
    }
}

/// An optional flag that is only sent when set (see `spec_to_opt`).
pub fn to_opt(b: bool) -> (r: Option<bool>)
    ensures
        r == spec_to_opt(b),
{
    if b {
        Some(true)
    } else {
        None
    }
}

/// A turn of the conversation as it is sent on: its text, its type (1 for
/// the user, 2 for the assistant), its bubble ids, the web references an
/// assistant turn opened with, whether it used the web, and the links a user
/// turn points at.
pub struct ChatTurn {
    pub text: String,
    pub message_type: i32,
    pub bubble_id: String,
    pub server_bubble_id: Option<String>,
    pub web_references: Vec<WebReference>,
    pub use_web: Option<bool>,
    pub external_links: Vec<ComposerExternalLink>,
}

/// A turn of the conversation from a user or assistant message's text. A
/// user turn keeps its text, has only the client's bubble id, and collects
/// the links it points at (numbered from `*base_uuid`, which moves on); an
/// assistant turn also has the server's bubble id, and loses a leading
/// `WebReferences:` block, which becomes its references and marks it as
/// having used the web.
pub fn chat_turn(is_user: bool, text: &str, bubble_id: String, server_bubble_id: String, base_uuid: &mut u16) -> (r: ChatTurn)
    ensures
        r.message_type == (if is_user {
            1i32
        } else {
            2i32
        }),
        r.bubble_id == bubble_id,
        is_user ==> ({
            &&& r.server_bubble_id is None
            &&& r.text@ == text@
            &&& r.web_references@.len() == 0
            &&& r.use_web is None
            &&& (link_views(r.external_links@), *final(base_uuid)) == links_from(text@, 0, *old(base_uuid))
        }),
        !is_user ==> ({
            &&& r.server_bubble_id == Some(server_bubble_id)
            &&& (r.text@, ref_views(r.web_references@), r.use_web == Some(true)) == web_references_split(text@)
            &&& r.use_web == spec_to_opt(web_references_split(text@).2)
            &&& r.external_links@.len() == 0
            &&& *final(base_uuid) == *old(base_uuid)
        }),
{
    if is_user {
        let links = extract_external_links(text, base_uuid);
        ChatTurn {
            text: text.to_owned(),
            message_type: 1,
            bubble_id,
            server_bubble_id: None,
            web_references: Vec::new(),
            use_web: None,
            external_links: links,
        }
    } else {
        let (t, refs, has_web) = extract_web_references_info(text);
        ChatTurn {
            text: t,
            message_type: 2,
            bubble_id,
            server_bubble_id: Some(server_bubble_id),
            web_references: refs,
            use_web: to_opt(has_web),
            external_links: Vec::new(),
        }
    }
}

} // verus!
