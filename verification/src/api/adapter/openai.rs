//! Preparing an OpenAI chat request for the upstream service: the system
//! instructions, the turns of the conversation, and inline images.
use vstd::prelude::*;

use crate::api::model::Role;
use crate::api::model::openai::{Message, MessageContent, MessageContentObject};
use crate::api::adapter::{ChatTurn, find_from, chat_turn, link_views, links_from, ref_views, spec_to_opt, web_references_split};
use crate::common::utils::standard_base64::{standard_decode, standard_decode_bytes};
use crate::text::{join, join_strings, str_eq, string_texts};

verus! {

/// The texts of the text parts, in order.
pub open spec fn part_texts(parts: Seq<MessageContentObject>) -> Seq<Seq<char>>
    decreases parts.len(),
{
    if parts.len() == 0 {
        Seq::empty()
    } else {
        let r = part_texts(parts.drop_last());
        match parts.last() {
            MessageContentObject::Text { text } => r.push(text@),
            MessageContentObject::ImageUrl { .. } => r,
        }
    }
}

/// The text of a message: plain text, or its text parts joined by line feeds.
pub open spec fn content_text(c: MessageContent) -> Seq<char> {
    match c {
        MessageContent::String(t) => t@,
        MessageContent::Array(ps) => join(part_texts(ps@), "\n"@),
    }
}

/// The texts of the text parts of `parts`.
fn text_parts(parts: &Vec<MessageContentObject>) -> (r: Vec<String>)
    ensures
        string_texts(r@) == part_texts(parts@),
{
    let mut r: Vec<String> = Vec::new();
    let mut i: usize = 0;
    while i < parts.len()
        invariant
            i <= parts.len(),
            string_texts(r@) == part_texts(parts@.take(i as int)),
        decreases parts.len() - i,
    {
        assert(parts@.take(i as int + 1).drop_last() =~= parts@.take(i as int));
        assert(parts@.take(i as int + 1).last() == parts@[i as int]);
        match &parts[i] {
            MessageContentObject::Text { text } => {
                let ghost prev = r@;
                let t = text.clone();
                r.push(t);
                assert(string_texts(r@) =~= string_texts(prev).push(t@));
            },
            MessageContentObject::ImageUrl { .. } => {},
        }
        i = i + 1;
    }
    assert(parts@.take(parts.len() as int) =~= parts@);
    r
}

/// The text of a message (see `content_text`).
pub fn message_text(content: &MessageContent) -> (r: String)
    ensures
        r@ == content_text(*content),
{
    match content {
        MessageContent::String(t) => t.clone(),
        MessageContent::Array(ps) => {
            let texts = text_parts(ps);
            join_strings(&texts, "\n")
        },
    }
}

/// The texts of the system messages, in order.
pub open spec fn system_texts(ms: Seq<Message>) -> Seq<Seq<char>>
    decreases ms.len(),
{
    if ms.len() == 0 {
        Seq::empty()
    } else {
        let r = system_texts(ms.drop_last());
        if ms.last().role == Role::System {
            r.push(content_text(ms.last().content))
        } else {
            r
        }
    }
}

/// The messages that are not system messages, in order.
pub open spec fn conversation(ms: Seq<Message>) -> Seq<Message>
    decreases ms.len(),
{
    if ms.len() == 0 {
        Seq::empty()
    } else {
        let r = conversation(ms.drop_last());
        if ms.last().role == Role::System {
            r
        } else {
            r.push(ms.last())
        }
    }
}

/// Separates the system messages from the conversation: their texts joined
/// by blank lines, and the other messages in order.
pub fn split_instructions(inputs: Vec<Message>) -> (r: (String, Vec<Message>))
    ensures
        r.0@ == join(system_texts(inputs@), "\n\n"@),
        r.1@ == conversation(inputs@),
{
    let ghost all = inputs@;
    let mut rest = inputs;
    let mut texts: Vec<String> = Vec::new();
    let mut chat: Vec<Message> = Vec::new();
    let mut i: usize = 0;
    assert(all.take(0) =~= Seq::<Message>::empty());
    assert(all.len() == rest.len());
    while rest.len() > 0
        invariant
            i <= all.len(),
            all.len() <= usize::MAX,
            rest@ == all.skip(i as int),
            string_texts(texts@) == system_texts(all.take(i as int)),
            chat@ == conversation(all.take(i as int)),
        decreases rest.len(),
    {
        let m = rest.remove(0);
        proof {
            assert(all.skip(i as int).remove(0) =~= all.skip(i as int + 1));
            assert(all.take(i as int + 1).drop_last() =~= all.take(i as int));
            assert(all.take(i as int + 1).last() == m);
        }
        if m.role == Role::System {
            let ghost prev = texts@;
            let t = message_text(&m.content);
            texts.push(t);
            assert(string_texts(texts@) =~= string_texts(prev).push(t@));
        } else {
            chat.push(m);
        }
        i = i + 1;
    }
    assert(all.take(i as int) =~= all);
    (join_strings(&texts, "\n\n"), chat)
}

/// Whether the message is an empty user message.
pub open spec fn is_empty_user(m: Message) -> bool {
    &&& m.role == Role::User
    &&& m.content matches MessageContent::String(t)
    &&& t@.len() == 0
}

/// The conversation made to start and end with the user: an empty user
/// message goes before a leading and after a trailing assistant message.
pub fn balance_turns(chat: Vec<Message>) -> (r: Vec<Message>)
    ensures
        ({
            let lead = chat.len() > 0 && chat@[0].role == Role::Assistant;
            let trail = chat.len() > 0 && chat@.last().role == Role::Assistant;
            let k: int = if lead { 1 } else { 0 };
            &&& r.len() == chat.len() + k + (if trail { 1int } else { 0 })
            &&& r@.subrange(k, k + chat.len()) == chat@
            &&& lead ==> is_empty_user(r@[0])
            &&& trail ==> is_empty_user(r@.last())
        }),
{
    let ghost orig = chat@;
    let mut chat = chat;
    let n = chat.len();
    let lead = n > 0 && chat[0].role == Role::Assistant;
    let trail = n > 0 && chat[n - 1].role == Role::Assistant;
    if lead {
        chat.insert(0, Message { role: Role::User, content: MessageContent::String(String::new()) });
    }
    if trail {
        chat.push(Message { role: Role::User, content: MessageContent::String(String::new()) });
    }
    proof {
        let k: int = if lead { 1 } else { 0 };
        assert(chat@.subrange(k, k + n) =~= orig);
    }
    chat
}

/// Whether an inline image format is accepted.
pub open spec fn image_format_ok(format: Seq<char>) -> bool {
    format == "png"@ || format == "jpeg"@ || format == "jpg"@ || format == "webp"@ || format == "gif"@
}

/// In a text whose first `;` is at `k`, the separator `;base64,` is found
/// at `k` when it follows there.
proof fn lemma_find_separator(f: Seq<char>, d: Seq<char>, i: int)
    requires
        0 <= i <= f.len(),
        forall|j: int| 0 <= j < f.len() ==> f[j] != ';',
    ensures
        find_from(f + ";base64,"@ + d, ";base64,"@, i) == Some(f.len() as int),
    decreases f.len() - i,
{
    reveal_strlit(";base64,");
    let u = f + ";base64,"@ + d;
    if i < f.len() {
        assert(u.subrange(i, i + 8)[0] == f[i]);
        lemma_find_separator(f, d, i + 1);
    } else {
        assert(u.subrange(i, i + 8) =~= ";base64,"@);
    }
}

/// Every listed image format is accepted: for `png`, `jpeg`, `jpg`, `webp`
/// and `gif`, and any data `d`, the inline image `<format>;base64,<d>` is
/// split into that format and `d` (see `split_image_data`).
pub proof fn lemma_listed_formats_accepted(f: Seq<char>, d: Seq<char>)
    requires
        f == "png"@ || f == "jpeg"@ || f == "jpg"@ || f == "webp"@ || f == "gif"@,
    ensures
        find_from(f + ";base64,"@ + d, ";base64,"@, 0) == Some(f.len() as int),
        image_format_ok((f + ";base64,"@ + d).take(f.len() as int)),
        (f + ";base64,"@ + d).take(f.len() as int) == f,
        (f + ";base64,"@ + d).skip(f.len() as int + 8) == d,
{
    reveal_strlit("png");
    reveal_strlit("jpeg");
    reveal_strlit("jpg");
    reveal_strlit("webp");
    reveal_strlit("gif");
    reveal_strlit(";base64,");
    lemma_find_separator(f, d, 0);
    assert((f + ";base64,"@ + d).take(f.len() as int) =~= f);
    assert((f + ";base64,"@ + d).skip(f.len() as int + 8) =~= d);
}

/// Every other image format is refused: for a format outside `png`,
/// `jpeg`, `jpg`, `webp` and `gif` (and without `;`), the inline image
/// `<format>;base64,<d>` is not accepted, whatever the data.
pub proof fn lemma_other_formats_refused(f: Seq<char>, d: Seq<char>)
    requires
        forall|j: int| 0 <= j < f.len() ==> f[j] != ';',
        !(f == "png"@ || f == "jpeg"@ || f == "jpg"@ || f == "webp"@ || f == "gif"@),
    ensures
        find_from(f + ";base64,"@ + d, ";base64,"@, 0) == Some(f.len() as int),
        !image_format_ok((f + ";base64,"@ + d).take(f.len() as int)),
{
    lemma_find_separator(f, d, 0);
    assert((f + ";base64,"@ + d).take(f.len() as int) =~= f);
}

/// The image format and the Base64 data of an inline image written as
/// `<format>;base64,<data>` (what follows `data:image/`): refused when the
/// separator is missing, or when the format is not PNG, JPEG, WEBP or GIF.
pub fn split_image_data(url: &str) -> (r: Result<(&str, &str), &'static str>)
    ensures
        (match find_from(url@, ";base64,"@, 0) {
            None => r matches Err(e) && e@ == "无效的 base64 图片格式"@,
            Some(k) => if image_format_ok(url@.take(k)) {
                r matches Ok((format, data)) && format@ == url@.take(k) && data@ == url@.skip(k + 8)
            } else {
                r matches Err(e) && e@ == "不支持的图片格式，仅支持 PNG、JPEG、WEBP 和非动态 GIF"@
            },
        }),
{
    proof {
        reveal_strlit(";base64,");
    }
    let n = url.unicode_len();
    let sep = ";base64,";
    let m = sep.unicode_len();
    let mut i: usize = 0;
    while i < n && m <= n - i
        invariant
            n == url@.len(),
            sep@ == ";base64,"@,
            m == sep@.len(),
            m == 8,
            i <= n,
            find_from(url@, sep@, 0) == find_from(url@, sep@, i as int),
        decreases n - i,
    {
        let window = url.substring_char(i, i + m);
        if str_eq(window, sep) {
            let format = url.substring_char(0, i);
            let data = url.substring_char(i + m, n);
            assert(format@ =~= url@.take(i as int));
            assert(data@ =~= url@.skip(i + 8));
            if str_eq(format, "png") || str_eq(format, "jpeg") || str_eq(format, "jpg") || str_eq(format, "webp")
                || str_eq(format, "gif") {
                return Ok((format, data));
            } else {
                return Err("不支持的图片格式，仅支持 PNG、JPEG、WEBP 和非动态 GIF");
            }
        }
        i = i + 1;
    }
    Err("无效的 base64 图片格式")
}

/// The bytes of an inline image, `<format>;base64,<data>` (what follows
/// `data:image/`): the format errors of `split_image_data`, otherwise the
/// standard Base64 decoding of the data (see `standard_decode`), refused
/// with the decoder's message when it does not decode. Animated GIFs and
/// image sizes are not checked here.
pub fn inline_image_bytes(url: &str) -> (r: Result<Vec<u8>, String>)
    ensures
        (match find_from(url@, ";base64,"@, 0) {
            None => r matches Err(e) && e@ == "无效的 base64 图片格式"@,
            Some(k) => if image_format_ok(url@.take(k)) {
                match r {
                    Ok(v) => standard_decode(url@.skip(k + 8)) == Some(v@),
                    Err(_) => standard_decode(url@.skip(k + 8)) is None,
                }
            } else {
                r matches Err(e) && e@ == "不支持的图片格式，仅支持 PNG、JPEG、WEBP 和非动态 GIF"@
            },
        }),
{
    match split_image_data(url) {
        Err(e) => Err(e.to_owned()),
        Ok((_format, data)) => standard_decode_bytes(data),
    }
}

/// No message of the conversation is a system message.
proof fn lemma_conversation_roles(ms: Seq<Message>)
    ensures
        conversation(ms).len() <= ms.len(),
        forall|j: int| 0 <= j < conversation(ms).len() ==> (#[trigger] conversation(ms)[j]).role != Role::System,
    decreases ms.len(),
{
    if ms.len() > 0 {
        lemma_conversation_roles(ms.drop_last());
    }
}

/// The turns of a chat request, each as whether it is the user's and its
/// text: the conversation (see `conversation`), with an empty user turn
/// before a leading and after a trailing assistant message.
pub open spec fn turn_inputs(ms: Seq<Message>) -> Seq<(bool, Seq<char>)> {
    let c = conversation(ms);
    let lead = c.len() > 0 && c[0].role == Role::Assistant;
    let trail = c.len() > 0 && c.last().role == Role::Assistant;
    let body = c.map_values(|m: Message| (m.role == Role::User, content_text(m.content)));
    (if lead {
        seq![(true, Seq::<char>::empty())]
    } else {
        Seq::empty()
    }) + body + (if trail {
        seq![(true, Seq::<char>::empty())]
    } else {
        Seq::empty()
    })
}

/// What a turn stands for: text, type, bubble id, server bubble id, web
/// references, web flag and links.
pub type TurnView = (Seq<char>, i32, Seq<char>, Option<Seq<char>>, Seq<crate::api::adapter::RefView>, Option<bool>, Seq<(Seq<char>, Seq<char>)>);

/// The view of a turn.
pub open spec fn turn_view(t: ChatTurn) -> TurnView {
    (
        t.text@,
        t.message_type,
        t.bubble_id@,
        match t.server_bubble_id {
            Some(s) => Some(s@),
            None => None,
        },
        ref_views(t.web_references@),
        t.use_web,
        link_views(t.external_links@),
    )
}

/// The views of a list of turns.
pub open spec fn turn_views(ts: Seq<ChatTurn>) -> Seq<TurnView> {
    ts.map_values(|t: ChatTurn| turn_view(t))
}

/// One turn (see `chat_turn`), with the next link number.
pub open spec fn spec_turn(is_user: bool, text: Seq<char>, bubble: Seq<char>, server: Seq<char>, base: u16) -> (TurnView, u16) {
    if is_user {
        let (links, next) = links_from(text, 0, base);
        ((text, 1i32, bubble, None, Seq::empty(), None, links), next)
    } else {
        let (t, refs, has) = web_references_split(text);
        ((t, 2i32, bubble, Some(server), refs, spec_to_opt(has), Seq::empty()), base)
    }
}

/// The turns built from `inputs` in order, the `k`-th with the `k`-th pair
/// of bubble ids, link numbers running on from `base`.
pub open spec fn spec_turns(inputs: Seq<(bool, Seq<char>)>, ids: Seq<(Seq<char>, Seq<char>)>, base: u16) -> (Seq<TurnView>, u16)
    decreases inputs.len(),
{
    if inputs.len() == 0 {
        (Seq::empty(), base)
    } else {
        let (prev, b) = spec_turns(inputs.drop_last(), ids, base);
        let k = inputs.len() - 1;
        let (t, next) = spec_turn(inputs.last().0, inputs.last().1, ids[k].0, ids[k].1, b);
        (prev.push(t), next)
    }
}

/// The texts of a list of bubble-id pairs.
pub open spec fn id_views(ids: Seq<(String, String)>) -> Seq<(Seq<char>, Seq<char>)> {
    ids.map_values(|p: (String, String)| (p.0@, p.1@))
}

/// The instructions and turns of a chat request: the system messages'
/// texts joined by blank lines, or `default_instructions` when that is
/// empty; and the turns of `turn_inputs`, built with the bubble ids in order
/// (`ids[k]` for the `k`-th turn) and link numbers from `base_uuid`. A
/// request without user or assistant messages becomes one empty user turn.
/// The request's external links are those of its last turn.
pub fn chat_conversation(inputs: Vec<Message>, default_instructions: String, ids: Vec<(String, String)>, base_uuid: u16) -> (r: (String, Vec<ChatTurn>))
    requires
        ids.len() >= inputs.len() + 2,
    ensures
        r.0@ == (if join(system_texts(inputs@), "\n\n"@).len() == 0 {
            default_instructions@
        } else {
            join(system_texts(inputs@), "\n\n"@)
        }),
        conversation(inputs@).len() == 0 ==> turn_views(r.1@) == seq![
            (Seq::<char>::empty(), 1i32, ids@[0].0@, None::<Seq<char>>, Seq::<crate::api::adapter::RefView>::empty(), None::<bool>, Seq::<(Seq<char>, Seq<char>)>::empty()),
        ],
        conversation(inputs@).len() > 0 ==> turn_views(r.1@) == spec_turns(turn_inputs(inputs@), id_views(ids@), base_uuid).0,
{
    let ghost all = inputs@;
    let ghost idv = id_views(ids@);
    let (joined, chat) = split_instructions(inputs);
    let instructions = if joined.as_str().unicode_len() == 0 {
        default_instructions
    } else {
        joined
    };
    proof {
        lemma_conversation_roles(all);
    }
    if chat.len() == 0 {
        let first = ids[0].0.clone();
        let t = ChatTurn {
            text: String::new(),
            message_type: 1,
            bubble_id: first,
            server_bubble_id: None,
            web_references: Vec::new(),
            use_web: None,
            external_links: Vec::new(),
        };
        let mut turns: Vec<ChatTurn> = Vec::new();
        turns.push(t);
        assert(turn_views(turns@) =~= seq![turn_view(turns@[0])]);
        assert(ref_views(Seq::<crate::api::aiserver::v1::WebReference>::empty()) =~= Seq::empty());
        assert(link_views(Seq::<crate::api::aiserver::v1::ComposerExternalLink>::empty()) =~= Seq::empty());
        return (instructions, turns);
    }
    let bal = balance_turns(chat);
    let ghost ti = turn_inputs(all);
    proof {
        let c = conversation(all);
        let lead = c.len() > 0 && c[0].role == Role::Assistant;
        let k: int = if lead { 1 } else { 0 };
        assert(ti.len() == bal@.len());
        assert forall|j: int| 0 <= j < bal@.len() implies ti[j] == (#[trigger] bal@[j].role == Role::User, content_text(bal@[j].content)) by {
            if lead && j == 0 {
            } else if j >= k + c.len() {
            } else {
                assert(bal@[j] == c[j - k]);
            }
        }
    }
    let mut turns: Vec<ChatTurn> = Vec::new();
    let mut base = base_uuid;
    let mut j: usize = 0;
    while j < bal.len()
        invariant
            j <= bal.len(),
            bal@.len() == ti.len(),
            ti.len() <= all.len() + 2,
            ids.len() >= all.len() + 2,
            idv == id_views(ids@),
            forall|i: int| 0 <= i < bal@.len() ==> ti[i] == (#[trigger] bal@[i].role == Role::User, content_text(bal@[i].content)),
            (turn_views(turns@), base) == spec_turns(ti.take(j as int), idv, base_uuid),
        decreases bal.len() - j,
    {
        let m = &bal[j];
        let text = message_text(&m.content);
        let is_user = m.role == Role::User;
        let bubble = ids[j].0.clone();
        let server = ids[j].1.clone();
        let ghost prev = turns@;
        let ghost b0 = base;
        let t = chat_turn(is_user, text.as_str(), bubble, server, &mut base);
        turns.push(t);
        proof {
            let tk = ti.take(j as int + 1);
            let st = spec_turn(ti[j as int].0, ti[j as int].1, idv[j as int].0, idv[j as int].1, b0);
            assert(idv[j as int] == (ids@[j as int].0@, ids@[j as int].1@));
            assert(ti[j as int] == (is_user, text@));
            if is_user {
                assert(ref_views(t.web_references@) =~= Seq::empty());
            } else {
                assert(link_views(t.external_links@) =~= Seq::empty());
            }
            assert(turn_view(t) == st.0);
            assert(base == st.1);
            assert(tk.drop_last() =~= ti.take(j as int));
            assert(tk.last() == ti[j as int]);
            assert(idv[j as int] == (ids@[j as int].0@, ids@[j as int].1@));
            assert(turn_views(turns@) =~= turn_views(prev).push(turn_view(t)));
        }
        j = j + 1;
    }
    assert(ti.take(bal.len() as int) =~= ti);
    (instructions, turns)
}

} // verus!
