//! Preparing an Anthropic messages request for the upstream service: the
//! system prompt, the turns of the conversation, and the text and thinking
//! blocks of a message.
use vstd::prelude::*;

use crate::api::aiserver::v1::conversation_message::Thinking;
use crate::api::model::Role;
use crate::api::model::anthropic::{ContentBlockParam, MessageContent, MessageParam, SystemContent, TextBlockParam};
use crate::text::{join, join_strings, string_texts};
use crate::api::adapter::{ChatTurn, chat_turn, link_views, ref_views};
use crate::api::adapter::openai::{TurnView, id_views, spec_turns, turn_view, turn_views};

verus! {

/// The texts of the blocks, in order.
pub open spec fn block_texts(bs: Seq<TextBlockParam>) -> Seq<Seq<char>> {
    bs.map_values(|b: TextBlockParam| b.text@)
}

/// The text of a system prompt: plain text, or its blocks joined by line
/// feeds.
pub open spec fn system_text(s: SystemContent) -> Seq<char> {
    match s {
        SystemContent::String(t) => t@,
        SystemContent::Array(bs) => join(block_texts(bs@), "\n"@),
    }
}

/// The instructions of a request: the text of its system prompt, if it has one.
pub fn system_instructions(system: Option<SystemContent>) -> (r: Option<String>)
    ensures
        (match system {
            Some(s) => r matches Some(t) && t@ == system_text(s),
            None => r is None,
        }),
{
    match system {
        None => None,
        Some(SystemContent::String(t)) => Some(t),
        Some(SystemContent::Array(bs)) => {
            let mut texts: Vec<String> = Vec::new();
            let mut i: usize = 0;
            while i < bs.len()
                invariant
                    i <= bs.len(),
                    string_texts(texts@) == block_texts(bs@).take(i as int),
                decreases bs.len() - i,
            {
                let ghost prev = texts@;
                let t = bs[i].text.clone();
                texts.push(t);
                assert(string_texts(texts@) =~= string_texts(prev).push(t@));
                assert(block_texts(bs@).take(i as int + 1) =~= block_texts(bs@).take(i as int).push(bs@[i as int].text@));
                i = i + 1;
            }
            assert(block_texts(bs@).take(bs.len() as int) =~= block_texts(bs@));
            Some(join_strings(&texts, "\n"))
        },
    }
}

/// Whether the message is an empty user message.
pub open spec fn is_empty_user_param(m: MessageParam) -> bool {
    &&& m.role == Role::User
    &&& m.content matches MessageContent::String(t)
    &&& t@.len() == 0
}

/// The conversation made to start and end with the user: an empty user
/// message goes before a leading and after a trailing assistant message.
pub fn balance_params(inputs: Vec<MessageParam>) -> (r: Vec<MessageParam>)
    ensures
        ({
            let lead = inputs.len() > 0 && inputs@[0].role == Role::Assistant;
            let trail = inputs.len() > 0 && inputs@.last().role == Role::Assistant;
            let k: int = if lead { 1 } else { 0 };
            &&& r.len() == inputs.len() + k + (if trail { 1int } else { 0 })
            &&& r@.subrange(k, k + inputs.len()) == inputs@
            &&& lead ==> is_empty_user_param(r@[0])
            &&& trail ==> is_empty_user_param(r@.last())
        }),
{
    let ghost orig = inputs@;
    let mut inputs = inputs;
    let n = inputs.len();
    let lead = n > 0 && inputs[0].role == Role::Assistant;
    let trail = n > 0 && inputs[n - 1].role == Role::Assistant;
    if lead {
        inputs.insert(0, MessageParam { role: Role::User, content: MessageContent::String(String::new()) });
    }
    if trail {
        inputs.push(MessageParam { role: Role::User, content: MessageContent::String(String::new()) });
    }
    proof {
        let k: int = if lead { 1 } else { 0 };
        assert(inputs@.subrange(k, k + n) =~= orig);
    }
    inputs
}

/// What a thinking block stands for.
pub struct ThinkingView {
    pub text: Seq<char>,
    pub signature: Seq<char>,
    pub redacted: Seq<char>,
    pub is_last: bool,
}

pub open spec fn thinking_view(t: Thinking) -> ThinkingView {
    ThinkingView {
        text: t.text@,
        signature: t.signature@,
        redacted: t.redacted_thinking@,
        is_last: t.is_last_thinking_chunk,
    }
}

pub open spec fn thinking_views(ts: Seq<Thinking>) -> Seq<ThinkingView> {
    ts.map_values(|t: Thinking| thinking_view(t))
}

/// The texts of the text blocks of an assistant message, in order.
pub open spec fn assistant_texts(bs: Seq<ContentBlockParam>) -> Seq<Seq<char>>
    decreases bs.len(),
{
    if bs.len() == 0 {
        Seq::empty()
    } else {
        let r = assistant_texts(bs.drop_last());
        match bs.last() {
            ContentBlockParam::Text { text } => r.push(text@),
            _ => r,
        }
    }
}

/// The thinking blocks of the first `k` blocks of an assistant message with
/// `n` blocks, in order; a block is marked last when it is the message's
/// last block.
pub open spec fn thinking_blocks(bs: Seq<ContentBlockParam>, n: int) -> Seq<ThinkingView>
    decreases bs.len(),
{
    if bs.len() == 0 {
        Seq::empty()
    } else {
        let r = thinking_blocks(bs.drop_last(), n);
        let is_last = bs.len() == n;
        match bs.last() {
            ContentBlockParam::Thinking { thinking, signature } => r.push(
                ThinkingView { text: thinking@, signature: signature@, redacted: Seq::empty(), is_last },
            ),
            ContentBlockParam::RedactedThinking { data } => r.push(
                ThinkingView { text: Seq::empty(), signature: Seq::empty(), redacted: data@, is_last },
            ),
            _ => r,
        }
    }
}

/// The text and thinking blocks of an assistant message: its text blocks
/// joined by line feeds, and its thinking and redacted thinking blocks.
pub fn assistant_content(contents: Vec<ContentBlockParam>) -> (r: (String, Vec<Thinking>))
    ensures
        r.0@ == join(assistant_texts(contents@), "\n"@),
        thinking_views(r.1@) == thinking_blocks(contents@, contents.len() as int),
{
    let ghost all = contents@;
    let n = contents.len();
    let mut rest = contents;
    let mut texts: Vec<String> = Vec::new();
    let mut blocks: Vec<Thinking> = Vec::new();
    let mut i: usize = 0;
    assert(all.take(0) =~= Seq::<ContentBlockParam>::empty());
    while rest.len() > 0
        invariant
            n == all.len(),
            i <= n,
            rest@ == all.skip(i as int),
            string_texts(texts@) == assistant_texts(all.take(i as int)),
            thinking_views(blocks@) == thinking_blocks(all.take(i as int), n as int),
        decreases rest.len(),
    {
        let b = rest.remove(0);
        proof {
            assert(all.skip(i as int).remove(0) =~= all.skip(i as int + 1));
            assert(all.take(i as int + 1).drop_last() =~= all.take(i as int));
            assert(all.take(i as int + 1).last() == b);
        }
        let is_last = i + 1 == n;
        match b {
            ContentBlockParam::Text { text } => {
                let ghost prev = texts@;
                let ghost tv = text@;
                texts.push(text);
                assert(string_texts(texts@) =~= string_texts(prev).push(tv));
            },
            ContentBlockParam::Thinking { thinking, signature } => {
                let ghost prev = blocks@;
                let t = Thinking {
                    text: thinking,
                    signature,
                    redacted_thinking: String::new(),
                    is_last_thinking_chunk: is_last,
                };
                let ghost tv = thinking_view(t);
                blocks.push(t);
                assert(thinking_views(blocks@) =~= thinking_views(prev).push(tv));
            },
            ContentBlockParam::RedactedThinking { data } => {
                let ghost prev = blocks@;
                let t = Thinking {
                    text: String::new(),
                    signature: String::new(),
                    redacted_thinking: data,
                    is_last_thinking_chunk: is_last,
                };
                let ghost tv = thinking_view(t);
                blocks.push(t);
                assert(thinking_views(blocks@) =~= thinking_views(prev).push(tv));
            },
            ContentBlockParam::Image { .. } => {},
        }
        i = i + 1;
    }
    assert(all.take(i as int) =~= all);
    (join_strings(&texts, "\n"), blocks)
}

/// The texts of the blocks that are not empty, in order.
pub open spec fn nonempty_texts(ts: Seq<ThinkingView>) -> Seq<Seq<char>>
    decreases ts.len(),
{
    if ts.len() == 0 {
        Seq::empty()
    } else {
        let r = nonempty_texts(ts.drop_last());
        if ts.last().text.len() > 0 {
            r.push(ts.last().text)
        } else {
            r
        }
    }
}

/// The thinking of a message: none for no block, the block itself for one,
/// and for several one last block whose text is their non-empty texts run
/// together.
pub open spec fn merged_thinking_view(ts: Seq<ThinkingView>) -> Option<ThinkingView> {
    if ts.len() == 0 {
        None
    } else if ts.len() == 1 {
        Some(ts[0])
    } else {
        Some(
            ThinkingView {
                text: join(nonempty_texts(ts), Seq::empty()),
                signature: Seq::empty(),
                redacted: Seq::empty(),
                is_last: true,
            },
        )
    }
}

/// The thinking of a message (see `merged_thinking_view`).
pub fn merged_thinking(blocks: &Vec<Thinking>) -> (r: Option<Thinking>)
    ensures
        (match r {
            Some(t) => merged_thinking_view(thinking_views(blocks@)) == Some(thinking_view(t)),
            None => merged_thinking_view(thinking_views(blocks@)) is None,
        }),
{
    let n = blocks.len();
    if n == 0 {
        return None;
    }
    if n == 1 {
        let b = &blocks[0];
        return Some(
            Thinking {
                text: b.text.clone(),
                signature: b.signature.clone(),
                redacted_thinking: b.redacted_thinking.clone(),
                is_last_thinking_chunk: b.is_last_thinking_chunk,
            },
        );
    }
    let ghost tv = thinking_views(blocks@);
    let mut texts: Vec<String> = Vec::new();
    let mut i: usize = 0;
    while i < n
        invariant
            n == blocks.len(),
            i <= n,
            tv == thinking_views(blocks@),
            string_texts(texts@) == nonempty_texts(tv.take(i as int)),
        decreases n - i,
    {
        assert(tv.take(i as int + 1).drop_last() =~= tv.take(i as int));
        assert(tv.take(i as int + 1).last() == thinking_view(blocks@[i as int]));
        if blocks[i].text.as_str().unicode_len() > 0 {
            let ghost prev = texts@;
            let t = blocks[i].text.clone();
            texts.push(t);
            assert(string_texts(texts@) =~= string_texts(prev).push(t@));
        }
        i = i + 1;
    }
    assert(tv.take(n as int) =~= tv);
    proof {
        reveal_strlit("");
        assert(""@ =~= Seq::<char>::empty());
    }
    Some(
        Thinking {
            text: join_strings(&texts, ""),
            signature: String::new(),
            redacted_thinking: String::new(),
            is_last_thinking_chunk: true,
        },
    )
}

/// The text of a message: plain text, or its text blocks joined by line
/// feeds.
pub open spec fn param_text(m: MessageParam) -> Seq<char> {
    match m.content {
        MessageContent::String(t) => t@,
        MessageContent::Array(bs) => join(assistant_texts(bs@), "\n"@),
    }
}

/// The reasoning blocks of a message: those of an assistant message given
/// as blocks (see `thinking_blocks`), none otherwise.
pub open spec fn param_thinking(m: MessageParam) -> Seq<ThinkingView> {
    match m.content {
        MessageContent::Array(bs) => if m.role == Role::Assistant {
            thinking_blocks(bs@, bs.len() as int)
        } else {
            Seq::empty()
        },
        MessageContent::String(_) => Seq::empty(),
    }
}

/// The turns of a request, each as whether it is the user's and its text:
/// the messages with an empty user turn before a leading and after a
/// trailing assistant message.
pub open spec fn param_turn_inputs(ms: Seq<MessageParam>) -> Seq<(bool, Seq<char>)> {
    let lead = ms.len() > 0 && ms[0].role == Role::Assistant;
    let trail = ms.len() > 0 && ms.last().role == Role::Assistant;
    let body = ms.map_values(|m: MessageParam| (m.role == Role::User, param_text(m)));
    (if lead {
        seq![(true, Seq::<char>::empty())]
    } else {
        Seq::empty()
    }) + body + (if trail {
        seq![(true, Seq::<char>::empty())]
    } else {
        Seq::empty()
    })
}

/// The reasoning blocks of each turn of `param_turn_inputs`.
pub open spec fn param_turn_thinking(ms: Seq<MessageParam>) -> Seq<Seq<ThinkingView>> {
    let lead = ms.len() > 0 && ms[0].role == Role::Assistant;
    let trail = ms.len() > 0 && ms.last().role == Role::Assistant;
    let body = ms.map_values(|m: MessageParam| param_thinking(m));
    (if lead {
        seq![Seq::<ThinkingView>::empty()]
    } else {
        Seq::empty()
    }) + body + (if trail {
        seq![Seq::<ThinkingView>::empty()]
    } else {
        Seq::empty()
    })
}

/// The text and reasoning blocks of a message (see `param_text` and
/// `param_thinking`).
fn param_parts(m: MessageParam) -> (r: (bool, String, Vec<Thinking>))
    ensures
        r.0 == (m.role == Role::User),
        r.1@ == param_text(m),
        thinking_views(r.2@) == param_thinking(m),
{
    let is_user = m.role == Role::User;
    let is_assistant = m.role == Role::Assistant;
    match m.content {
        MessageContent::String(t) => {
            assert(thinking_views(Seq::<Thinking>::empty()) =~= Seq::empty());
            (is_user, t, Vec::new())
        },
        MessageContent::Array(bs) => {
            let (text, thinking) = assistant_content(bs);
            if is_assistant {
                (is_user, text, thinking)
            } else {
                assert(thinking_views(Seq::<Thinking>::empty()) =~= Seq::empty());
                (is_user, text, Vec::new())
            }
        },
    }
}

/// The instructions, turns and reasoning blocks of a messages request: the
/// system prompt's text, or `default_instructions` without one; the turns of
/// `param_turn_inputs`, built with the bubble ids in order (`ids[k]` for the
/// `k`-th turn) and link numbers from `base_uuid`; and each turn's reasoning
/// blocks. A request without messages becomes one empty user turn. No
/// message may be a system message.
pub fn message_conversation(
    messages: Vec<MessageParam>,
    system: Option<SystemContent>,
    default_instructions: String,
    ids: Vec<(String, String)>,
    base_uuid: u16,
) -> (r: (String, Vec<ChatTurn>, Vec<Vec<Thinking>>))
    requires
        ids.len() >= messages.len() + 2,
        forall|j: int| 0 <= j < messages.len() ==> (#[trigger] messages@[j]).role != Role::System,
    ensures
        (match system {
            Some(s) => r.0@ == system_text(s),
            None => r.0@ == default_instructions@,
        }),
        messages.len() == 0 ==> turn_views(r.1@) == seq![
            (Seq::<char>::empty(), 1i32, ids@[0].0@, None::<Seq<char>>, Seq::<crate::api::adapter::RefView>::empty(), None::<bool>, Seq::<(Seq<char>, Seq<char>)>::empty()),
        ] && r.2@.len() == 1 && r.2@[0]@.len() == 0,
        messages.len() > 0 ==> turn_views(r.1@) == spec_turns(param_turn_inputs(messages@), id_views(ids@), base_uuid).0,
        messages.len() > 0 ==> r.2@.len() == param_turn_thinking(messages@).len()
            && forall|k: int| 0 <= k < r.2@.len() ==> thinking_views(#[trigger] r.2@[k]@) == param_turn_thinking(messages@)[k],
{
    let ghost all = messages@;
    let ghost idv = id_views(ids@);
    let instructions = match system_instructions(system) {
        Some(t) => t,
        None => default_instructions,
    };
    if messages.len() == 0 {
        let t = ChatTurn {
            text: String::new(),
            message_type: 1,
            bubble_id: ids[0].0.clone(),
            server_bubble_id: None,
            web_references: Vec::new(),
            use_web: None,
            external_links: Vec::new(),
        };
        let mut turns: Vec<ChatTurn> = Vec::new();
        turns.push(t);
        let mut thinking: Vec<Vec<Thinking>> = Vec::new();
        thinking.push(Vec::new());
        assert(turn_views(turns@) =~= seq![turn_view(turns@[0])]);
        assert(ref_views(Seq::<crate::api::aiserver::v1::WebReference>::empty()) =~= Seq::empty());
        assert(link_views(Seq::<crate::api::aiserver::v1::ComposerExternalLink>::empty()) =~= Seq::empty());
        return (instructions, turns, thinking);
    }
    let bal = balance_params(messages);
    let ghost ti = param_turn_inputs(all);
    let ghost tt = param_turn_thinking(all);
    proof {
        let lead = all.len() > 0 && all[0].role == Role::Assistant;
        let k: int = if lead { 1 } else { 0 };
        assert(ti.len() == bal@.len());
        assert(tt.len() == bal@.len());
        assert forall|j: int| 0 <= j < bal@.len() implies ti[j] == (#[trigger] bal@[j].role == Role::User, param_text(bal@[j]))
            && tt[j] == param_thinking(bal@[j]) by {
            if lead && j == 0 {
                assert(thinking_blocks(Seq::<ContentBlockParam>::empty(), 0) =~= Seq::empty());
            } else if j >= k + all.len() {
            } else {
                assert(bal@[j] == all[j - k]);
            }
        }
    }
    let mut rest = bal;
    let ghost balv = rest@;
    let n = rest.len();
    let mut turns: Vec<ChatTurn> = Vec::new();
    let mut thinking: Vec<Vec<Thinking>> = Vec::new();
    let mut base = base_uuid;
    assert(rest@ =~= balv.skip(0));
    let mut j: usize = 0;
    while j < n
        invariant
            j <= n,
            n == balv.len(),
            balv.len() == ti.len(),
            tt.len() == ti.len(),
            ti.len() <= all.len() + 2,
            ids.len() >= all.len() + 2,
            idv == id_views(ids@),
            rest@.len() == n - j,
            rest@ == balv.skip(j as int),
            forall|i: int| 0 <= i < balv.len() ==> ti[i] == (#[trigger] balv[i].role == Role::User, param_text(balv[i]))
                && tt[i] == param_thinking(balv[i]),
            (turn_views(turns@), base) == spec_turns(ti.take(j as int), idv, base_uuid),
            thinking@.len() == j,
            forall|i: int| 0 <= i < j ==> thinking_views(#[trigger] thinking@[i]@) == tt[i],
        decreases n - j,
    {
        let m = rest.remove(0);
        assert(m == balv[j as int]);
        assert(rest@ =~= balv.skip(j as int + 1));
        let (is_user, text, blocks) = param_parts(m);
        let bubble = ids[j].0.clone();
        let server = ids[j].1.clone();
        let ghost prev = turns@;
        let ghost b0 = base;
        let t = chat_turn(is_user, text.as_str(), bubble, server, &mut base);
        turns.push(t);
        thinking.push(blocks);
        proof {
            let tk = ti.take(j as int + 1);
            assert(idv[j as int] == (ids@[j as int].0@, ids@[j as int].1@));
            assert(ti[j as int] == (is_user, text@));
            if is_user {
                assert(ref_views(t.web_references@) =~= Seq::empty());
            } else {
                assert(link_views(t.external_links@) =~= Seq::empty());
            }
            assert(tk.drop_last() =~= ti.take(j as int));
            assert(turn_views(turns@) =~= turn_views(prev).push(turn_view(t)));
        }
        j = j + 1;
    }
    assert(ti.take(n as int) =~= ti);
    (instructions, turns, thinking)
}

} // verus!
