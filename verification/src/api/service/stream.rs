//! Turning the backend's chat stream into the clients' stream formats. Each
//! message of the backend's stream is one step: from the state of the
//! conversion and the message to the next state and the pieces to send.
//! Sending the pieces, and the usage figures that the end of a stream may
//! carry, are left to the service.
use vstd::prelude::*;

use crate::common::utils::{TrimNewlines, without_leading_newlines};

verus! {

/// A message of the backend's chat stream, as the conversion reads it.
pub enum StreamEvent {
    /// Answer text.
    Content(String),
    /// Reasoning text and its signature (either may be empty).
    Thinking { text: String, signature: String },
    /// The end of the stream.
    End,
    /// Any other message, which sends nothing.
    Other,
}

/// Where an OpenAI-format stream stands: whether nothing has been sent
/// yet, and whether the last text sent was reasoning (inside the thinking
/// tag).
#[derive(Clone, Copy, Debug, PartialEq, Eq, Structural)]
pub struct OpenAiStream {
    pub is_start: bool,
    pub meet_thinking: bool,
}

/// A chunk of an OpenAI-format stream: whether it names the model, whether
/// its delta carries the assistant role, its delta text, and whether it
/// finishes the choice.
#[derive(Debug)]
pub struct DeltaChunk {
    pub with_model: bool,
    pub with_role: bool,
    pub content: Option<String>,
    pub finish: bool,
}

/// What a chunk stands for.
pub struct ChunkView {
    pub with_model: bool,
    pub with_role: bool,
    pub content: Option<Seq<char>>,
    pub finish: bool,
}

/// The view of a chunk.
pub open spec fn chunk_view(c: DeltaChunk) -> ChunkView {
    ChunkView {
        with_model: c.with_model,
        with_role: c.with_role,
        content: match c.content {
            Some(s) => Some(s@),
            None => None,
        },
        finish: c.finish,
    }
}

/// The views of a list of chunks.
pub open spec fn chunk_views(cs: Seq<DeltaChunk>) -> Seq<ChunkView> {
    cs.map_values(|c: DeltaChunk| chunk_view(c))
}

/// A chunk of text that names neither model nor role.
pub open spec fn plain_chunk(text: Seq<char>) -> ChunkView {
    ChunkView { with_model: false, with_role: false, content: Some(text), finish: false }
}

/// The text of the first piece sent: without two leading line feeds.
pub open spec fn first_text(is_first: bool, t: Seq<char>) -> Seq<char> {
    if is_first {
        without_leading_newlines(t)
    } else {
        t
    }
}

/// One step of the OpenAI-format conversion. Answer text after reasoning
/// first closes the thinking tag; reasoning after answer text (or at the
/// start) first opens it. The first chunk sent names the model and the
/// assistant role, and its text loses two leading line feeds. The end of
/// the stream sends an empty delta that finishes the choice.
pub open spec fn openai_step(s: OpenAiStream, e: StreamEvent, open_tag: Seq<char>, close_tag: Seq<char>) -> (
    OpenAiStream,
    Seq<ChunkView>,
) {
    match e {
        StreamEvent::Content(t) => {
            let close = if s.meet_thinking {
                seq![plain_chunk(close_tag)]
            } else {
                Seq::empty()
            };
            let body = ChunkView {
                with_model: s.is_start,
                with_role: s.is_start,
                content: Some(first_text(s.is_start, t@)),
                finish: false,
            };
            (OpenAiStream { is_start: false, meet_thinking: false }, close.push(body))
        },
        StreamEvent::Thinking { text, signature } => {
            let open = if !s.meet_thinking {
                seq![
                    ChunkView {
                        with_model: s.is_start,
                        with_role: s.is_start,
                        content: Some(open_tag),
                        finish: false,
                    },
                ]
            } else {
                Seq::empty()
            };
            (
                OpenAiStream { is_start: false, meet_thinking: true },
                open.push(plain_chunk(first_text(s.is_start, text@))),
            )
        },
        StreamEvent::End => (
            s,
            seq![ChunkView { with_model: false, with_role: false, content: None, finish: true }],
        ),
        StreamEvent::Other => (s, Seq::empty()),
    }
}

/// The thinking tag is closed once per reasoning section: answer text sent
/// while reasoning is open is preceded by exactly one chunk, the close tag,
/// and leaves reasoning closed, so that later answer text comes alone;
/// reasoning always leaves the tag open, opening it (one chunk before the
/// text) only when it was closed. No step but the first names the model or
/// the role.
pub proof fn lemma_thinking_tag_once(s: OpenAiStream, t: String, text: String, sig: String, open_tag: Seq<char>, close_tag: Seq<char>)
    ensures
        !openai_step(s, StreamEvent::Content(t), open_tag, close_tag).0.meet_thinking,
        !openai_step(s, StreamEvent::Content(t), open_tag, close_tag).0.is_start,
        openai_step(s, StreamEvent::Content(t), open_tag, close_tag).1.len() == (if s.meet_thinking {
            2int
        } else {
            1int
        }),
        s.meet_thinking ==> openai_step(s, StreamEvent::Content(t), open_tag, close_tag).1[0].content == Some(close_tag),
        ({
            let s2 = openai_step(s, StreamEvent::Content(t), open_tag, close_tag).0;
            let out = openai_step(s2, StreamEvent::Content(text), open_tag, close_tag).1;
            &&& out.len() == 1
            &&& out[0].content == Some(text@)
            &&& !out[0].with_model && !out[0].with_role
        }),
        openai_step(s, StreamEvent::Thinking { text, signature: sig }, open_tag, close_tag).0.meet_thinking,
        openai_step(s, StreamEvent::Thinking { text, signature: sig }, open_tag, close_tag).1.len() == (if s.meet_thinking {
            1int
        } else {
            2int
        }),
        !s.meet_thinking ==> openai_step(s, StreamEvent::Thinking { text, signature: sig }, open_tag, close_tag).1[0].content
            == Some(open_tag),
{
}

/// The text of a first piece (see `first_text`).
fn first_string(is_first: bool, t: String) -> (r: String)
    ensures
        r@ == first_text(is_first, t@),
{
    if is_first {
        t.trim_leading_newlines()
    } else {
        t
    }
}

/// One step of the OpenAI-format conversion (see `openai_step`).
pub fn openai_stream_step(s: OpenAiStream, e: StreamEvent, open_tag: &str, close_tag: &str) -> (r: (
    OpenAiStream,
    Vec<DeltaChunk>,
))
    ensures
        r.0 == openai_step(s, e, open_tag@, close_tag@).0,
        chunk_views(r.1@) == openai_step(s, e, open_tag@, close_tag@).1,
{
    let ghost spec = openai_step(s, e, open_tag@, close_tag@);
    let mut out: Vec<DeltaChunk> = Vec::new();
    match e {
        StreamEvent::Content(t) => {
            if s.meet_thinking {
                out.push(DeltaChunk { with_model: false, with_role: false, content: Some(close_tag.to_owned()), finish: false });
            }
            let text = first_string(s.is_start, t);
            out.push(DeltaChunk { with_model: s.is_start, with_role: s.is_start, content: Some(text), finish: false });
            assert(chunk_views(out@) =~= spec.1);
            (OpenAiStream { is_start: false, meet_thinking: false }, out)
        },
        StreamEvent::Thinking { text, signature } => {
            if !s.meet_thinking {
                out.push(DeltaChunk { with_model: s.is_start, with_role: s.is_start, content: Some(open_tag.to_owned()), finish: false });
            }
            let body = first_string(s.is_start, text);
            out.push(DeltaChunk { with_model: false, with_role: false, content: Some(body), finish: false });
            assert(chunk_views(out@) =~= spec.1);
            (OpenAiStream { is_start: false, meet_thinking: true }, out)
        },
        StreamEvent::End => {
            out.push(DeltaChunk { with_model: false, with_role: false, content: None, finish: true });
            assert(chunk_views(out@) =~= spec.1);
            (s, out)
        },
        StreamEvent::Other => {
            assert(chunk_views(out@) =~= spec.1);
            (s, out)
        },
    }
}

/// The phase of an Anthropic-format stream.
#[derive(Clone, Copy, Debug, PartialEq, Eq, Structural)]
pub enum Phase {
    /// Nothing sent yet.
    NotStarted,
    /// `message_start` sent, no content block yet.
    MessageStarted,
    /// A content block is open.
    ContentBlockActive,
    /// The last content block was closed.
    BetweenBlocks,
    /// The stream has ended.
    Completed,
}

/// The kind of the last content block opened.
#[derive(Clone, Copy, Debug, PartialEq, Eq, Structural)]
pub enum BlockKind {
    NoBlock,
    Text,
    Thinking,
}

/// Where an Anthropic-format stream stands: its phase, the kind and index
/// of the current content block, and whether the closing usage delta is
/// still to be sent.
#[derive(Clone, Copy, Debug, PartialEq, Eq, Structural)]
pub struct AnthropicStream {
    pub phase: Phase,
    pub last: BlockKind,
    pub index: u32,
    pub usage_pending: bool,
}

/// An event of an Anthropic-format stream; the service fills in the message
/// and the usage figures.
#[derive(Debug)]
pub enum AnthropicOut {
    MessageStart,
    Ping,
    ContentBlockStartText { index: u32 },
    ContentBlockStartThinking { index: u32 },
    ContentBlockStop { index: u32 },
    TextDelta { index: u32, text: String },
    ThinkingDelta { index: u32, thinking: String },
    SignatureDelta { index: u32, signature: String },
    MessageDelta,
}

/// What an Anthropic-format event stands for.
pub enum OutView {
    MessageStart,
    Ping,
    StartText(u32),
    StartThinking(u32),
    Stop(u32),
    TextDelta(u32, Seq<char>),
    ThinkingDelta(u32, Seq<char>),
    SignatureDelta(u32, Seq<char>),
    MessageDelta,
}

/// The view of an event.
pub open spec fn out_view(o: AnthropicOut) -> OutView {
    match o {
        AnthropicOut::MessageStart => OutView::MessageStart,
        AnthropicOut::Ping => OutView::Ping,
        AnthropicOut::ContentBlockStartText { index } => OutView::StartText(index),
        AnthropicOut::ContentBlockStartThinking { index } => OutView::StartThinking(index),
        AnthropicOut::ContentBlockStop { index } => OutView::Stop(index),
        AnthropicOut::TextDelta { index, text } => OutView::TextDelta(index, text@),
        AnthropicOut::ThinkingDelta { index, thinking } => OutView::ThinkingDelta(index, thinking@),
        AnthropicOut::SignatureDelta { index, signature } => OutView::SignatureDelta(index, signature@),
        AnthropicOut::MessageDelta => OutView::MessageDelta,
    }
}

/// The views of a list of events.
pub open spec fn out_views(os: Seq<AnthropicOut>) -> Seq<OutView> {
    os.map_values(|o: AnthropicOut| out_view(o))
}

/// The next block index (wrapping, as a 32-bit counter does).
pub open spec fn next_index(i: u32) -> u32 {
    if i == u32::MAX {
        0
    } else {
        (i + 1) as u32
    }
}

/// Opening a block of kind `kind` when the current one is of another kind:
/// `message_start` first when nothing was sent; the open block, if any, is
/// stopped and the index advanced; the new block is started, with a ping
/// when it is the message's first. Returns the new state and the events.
pub open spec fn open_block(s: AnthropicStream, kind: BlockKind) -> (AnthropicStream, Seq<OutView>) {
    let (s1, pre) = if s.phase == Phase::NotStarted {
        (AnthropicStream { phase: Phase::MessageStarted, ..s }, seq![OutView::MessageStart])
    } else {
        (s, Seq::empty())
    };
    if s1.last == kind {
        (s1, pre)
    } else {
        let (idx, stop) = if s1.last != BlockKind::NoBlock {
            (next_index(s1.index), seq![OutView::Stop(s1.index)])
        } else {
            (s1.index, Seq::empty())
        };
        let start = if kind == BlockKind::Text {
            OutView::StartText(idx)
        } else {
            OutView::StartThinking(idx)
        };
        let ping = if s1.phase == Phase::MessageStarted {
            seq![OutView::Ping]
        } else {
            Seq::empty()
        };
        (
            AnthropicStream { phase: Phase::ContentBlockActive, last: kind, index: idx, usage_pending: s1.usage_pending },
            pre + stop + seq![start] + ping,
        )
    }
}

/// One step of the Anthropic-format conversion: text and reasoning go into
/// blocks of their kind (see `open_block`), reasoning text and signature
/// each as a delta when not empty; the end of the stream stops the open
/// block, sends the usage delta once, and completes the stream.
pub open spec fn anthropic_step(s: AnthropicStream, e: StreamEvent) -> (AnthropicStream, Seq<OutView>) {
    match e {
        StreamEvent::Content(t) => {
            let (s1, evs) = open_block(s, BlockKind::Text);
            (s1, evs.push(OutView::TextDelta(s1.index, t@)))
        },
        StreamEvent::Thinking { text, signature } => {
            let (s1, evs) = open_block(s, BlockKind::Thinking);
            let t = if text@.len() > 0 {
                seq![OutView::ThinkingDelta(s1.index, text@)]
            } else {
                Seq::empty()
            };
            let g = if signature@.len() > 0 {
                seq![OutView::SignatureDelta(s1.index, signature@)]
            } else {
                Seq::empty()
            };
            (s1, evs + t + g)
        },
        StreamEvent::End => {
            let stop = if s.last != BlockKind::NoBlock {
                seq![OutView::Stop(s.index)]
            } else {
                Seq::empty()
            };
            let delta = if s.usage_pending {
                seq![OutView::MessageDelta]
            } else {
                Seq::empty()
            };
            (AnthropicStream { phase: Phase::Completed, usage_pending: false, ..s }, stop + delta)
        },
        StreamEvent::Other => (s, Seq::empty()),
    }
}

/// The Anthropic-format stream is well nested: the first text or reasoning
/// sends `message_start` once, then a block start; switching between text
/// and reasoning stops the open block and starts the next at the next
/// index; text or reasoning of the open block's kind adds only deltas at
/// its index; and the end stops the open block, sends the usage delta only
/// the first time, and completes the stream.
pub proof fn lemma_anthropic_blocks(s: AnthropicStream, t: String, text: String, sig: String)
    ensures
        ({
            let (s1, evs) = anthropic_step(s, StreamEvent::Content(t));
            &&& s1.last == BlockKind::Text
            &&& s1.phase != Phase::NotStarted
            &&& s.last != BlockKind::Text ==> s1.phase == Phase::ContentBlockActive
            &&& evs.last() == OutView::TextDelta(s1.index, t@)
            &&& (s.phase == Phase::NotStarted) == (evs[0] == OutView::MessageStart)
            &&& s.last == BlockKind::Text && s.phase != Phase::NotStarted ==> evs.len() == 1 && s1.index == s.index
            &&& s.last == BlockKind::Thinking ==> evs[if s.phase == Phase::NotStarted { 1int } else { 0int }]
                == OutView::Stop(s.index) && s1.index == next_index(s.index)
            &&& s.last == BlockKind::NoBlock ==> s1.index == s.index
        }),
        ({
            let (s1, evs) = anthropic_step(s, StreamEvent::Thinking { text, signature: sig });
            &&& s1.last == BlockKind::Thinking
            &&& s.last == BlockKind::Text ==> evs[if s.phase == Phase::NotStarted { 1int } else { 0int }]
                == OutView::Stop(s.index) && s1.index == next_index(s.index)
            &&& s.last == BlockKind::Thinking && s.phase != Phase::NotStarted ==> s1.index == s.index && evs.len()
                == (if text@.len() > 0 { 1int } else { 0int }) + (if sig@.len() > 0 { 1int } else { 0int })
        }),
        ({
            let (s1, evs) = anthropic_step(s, StreamEvent::End);
            &&& s1.phase == Phase::Completed
            &&& !s1.usage_pending
            &&& evs.len() == (if s.last != BlockKind::NoBlock { 1int } else { 0int }) + (if s.usage_pending {
                1int
            } else {
                0int
            })
            &&& s.last != BlockKind::NoBlock ==> evs[0] == OutView::Stop(s.index)
            &&& s.usage_pending ==> evs.last() == OutView::MessageDelta
            &&& anthropic_step(s1, StreamEvent::End).1.len() == (if s.last != BlockKind::NoBlock { 1int } else { 0int })
        }),
{
}

/// Opens a block of kind `kind` (see `open_block`), appending the events.
fn open_block_exec(s: AnthropicStream, kind: BlockKind, out: &mut Vec<AnthropicOut>) -> (r: AnthropicStream)
    requires
        kind != BlockKind::NoBlock,
    ensures
        r == open_block(s, kind).0,
        out_views(final(out)@) == out_views(old(out)@) + open_block(s, kind).1,
{
    let ghost o0 = out@;
    let mut s1 = s;
    if s1.phase == Phase::NotStarted {
        out.push(AnthropicOut::MessageStart);
        s1 = AnthropicStream { phase: Phase::MessageStarted, ..s1 };
    }
    let ghost pre = if s.phase == Phase::NotStarted {
        seq![OutView::MessageStart]
    } else {
        Seq::<OutView>::empty()
    };
    assert(out_views(out@) =~= out_views(o0) + pre);
    if s1.last == kind {
        return s1;
    }
    let ghost o1 = out@;
    let mut idx = s1.index;
    if s1.last != BlockKind::NoBlock {
        out.push(AnthropicOut::ContentBlockStop { index: s1.index });
        idx = if s1.index == u32::MAX {
            0
        } else {
            s1.index + 1
        };
    }
    match kind {
        BlockKind::Text => out.push(AnthropicOut::ContentBlockStartText { index: idx }),
        _ => out.push(AnthropicOut::ContentBlockStartThinking { index: idx }),
    }
    if s1.phase == Phase::MessageStarted {
        out.push(AnthropicOut::Ping);
    }
    let ghost stop = if s1.last != BlockKind::NoBlock {
        seq![OutView::Stop(s1.index)]
    } else {
        Seq::<OutView>::empty()
    };
    let ghost start = if kind == BlockKind::Text {
        OutView::StartText(idx)
    } else {
        OutView::StartThinking(idx)
    };
    let ghost ping = if s1.phase == Phase::MessageStarted {
        seq![OutView::Ping]
    } else {
        Seq::<OutView>::empty()
    };
    assert(out_views(out@) =~= out_views(o1) + stop + seq![start] + ping);
    assert(out_views(out@) =~= out_views(o0) + (pre + stop + seq![start] + ping));
    AnthropicStream { phase: Phase::ContentBlockActive, last: kind, index: idx, usage_pending: s1.usage_pending }
}

/// One step of the Anthropic-format conversion (see `anthropic_step`).
pub fn anthropic_stream_step(s: AnthropicStream, e: StreamEvent) -> (r: (AnthropicStream, Vec<AnthropicOut>))
    ensures
        r.0 == anthropic_step(s, e).0,
        out_views(r.1@) == anthropic_step(s, e).1,
{
    let mut out: Vec<AnthropicOut> = Vec::new();
    assert(out_views(out@) =~= Seq::<OutView>::empty());
    match e {
        StreamEvent::Content(t) => {
            let s1 = open_block_exec(s, BlockKind::Text, &mut out);
            let ghost o = out@;
            out.push(AnthropicOut::TextDelta { index: s1.index, text: t });
            assert(out_views(out@) =~= out_views(o).push(OutView::TextDelta(s1.index, t@)));
            (s1, out)
        },
        StreamEvent::Thinking { text, signature } => {
            let s1 = open_block_exec(s, BlockKind::Thinking, &mut out);
            let ghost o = out@;
            let ghost tv = text@;
            let ghost gv = signature@;
            let has_text = text.as_str().unicode_len() > 0;
            let has_sig = signature.as_str().unicode_len() > 0;
            if has_text {
                out.push(AnthropicOut::ThinkingDelta { index: s1.index, thinking: text });
            }
            let ghost o2 = out@;
            if has_sig {
                out.push(AnthropicOut::SignatureDelta { index: s1.index, signature });
            }
            let ghost t = if tv.len() > 0 {
                seq![OutView::ThinkingDelta(s1.index, tv)]
            } else {
                Seq::<OutView>::empty()
            };
            let ghost g = if gv.len() > 0 {
                seq![OutView::SignatureDelta(s1.index, gv)]
            } else {
                Seq::<OutView>::empty()
            };
            assert(out_views(o2) =~= out_views(o) + t);
            assert(out_views(out@) =~= out_views(o2) + g);
            assert(out_views(out@) =~= out_views(o) + t + g);
            (s1, out)
        },
        StreamEvent::End => {
            if s.last != BlockKind::NoBlock {
                out.push(AnthropicOut::ContentBlockStop { index: s.index });
            }
            let ghost o = out@;
            if s.usage_pending {
                out.push(AnthropicOut::MessageDelta);
            }
            let ghost stop = if s.last != BlockKind::NoBlock {
                seq![OutView::Stop(s.index)]
            } else {
                Seq::<OutView>::empty()
            };
            let ghost delta = if s.usage_pending {
                seq![OutView::MessageDelta]
            } else {
                Seq::<OutView>::empty()
            };
            assert(out_views(o) =~= stop);
            assert(out_views(out@) =~= stop + delta);
            (AnthropicStream { phase: Phase::Completed, usage_pending: false, ..s }, out)
        },
        StreamEvent::Other => (s, out),
    }
}

/// The answer text of a whole (unstreamed) reply: with reasoning, the
/// reasoning (without two leading line feeds) inside the thinking tags,
/// followed by the answer; without, the answer without two leading line
/// feeds. An empty result is refused by the service.
pub open spec fn full_answer(thinking: Seq<char>, answer: Seq<char>, open_tag: Seq<char>, close_tag: Seq<char>) -> Seq<char> {
    if thinking.len() > 0 {
        open_tag + without_leading_newlines(thinking) + close_tag + answer
    } else {
        without_leading_newlines(answer)
    }
}

/// The answer text of a whole reply (see `full_answer`).
pub fn full_answer_text(thinking: String, answer: String, open_tag: &str, close_tag: &str) -> (r: String)
    ensures
        r@ == full_answer(thinking@, answer@, open_tag@, close_tag@),
{
    if thinking.as_str().unicode_len() > 0 {
        let t = thinking.trim_leading_newlines();
        let mut r = open_tag.to_owned();
        r.append(t.as_str());
        r.append(close_tag);
        r.append(answer.as_str());
        r
    } else {
        answer.trim_leading_newlines()
    }
}

} // verus!
