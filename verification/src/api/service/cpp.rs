//! The code-completion stream: each message reaches the client as a
//! server-sent event.
use vstd::prelude::*;

verus! {

/// The bytes of a server-sent event: `event: `, its name, a line feed,
/// `data: `, its data and a blank line.
pub open spec fn sse_event(event: Seq<u8>, data: Seq<u8>) -> Seq<u8> {
    seq![101u8, 118, 101, 110, 116, 58, 32] + event + seq![10u8, 100, 97, 116, 97, 58, 32] + data + seq![10u8, 10]
}

/// Appends the bytes of `bytes` to `buf`.
fn extend_bytes(buf: &mut Vec<u8>, bytes: &[u8])
    ensures
        final(buf)@ == old(buf)@ + bytes@,
{
    let mut i: usize = 0;
    while i < bytes.len()
        invariant
            i <= bytes@.len(),
            buf@ == old(buf)@ + bytes@.take(i as int),
        decreases bytes@.len() - i,
    {
        buf.push(bytes[i]);
        assert(bytes@.take(i as int + 1) =~= bytes@.take(i as int).push(bytes@[i as int]));
        i = i + 1;
    }
    assert(bytes@.take(bytes@.len() as int) =~= bytes@);
}

/// Appends to `buf` the server-sent event named `event` with the data
/// `data` (see `sse_event`); the name is written in UTF-8.
pub fn append_event(buf: &mut Vec<u8>, event: &str, data: &[u8])
    ensures
        final(buf)@ == old(buf)@ + sse_event(vstd::utf8::encode_utf8(event@), data@),
{
    let ghost start = buf@;
    let head: [u8; 7] = [101u8, 118, 101, 110, 116, 58, 32];
    let mid: [u8; 7] = [10u8, 100, 97, 116, 97, 58, 32];
    let tail: [u8; 2] = [10u8, 10];
    extend_bytes(buf, head.as_slice());
    extend_bytes(buf, event.as_bytes());
    extend_bytes(buf, mid.as_slice());
    extend_bytes(buf, data);
    extend_bytes(buf, tail.as_slice());
    assert(head@ =~= seq![101u8, 118, 101, 110, 116, 58, 32]);
    assert(mid@ =~= seq![10u8, 100, 97, 116, 97, 58, 32]);
    assert(tail@ =~= seq![10u8, 10]);
    assert(buf@ =~= start + sse_event(vstd::utf8::encode_utf8(event@), data@));
}

} // verus!
