//! Framing of one encoded message on a stream: the encoded bytes end with a
//! newline, so reading one line yields exactly one message.
use vstd::prelude::*;

verus! {

/// The byte that ends a frame.
pub const NEWLINE: u8 = 10;

/// The frame that carries `body`.
pub open spec fn framed(body: Seq<u8>) -> Seq<u8> {
    body.push(NEWLINE)
}

/// `line` is the first line of `buf`: the bytes of `buf` up to its first
/// newline, or all of `buf` where it has none.
pub open spec fn is_first_line(buf: Seq<u8>, line: Seq<u8>) -> bool {
    &&& line.len() <= buf.len()
    &&& line == buf.take(line.len() as int)
    &&& !line.contains(NEWLINE)
    &&& (line.len() == buf.len() || buf[line.len() as int] == NEWLINE)
}

/// The first line of a frame is the body it carries, and nothing else is.
pub proof fn lemma_frame_round_trip(body: Seq<u8>, line: Seq<u8>)
    requires
        !body.contains(NEWLINE),
    ensures
        is_first_line(framed(body), body),
        is_first_line(framed(body), line) <==> line == body,
{
    let f = framed(body);
    assert(f.take(body.len() as int) =~= body);
    assert(f[body.len() as int] == NEWLINE);
    if is_first_line(f, line) {
        if line.len() < body.len() {
            assert(f[line.len() as int] == body[line.len() as int]);
            assert(body.contains(NEWLINE));
        } else if line.len() > body.len() {
            assert(line[body.len() as int] == NEWLINE);
            assert(line.contains(NEWLINE));
        }
        assert(line =~= body);
    }
}

/// The frame for `body`, or `None` where `body` holds a newline and so could
/// not be told apart from the frame's end.
pub fn frame(body: &Vec<u8>) -> (r: Option<Vec<u8>>)
    ensures
        r.is_none() <==> body@.contains(NEWLINE),
        r matches Some(f) ==> f@ == framed(body@),
{
    let mut out: Vec<u8> = Vec::new();
    let mut i: usize = 0;
    while i < body.len()
        invariant
            0 <= i <= body@.len(),
            out@ == body@.take(i as int),
            !out@.contains(NEWLINE),
        decreases body@.len() - i,
    {
        if body[i] == NEWLINE {
            assert(body@[i as int] == NEWLINE);
            return None;
        }
        out.push(body[i]);
        i = i + 1;
        assert(out@ =~= body@.take(i as int));
    }
    assert(out@ =~= body@);
    out.push(NEWLINE);
    Some(out)
}

/// The first line of what was read from a connection, or `None` where nothing
/// was read: the peer closed it before sending.
pub fn first_line(buf: &Vec<u8>) -> (r: Option<Vec<u8>>)
    ensures
        r.is_none() <==> buf@.len() == 0,
        r matches Some(l) ==> is_first_line(buf@, l@),
{
    if buf.len() == 0 {
        return None;
    }
    let mut out: Vec<u8> = Vec::new();
    let mut i: usize = 0;
    while i < buf.len() && buf[i] != NEWLINE
        invariant
            0 <= i <= buf@.len(),
            out@ == buf@.take(i as int),
            !out@.contains(NEWLINE),
        decreases buf@.len() - i,
    {
        out.push(buf[i]);
        i = i + 1;
        assert(out@ =~= buf@.take(i as int));
    }
    Some(out)
}

} // verus!
