//! The wire framing: a four-byte big-endian length, then that many bytes of body.
use vstd::prelude::*;

verus! {

/// The largest body a frame can carry: its length must fit in four bytes.
pub const MAX_BODY_LEN: usize = 0xffff_ffff;

/// `n` as four big-endian bytes (for `n < 2^32`).
pub open spec fn be32(n: nat) -> Seq<u8> {
    seq![
        (n / 0x100_0000) as u8,
        ((n / 0x1_0000) % 0x100) as u8,
        ((n / 0x100) % 0x100) as u8,
        (n % 0x100) as u8,
    ]
}

/// The number that four big-endian bytes stand for.
pub open spec fn be32_value(b: Seq<u8>) -> nat {
    (b[0] as nat) * 0x100_0000 + (b[1] as nat) * 0x1_0000 + (b[2] as nat) * 0x100 + (b[3] as nat)
}

/// The frame that carries `body`: its length prefix, then the body.
pub open spec fn frame_of(body: Seq<u8>) -> Seq<u8> {
    be32(body.len()) + body
}

/// The body length that the header at the start of `input` announces.
pub open spec fn announced_len(input: Seq<u8>) -> nat {
    be32_value(input.subrange(0, 4))
}

/// Whether `input` holds one whole frame at its start.
pub open spec fn holds_frame(input: Seq<u8>) -> bool {
    input.len() >= 4 && input.len() >= 4 + announced_len(input)
}

/// How many bytes a stream that has yielded `input` so far must still yield
/// before the frame at its start is whole.
pub open spec fn still_needed(input: Seq<u8>) -> nat {
    if input.len() < 4 {
        (4 - input.len()) as nat
    } else if input.len() < 4 + announced_len(input) {
        (4 + announced_len(input) - input.len()) as nat
    } else {
        0
    }
}

/// What decoding `input` yields: the body of the frame at its start and the
/// number of bytes the frame takes, or `None` where the input ends first.
pub open spec fn decode_spec(input: Seq<u8>) -> Option<(Seq<u8>, nat)> {
    if holds_frame(input) {
        Some((input.subrange(4, 4 + announced_len(input) as int), 4 + announced_len(input)))
    } else {
        None
    }
}

/// A stream ended inside a frame.
#[derive(Debug, Clone, Copy, PartialEq, Eq)]
pub struct ShortRead {
    /// Bytes the frame needs: its header, then the announced body.
    pub expected: u64,
    /// Bytes the stream yielded.
    pub received: u64,
}

pub proof fn lemma_be32_round_trip(n: nat)
    requires
        n <= 0xffff_ffff,
    ensures
        be32(n).len() == 4,
        be32_value(be32(n)) == n,
{
    let b = be32(n);
    assert(b[0] as nat == n / 0x100_0000);
    assert(b[1] as nat == (n / 0x1_0000) % 0x100);
    assert(b[2] as nat == (n / 0x100) % 0x100);
    assert(b[3] as nat == n % 0x100);
    assert((n / 0x100_0000) * 0x100_0000 + ((n / 0x1_0000) % 0x100) * 0x1_0000 + ((n / 0x100)
        % 0x100) * 0x100 + n % 0x100 == n) by (nonlinear_arith)
        requires
            n <= 0xffff_ffff,
    {
        assert(n == (n / 0x100) * 0x100 + n % 0x100);
        assert(n / 0x100 == (n / 0x1_0000) * 0x100 + (n / 0x100) % 0x100);
        assert(n / 0x1_0000 == (n / 0x100_0000) * 0x100 + (n / 0x1_0000) % 0x100);
    }
}

/// Decoding the frame of any body that fits, followed by anything else,
/// gives back exactly that body and the frame's length.
pub proof fn lemma_frame_round_trip(body: Seq<u8>, rest: Seq<u8>)
    requires
        body.len() <= MAX_BODY_LEN,
    ensures
        decode_spec(frame_of(body) + rest) == Some((body, 4 + body.len())),
{
    let input = frame_of(body) + rest;
    lemma_be32_round_trip(body.len());
    assert(input.subrange(0, 4) =~= be32(body.len()));
    assert(input.subrange(4, 4 + body.len() as int) =~= body);
}

/// A stream that yields a header announcing `n` bytes and then exactly `n`
/// bytes decodes to those bytes; one that ends after fewer than `n` bytes
/// does not decode at all, and still needs the missing bytes.
pub proof fn lemma_length_boundary(n: nat, body: Seq<u8>)
    requires
        n <= 0xffff_ffff,
    ensures
        body.len() == n ==> decode_spec(be32(n) + body) == Some((body, 4 + n)),
        body.len() < n ==> decode_spec(be32(n) + body) is None,
        body.len() < n ==> still_needed(be32(n) + body) == n - body.len(),
{
    let input = be32(n) + body;
    lemma_be32_round_trip(n);
    assert(input.subrange(0, 4) =~= be32(n));
    if body.len() == n {
        lemma_frame_round_trip(body, Seq::empty());
        assert(frame_of(body) + Seq::empty() =~= input);
    }
}

/// Builds the frame that carries `body`.
pub fn encode_frame(body: &[u8]) -> (r: Vec<u8>)
    requires
        body@.len() <= MAX_BODY_LEN,
    ensures
        r@ == frame_of(body@),
{
    let n = body.len() as u32;
    let mut r: Vec<u8> = Vec::new();
    r.push((n / 0x100_0000) as u8);
    r.push(((n / 0x1_0000) % 0x100) as u8);
    r.push(((n / 0x100) % 0x100) as u8);
    r.push((n % 0x100) as u8);
    let mut i: usize = 0;
    while i < body.len()
        invariant
            i <= body@.len(),
            r@ == be32(body@.len()) + body@.subrange(0, i as int),
        decreases body@.len() - i,
    {
        r.push(body[i]);
        i += 1;
        assert(body@.subrange(0, i as int) =~= body@.subrange(0, i - 1) + seq![body@[i - 1]]);
    }
    assert(body@.subrange(0, body@.len() as int) =~= body@);
    r
}

/// Reads the body length that a four-byte header announces.
pub fn header_len(header: &[u8]) -> (r: u32)
    requires
        header@.len() >= 4,
    ensures
        r as nat == be32_value(header@),
{
    (header[0] as u32) * 0x100_0000 + (header[1] as u32) * 0x1_0000 + (header[2] as u32) * 0x100
        + (header[3] as u32)
}

/// How many more bytes the stream must yield before the frame at the start
/// of `input` is whole (zero once it is).
pub fn bytes_needed(input: &[u8]) -> (r: usize)
    ensures
        r as nat == still_needed(input@),
{
    if input.len() < 4 {
        4 - input.len()
    } else {
        let n = header_len(input) as usize;
        assert(announced_len(input@) == be32_value(input@)) by {
            assert(input@.subrange(0, 4)[0] == input@[0]);
            assert(input@.subrange(0, 4)[1] == input@[1]);
            assert(input@.subrange(0, 4)[2] == input@[2]);
            assert(input@.subrange(0, 4)[3] == input@[3]);
        }
        if input.len() - 4 < n {
            n - (input.len() - 4)
        } else {
            0
        }
    }
}

/// Decodes the frame at the start of what a stream yielded before it ended.
/// Gives the body and the number of bytes the frame took, or `ShortRead`
/// where the stream ended inside the frame; never a truncated body.
pub fn decode_frame(input: &[u8]) -> (r: Result<(Vec<u8>, usize), ShortRead>)
    ensures
        r is Ok <==> holds_frame(input@),
        r is Ok ==> decode_spec(input@) == Some((r->Ok_0.0@, r->Ok_0.1 as nat)),
        r is Err ==> r->Err_0.received == input@.len() && r->Err_0.expected as nat == (if input@.len()
            < 4 { 4 } else { 4 + announced_len(input@) }),
{
    if input.len() < 4 {
        return Err(ShortRead { expected: 4, received: input.len() as u64 });
    }
    let n = header_len(input) as usize;
    assert(announced_len(input@) == be32_value(input@)) by {
        assert(input@.subrange(0, 4)[0] == input@[0]);
        assert(input@.subrange(0, 4)[1] == input@[1]);
        assert(input@.subrange(0, 4)[2] == input@[2]);
        assert(input@.subrange(0, 4)[3] == input@[3]);
    }
    if input.len() - 4 < n {
        return Err(ShortRead { expected: 4 + n as u64, received: input.len() as u64 });
    }
    let mut body: Vec<u8> = Vec::new();
    let mut i: usize = 0;
    while i < n
        invariant
            i <= n,
            4 + n <= input@.len(),
            input@.len() <= usize::MAX,
            body@ == input@.subrange(4, 4 + i),
        decreases n - i,
    {
        body.push(input[4 + i]);
        i += 1;
        assert(input@.subrange(4, 4 + i) =~= input@.subrange(4, 4 + i - 1) + seq![input@[4 + i - 1]]);
    }
    Ok((body, 4 + n))
}

} // verus!
