//! The wire format of the channel: a byte stream is a sequence of frames,
//! each a four-byte big-endian length prefix followed by that many payload
//! bytes. Frame boundaries are what keeps one `send` equal to one `recv`.

use vstd::prelude::*;
use vstd::arithmetic::div_mod::{lemma_mod_breakdown, lemma_small_mod};

verus! {

/// Largest payload one frame can carry: its length must fit the four-byte prefix.
pub const MAX_PAYLOAD: usize = 0xFFFF_FFFF;

/// The four big-endian bytes that encode a payload length.
pub open spec fn prefix_of(n: nat) -> Seq<u8> {
    seq![
        ((n / 0x100_0000) % 0x100) as u8,
        ((n / 0x1_0000) % 0x100) as u8,
        ((n / 0x100) % 0x100) as u8,
        (n % 0x100) as u8,
    ]
}

/// The payload length encoded by four prefix bytes.
pub open spec fn prefix_value(b: Seq<u8>) -> nat
    recommends
        b.len() == 4,
{
    (b[0] as nat) * 0x100_0000 + (b[1] as nat) * 0x1_0000 + (b[2] as nat) * 0x100 + (b[3] as nat)
}

/// One frame on the wire: the length prefix followed by the payload.
pub open spec fn frame_of(p: Seq<u8>) -> Seq<u8> {
    prefix_of(p.len()) + p
}

/// A sequence of payloads framed and concatenated in order.
pub open spec fn frames_of(ps: Seq<Seq<u8>>) -> Seq<u8>
    decreases ps.len(),
{
    if ps.len() == 0 {
        Seq::empty()
    } else {
        frame_of(ps[0]) + frames_of(ps.drop_first())
    }
}

/// Splits the first complete frame off a byte stream: its payload and the
/// bytes that follow it. `None` when no complete frame has arrived yet.
pub open spec fn take_frame(b: Seq<u8>) -> Option<(Seq<u8>, Seq<u8>)> {
    if b.len() >= 4 && b.len() - 4 >= prefix_value(b.take(4)) {
        let n = prefix_value(b.take(4)) as int;
        Some((b.subrange(4, 4 + n), b.skip(4 + n)))
    } else {
        None
    }
}

/// The payloads of a byte stream that is a whole number of frames;
/// `None` when the stream ends inside a prefix or a payload.
pub open spec fn parse_all(b: Seq<u8>) -> Option<Seq<Seq<u8>>>
    decreases b.len(),
{
    if b.len() == 0 {
        Some(Seq::empty())
    } else {
        match take_frame(b) {
            Some((p, rest)) => match parse_all(rest) {
                Some(ps) => Some(seq![p] + ps),
                None => None,
            },
            None => None,
        }
    }
}

/// Every payload is small enough to be framed.
pub open spec fn all_fit(ps: Seq<Seq<u8>>) -> bool {
    forall|i: int| 0 <= i < ps.len() ==> #[trigger] ps[i].len() <= MAX_PAYLOAD
}

/// A length that fits the prefix is encoded and decoded without loss.
pub proof fn lemma_prefix_round_trip(n: nat)
    requires
        n <= MAX_PAYLOAD,
    ensures
        prefix_of(n).len() == 4,
        prefix_value(prefix_of(n)) == n,
{
    lemma_mod_breakdown(n as int, 0x100_0000, 0x100);
    lemma_mod_breakdown(n as int, 0x1_0000, 0x100);
    lemma_mod_breakdown(n as int, 0x100, 0x100);
    lemma_small_mod(n, 0x1_0000_0000);
}

/// Deframing inverts framing: a frame followed by anything yields back
/// exactly its payload and leaves exactly the trailing bytes.
pub proof fn lemma_take_frame(p: Seq<u8>, rest: Seq<u8>)
    requires
        p.len() <= MAX_PAYLOAD,
    ensures
        take_frame(frame_of(p) + rest) == Some((p, rest)),
{
    let b = frame_of(p) + rest;
    lemma_prefix_round_trip(p.len());
    assert(b.take(4) =~= prefix_of(p.len()));
    let n = p.len() as int;
    assert(b.subrange(4, 4 + n) =~= p);
    assert(b.skip(4 + n) =~= rest);
}

/// Round trip and ordering of whole streams: the concatenation of the frames
/// of `ps` parses back to exactly the payloads `ps`, in their original order.
#[verifier::rlimit(30)]
pub proof fn lemma_frames_round_trip(ps: Seq<Seq<u8>>)
    requires
        all_fit(ps),
    ensures
        parse_all(frames_of(ps)) == Some(ps),
    decreases ps.len(),
{
    if ps.len() == 0 {
        assert(ps =~= Seq::<Seq<u8>>::empty());
    } else {
        let rest = ps.drop_first();
        let b = frames_of(ps);
        assert(b == frame_of(ps[0]) + frames_of(rest));
        lemma_take_frame(ps[0], frames_of(rest));
        assert(all_fit(rest)) by {
            assert(forall|i: int| 0 <= i < rest.len() ==> rest[i] == ps[i + 1]);
        }
        lemma_frames_round_trip(rest);
        assert(b.len() >= 4);
        assert(parse_all(b) == Some(seq![ps[0]] + rest));
        assert(seq![ps[0]] + rest =~= ps);
    }
}

/// Framing one more payload appends one more frame, after all earlier ones.
pub proof fn lemma_frames_of_push(ps: Seq<Seq<u8>>, p: Seq<u8>)
    ensures
        frames_of(ps.push(p)) == frames_of(ps) + frame_of(p),
    decreases ps.len(),
{
    let whole = ps.push(p);
    if ps.len() == 0 {
        assert(whole[0] == p);
        assert(whole.drop_first() =~= Seq::<Seq<u8>>::empty());
        assert(frames_of(whole) == frame_of(p) + frames_of(Seq::<Seq<u8>>::empty()));
        assert(frame_of(p) + Seq::<u8>::empty() =~= Seq::<u8>::empty() + frame_of(p));
    } else {
        assert(whole[0] == ps[0]);
        assert(whole.drop_first() =~= ps.drop_first().push(p));
        lemma_frames_of_push(ps.drop_first(), p);
        assert(frames_of(whole) == frame_of(ps[0]) + (frames_of(ps.drop_first()) + frame_of(p)));
        assert(frame_of(ps[0]) + (frames_of(ps.drop_first()) + frame_of(p)) =~= (frame_of(ps[0])
            + frames_of(ps.drop_first())) + frame_of(p));
    }
}

/// Frames one payload: the four-byte big-endian length prefix, then the
/// payload bytes. `None` exactly when the payload is too long to frame.
pub fn encode_frame(payload: &Vec<u8>) -> (r: Option<Vec<u8>>)
    ensures
        payload@.len() <= MAX_PAYLOAD ==> (r matches Some(f) && f@ == frame_of(payload@)),
        payload@.len() > MAX_PAYLOAD ==> r is None,
{
    let n = payload.len();
    if n > MAX_PAYLOAD {
        return None;
    }
    let mut out: Vec<u8> = Vec::new();
    out.push(((n / 0x100_0000) % 0x100) as u8);
    out.push(((n / 0x1_0000) % 0x100) as u8);
    out.push(((n / 0x100) % 0x100) as u8);
    out.push((n % 0x100) as u8);
    assert(out@ =~= prefix_of(payload@.len()));
    let mut i: usize = 0;
    while i < payload.len()
        invariant
            i <= payload@.len(),
            out@ == prefix_of(payload@.len()) + payload@.take(i as int),
        decreases payload@.len() - i,
    {
        out.push(payload[i]);
        i = i + 1;
        assert(out@ =~= prefix_of(payload@.len()) + payload@.take(i as int));
    }
    assert(out@ =~= frame_of(payload@));
    Some(out)
}

/// Removes the first complete frame from the front of `buf` and returns its
/// payload; leaves `buf` unchanged and returns `None` when no complete frame
/// has arrived yet.
pub fn pop_frame(buf: &mut Vec<u8>) -> (r: Option<Vec<u8>>)
    ensures
        match take_frame(old(buf)@) {
            Some((p, rest)) => (r matches Some(v) && v@ == p) && final(buf)@ == rest,
            None => r is None && final(buf)@ == old(buf)@,
        },
{
    if buf.len() < 4 {
        return None;
    }
    let n: usize = (buf[0] as usize) * 0x100_0000 + (buf[1] as usize) * 0x1_0000 + (buf[2] as usize)
        * 0x100 + (buf[3] as usize);
    assert(n == prefix_value(buf@.take(4)));
    if buf.len() - 4 < n {
        return None;
    }
    let end: usize = 4 + n;
    let mut payload: Vec<u8> = Vec::new();
    let mut i: usize = 4;
    while i < end
        invariant
            4 <= i <= end,
            end == 4 + n,
            end <= buf@.len(),
            payload@ == buf@.subrange(4, i as int),
        decreases end - i,
    {
        payload.push(buf[i]);
        i = i + 1;
        assert(payload@ =~= buf@.subrange(4, i as int));
    }
    let mut rest: Vec<u8> = Vec::new();
    let mut j: usize = end;
    while j < buf.len()
        invariant
            4 + n <= j <= buf@.len(),
            rest@ == buf@.subrange(4 + n as int, j as int),
        decreases buf@.len() - j,
    {
        rest.push(buf[j]);
        j = j + 1;
        assert(rest@ =~= buf@.subrange(4 + n as int, j as int));
    }
    assert(rest@ =~= buf@.skip(4 + n as int));
    *buf = rest;
    Some(payload)
}

} // verus!
