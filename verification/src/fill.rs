//! The buffer-fill protocol: draining a stream of chunks into a bounded
//! buffer, with its mathematical model and the laws it obeys.

use vstd::prelude::*;

verus! {

/// The views of a list of byte vectors.
pub open spec fn chunk_views(chunks: Seq<Vec<u8>>) -> Seq<Seq<u8>> {
    chunks.map_values(|c: Vec<u8>| c@)
}

/// The smaller of two naturals.
pub open spec fn min_nat(a: nat, b: nat) -> nat {
    if a <= b {
        a
    } else {
        b
    }
}

/// What the drain loop deposits into a buffer with `cap` free bytes when the
/// successive reads return `chunks`: chunks are consumed in order until the
/// capacity is reached, and an empty chunk (end-of-stream) stops the drain.
pub open spec fn take_upto(chunks: Seq<Seq<u8>>, cap: nat) -> Seq<u8>
    decreases chunks.len(),
{
    if chunks.len() == 0 || cap == 0 || chunks[0].len() == 0 {
        Seq::<u8>::empty()
    } else if chunks[0].len() <= cap {
        chunks[0] + take_upto(chunks.skip(1), (cap - chunks[0].len()) as nat)
    } else {
        chunks[0].take(cap as int)
    }
}

/// Overwrites `buffer[offset .. offset + count]` with the first `count`
/// bytes of `chunk`; all other bytes keep their values.
#[verifier::loop_isolation(false)]
pub fn copy_into(buffer: &mut Vec<u8>, offset: usize, chunk: &Vec<u8>, count: usize)
    requires
        count <= chunk@.len(),
        offset + count <= old(buffer)@.len(),
    ensures
        final(buffer)@ == old(buffer)@.take(offset as int) + chunk@.take(count as int)
            + old(buffer)@.skip((offset + count) as int),
{
    let capacity = buffer.len();
    let mut i: usize = 0;
    while i < count
        invariant
            i <= count,
            count <= chunk@.len(),
            offset + count <= capacity,
            capacity == buffer@.len(),
            buffer@.len() == old(buffer)@.len(),
            buffer@ == old(buffer)@.take(offset as int) + chunk@.take(i as int)
                + old(buffer)@.skip((offset + i) as int),
        decreases count - i,
    {
        buffer.set(offset + i, chunk[i]);
        proof {
            assert(buffer@ =~= old(buffer)@.take(offset as int) + chunk@.take(i + 1)
                + old(buffer)@.skip(offset + i + 1));
        }
        i = i + 1;
    }
}

/// Drains `chunks[i ..]` into `buffer[offset ..]`, as the response-body loop
/// does with the chunks the transport hands back, and returns the number of
/// bytes written: exactly `take_upto` of the remaining chunks.
fn fill_tail(buffer: &mut Vec<u8>, offset: usize, chunks: &Vec<Vec<u8>>, i: usize) -> (n: usize)
    requires
        offset <= old(buffer)@.len(),
        i <= chunks@.len(),
    ensures
        n <= old(buffer)@.len() - offset,
        n == take_upto(chunk_views(chunks@).skip(i as int),
            (old(buffer)@.len() - offset) as nat).len(),
        final(buffer)@ == old(buffer)@.take(offset as int)
            + take_upto(chunk_views(chunks@).skip(i as int),
                (old(buffer)@.len() - offset) as nat)
            + old(buffer)@.skip(offset + n),
    decreases chunks@.len() - i,
{
    let ghost rest = chunk_views(chunks@).skip(i as int);
    let ghost cap = (old(buffer)@.len() - offset) as nat;
    if i == chunks.len() || offset == buffer.len() {
        proof {
            assert(take_upto(rest, cap).len() == 0);
            assert(buffer@ =~= old(buffer)@.take(offset as int) + take_upto(rest, cap)
                + old(buffer)@.skip(offset as int));
        }
        return 0;
    }
    let chunk = &chunks[i];
    proof {
        assert(rest[0] == chunk@);
    }
    if chunk.len() == 0 {
        proof {
            assert(take_upto(rest, cap).len() == 0);
            assert(buffer@ =~= old(buffer)@.take(offset as int) + take_upto(rest, cap)
                + old(buffer)@.skip(offset as int));
        }
        return 0;
    }
    let space = buffer.len() - offset;
    if chunk.len() <= space {
        copy_into(buffer, offset, chunk, chunk.len());
        proof {
            assert(chunk@.take(chunk@.len() as int) =~= chunk@);
        }
        let ghost mid = buffer@;
        let m = fill_tail(buffer, offset + chunk.len(), chunks, i + 1);
        proof {
            assert(chunk_views(chunks@).skip(i as int).skip(1)
                =~= chunk_views(chunks@).skip(i + 1));
            assert(take_upto(rest, cap)
                == chunk@ + take_upto(chunk_views(chunks@).skip(i + 1),
                    (cap - chunk@.len()) as nat));
            assert(mid.take(offset + chunk@.len())
                =~= old(buffer)@.take(offset as int) + chunk@);
            assert(mid.skip(offset + chunk@.len() + m)
                =~= old(buffer)@.skip(offset + chunk@.len() + m));
            assert(buffer@ =~= old(buffer)@.take(offset as int) + take_upto(rest, cap)
                + old(buffer)@.skip(offset + chunk@.len() + m));
        }
        chunk.len() + m
    } else {
        copy_into(buffer, offset, chunk, space);
        proof {
            assert(take_upto(rest, cap) == chunk@.take(cap as int));
            assert(buffer@ =~= old(buffer)@.take(offset as int) + take_upto(rest, cap)
                + old(buffer)@.skip(offset + space));
        }
        space
    }
}

/// Drains `chunks` into `buffer` from the front, as the response-body loop
/// does, and returns the number of bytes written. The bytes written are
/// exactly `take_upto(chunk_views(chunks@), buffer capacity)`; the bytes
/// beyond them keep their old values.
pub fn fill_from_chunks(buffer: &mut Vec<u8>, chunks: &Vec<Vec<u8>>) -> (n: usize)
    ensures
        n <= old(buffer)@.len(),
        n == take_upto(chunk_views(chunks@), old(buffer)@.len() as nat).len(),
        final(buffer)@ == take_upto(chunk_views(chunks@), old(buffer)@.len() as nat)
            + old(buffer)@.skip(n as int),
{
    let n = fill_tail(buffer, 0, chunks, 0);
    proof {
        assert(chunk_views(chunks@).skip(0) =~= chunk_views(chunks@));
        assert(old(buffer)@.take(0) =~= Seq::<u8>::empty());
        assert(buffer@ =~= take_upto(chunk_views(chunks@), old(buffer)@.len() as nat)
            + old(buffer)@.skip(n as int));
    }
    n
}

/// A faithful delivery of `body` in `chunks` to a reader with `cap` free
/// bytes: every read hands back a non-empty prefix of the bytes still owed,
/// no longer than what the reader asked for, and a read hands back nothing
/// only once the whole body has been delivered.
pub open spec fn delivers(chunks: Seq<Seq<u8>>, body: Seq<u8>, cap: nat) -> bool
    decreases chunks.len(),
{
    if cap == 0 {
        true
    } else if body.len() == 0 {
        chunks.len() > 0 && chunks[0] == Seq::<u8>::empty()
    } else {
        chunks.len() > 0 && 0 < chunks[0].len() <= min_nat(cap, body.len())
            && chunks[0] == body.take(chunks[0].len() as int)
            && delivers(chunks.skip(1), body.skip(chunks[0].len() as int),
                (cap - chunks[0].len()) as nat)
    }
}

/// However a body of length `L` is cut into chunks by short reads, the drain
/// deposits exactly the first `min(cap, L)` bytes of the body: with `L >= cap`
/// the buffer is filled completely with the body's first `cap` bytes, and
/// with `L < cap` all `L` bytes of the body arrive, in order, nothing else.
pub proof fn lemma_drain_delivers_body(chunks: Seq<Seq<u8>>, body: Seq<u8>, cap: nat)
    requires
        delivers(chunks, body, cap),
    ensures
        take_upto(chunks, cap) == body.take(min_nat(cap, body.len()) as int),
        take_upto(chunks, cap).len() == min_nat(cap, body.len()),
    decreases chunks.len(),
{
    if cap == 0 {
        assert(take_upto(chunks, cap) =~= body.take(0));
    } else if body.len() == 0 {
        assert(take_upto(chunks, cap) =~= body.take(0));
    } else {
        let c = chunks[0];
        lemma_drain_delivers_body(chunks.skip(1), body.skip(c.len() as int),
            (cap - c.len()) as nat);
        assert(take_upto(chunks, cap) == c + body.skip(c.len() as int).take(
            min_nat((cap - c.len()) as nat, (body.len() - c.len()) as nat) as int));
        assert(take_upto(chunks, cap) =~= body.take(min_nat(cap, body.len()) as int));
    }
}

/// Determinism of the drain: two faithful deliveries of the same body to
/// buffers with the same capacity deposit identical bytes, however
/// differently the transport cut the body into chunks on each call.
pub proof fn lemma_drain_deterministic(
    first: Seq<Seq<u8>>,
    second: Seq<Seq<u8>>,
    body: Seq<u8>,
    cap: nat,
)
    requires
        delivers(first, body, cap),
        delivers(second, body, cap),
    ensures
        take_upto(first, cap) == take_upto(second, cap),
{
    lemma_drain_delivers_body(first, body, cap);
    lemma_drain_delivers_body(second, body, cap);
}

} // verus!
