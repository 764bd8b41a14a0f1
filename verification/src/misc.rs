//! Putting bytes into a queue: the drop-oldest policy and byte stuffing.
use vstd::prelude::*;
use crate::constants::{
    queue_bytes, queue_dequeue, queue_enqueue, CacheQueue, QUEUE_CAPACITY, SLIP_END, SLIP_ESC,
    SLIP_ESC_END, SLIP_ESC_ESC, SLIP_ESC_START, SLIP_START,
};

verus! {

/// The newest `QUEUE_CAPACITY` bytes of `s`, in their order; all of `s`
/// when it is no longer than that.
pub open spec fn keep_newest(s: Seq<u8>) -> Seq<u8> {
    if s.len() <= QUEUE_CAPACITY {
        s
    } else {
        s.skip(s.len() - QUEUE_CAPACITY)
    }
}

/// What a queue holding `s` holds after `bytes` were put in one by one
/// under the drop-oldest policy: unchanged where nothing was put in, else
/// the newest of both together.
pub open spec fn appended(s: Seq<u8>, bytes: Seq<u8>) -> Seq<u8> {
    if bytes.len() == 0 {
        s
    } else {
        keep_newest(s + bytes)
    }
}

/// The bytes that stand on the wire for one byte inside a frame.
pub open spec fn slip_escape(b: u8) -> Seq<u8> {
    if b == SLIP_START {
        seq![SLIP_ESC, SLIP_ESC_START]
    } else if b == SLIP_ESC {
        seq![SLIP_ESC, SLIP_ESC_ESC]
    } else if b == SLIP_END {
        seq![SLIP_ESC, SLIP_ESC_END]
    } else {
        seq![b]
    }
}

/// The bytes that stand on the wire for `data` inside a frame: each byte
/// escaped in turn.
pub open spec fn slip_encode(data: Seq<u8>) -> Seq<u8>
    decreases data.len(),
{
    if data.len() == 0 {
        Seq::<u8>::empty()
    } else {
        slip_encode(data.drop_last()) + slip_escape(data.last())
    }
}

/// Dropping the oldest bytes early or late leaves the same newest bytes.
pub proof fn lemma_keep_newest_append(t: Seq<u8>, u: Seq<u8>)
    ensures
        keep_newest(keep_newest(t) + u) == keep_newest(t + u),
{
    assert(keep_newest(keep_newest(t) + u) =~= keep_newest(t + u));
}

/// Putting bytes in in two goes is putting them in in one.
pub proof fn lemma_appended_twice(s: Seq<u8>, a: Seq<u8>, b: Seq<u8>)
    ensures
        appended(appended(s, a), b) == appended(s, a + b),
{
    if a.len() == 0 {
        assert(a + b =~= b);
    } else if b.len() == 0 {
        assert(a + b =~= a);
    } else {
        lemma_keep_newest_append(s + a, b);
        assert(s + a + b =~= s + (a + b));
    }
}

/// What a queue holding `s` holds after the bytes of `bytes` were put in
/// by one call each, in order.
pub open spec fn enqueued_each(s: Seq<u8>, bytes: Seq<u8>) -> Seq<u8>
    decreases bytes.len(),
{
    if bytes.len() == 0 {
        s
    } else {
        keep_newest(enqueued_each(s, bytes.drop_last()).push(bytes.last()))
    }
}

/// Drop-oldest: after any number of bytes were put in one by one, the
/// queue holds the newest of what it held and what was put in, in the order
/// of arrival, as many as fit; what does not fit is the oldest.
pub proof fn lemma_drop_oldest(s: Seq<u8>, bytes: Seq<u8>)
    requires
        s.len() <= QUEUE_CAPACITY,
    ensures
        enqueued_each(s, bytes) == keep_newest(s + bytes),
        enqueued_each(s, bytes).len() == if s.len() + bytes.len() <= QUEUE_CAPACITY {
            s.len() + bytes.len()
        } else {
            QUEUE_CAPACITY as nat
        },
        forall|i: int|
            0 <= i < enqueued_each(s, bytes).len() ==> enqueued_each(s, bytes)[i] == (s + bytes)[i
                + (s + bytes).len() - enqueued_each(s, bytes).len()],
    decreases bytes.len(),
{
    if bytes.len() == 0 {
        assert(s + bytes =~= s);
    } else {
        lemma_drop_oldest(s, bytes.drop_last());
        lemma_keep_newest_append(s + bytes.drop_last(), seq![bytes.last()]);
        assert(keep_newest(s + bytes.drop_last()).push(bytes.last()) =~= keep_newest(
            s + bytes.drop_last(),
        ) + seq![bytes.last()]);
        assert(s + bytes.drop_last() + seq![bytes.last()] =~= s + bytes);
    }
}

/// Escaping a sequence with one more byte appends that byte's escaped form.
pub proof fn lemma_slip_encode_push(data: Seq<u8>, b: u8)
    ensures
        slip_encode(data.push(b)) == slip_encode(data) + slip_escape(b),
{
    assert(data.push(b).drop_last() =~= data);
}

/// Escaping two sequences one after the other escapes their concatenation.
pub proof fn lemma_slip_encode_append(a: Seq<u8>, b: Seq<u8>)
    ensures
        slip_encode(a + b) == slip_encode(a) + slip_encode(b),
    decreases b.len(),
{
    if b.len() == 0 {
        assert(a + b =~= a);
        assert(slip_encode(a) + slip_encode(b) =~= slip_encode(a));
    } else {
        lemma_slip_encode_append(a, b.drop_last());
        assert((a + b).drop_last() =~= a + b.drop_last());
        assert((a + b).last() == b.last());
        assert(slip_encode(a + b) =~= slip_encode(a) + slip_encode(b));
    }
}

/// Appends `b` to the queue; when the queue is full the oldest byte is
/// evicted to make room.
pub fn enqueue_ditch_oldest(queue: &mut CacheQueue, b: u8)
    ensures
        queue_bytes(*final(queue)) == keep_newest(queue_bytes(*old(queue)).push(b)),
{
    match queue_enqueue(queue, b) {
        Ok(_) => {},
        Err(b) => {
            let _ = queue_dequeue(queue);
            let _ = queue_enqueue(queue, b);
            assert(queue_bytes(*queue) =~= keep_newest(queue_bytes(*old(queue)).push(b)));
        },
    }
}

/// Appends `bytes` to the queue one by one; each byte that finds the queue
/// full evicts the oldest.
pub fn enqueue_all_ditch_oldest(queue: &mut CacheQueue, bytes: &[u8])
    ensures
        queue_bytes(*final(queue)) == appended(queue_bytes(*old(queue)), bytes@),
{
    let ghost before = queue_bytes(*queue);
    let mut i: usize = 0;
    while i < bytes.len()
        invariant
            i <= bytes@.len(),
            queue_bytes(*queue) == appended(before, bytes@.take(i as int)),
        decreases bytes@.len() - i,
    {
        enqueue_ditch_oldest(queue, bytes[i]);
        proof {
            lemma_appended_twice(before, bytes@.take(i as int), seq![bytes@[i as int]]);
            assert(bytes@.take(i as int) + seq![bytes@[i as int]] =~= bytes@.take(i + 1));
            assert(queue_bytes(*queue) =~= appended(
                appended(before, bytes@.take(i as int)),
                seq![bytes@[i as int]],
            ));
        }
        i += 1;
    }
    proof {
        assert(bytes@.take(i as int) =~= bytes@);
    }
}

/// Appends the escaped form of `b` to the queue under the drop-oldest
/// policy.
pub fn slip_enqueue(queue: &mut CacheQueue, b: u8)
    ensures
        queue_bytes(*final(queue)) == keep_newest(queue_bytes(*old(queue)) + slip_escape(b)),
{
    let ghost before = queue_bytes(*queue);
    match b {
        SLIP_START => {
            enqueue_ditch_oldest(queue, SLIP_ESC);
            enqueue_ditch_oldest(queue, SLIP_ESC_START);
        },
        SLIP_ESC => {
            enqueue_ditch_oldest(queue, SLIP_ESC);
            enqueue_ditch_oldest(queue, SLIP_ESC_ESC);
        },
        SLIP_END => {
            enqueue_ditch_oldest(queue, SLIP_ESC);
            enqueue_ditch_oldest(queue, SLIP_ESC_END);
        },
        _ => {
            enqueue_ditch_oldest(queue, b);
        },
    }
    proof {
        let esc = slip_escape(b);
        if esc.len() == 2 {
            lemma_keep_newest_append(before.push(esc[0]), seq![esc[1]]);
            assert(keep_newest(before.push(esc[0])).push(esc[1]) =~= keep_newest(
                before.push(esc[0]),
            ) + seq![esc[1]]);
            assert(before.push(esc[0]) + seq![esc[1]] =~= before + esc);
        } else {
            assert(before.push(b) =~= before + esc);
        }
    }
}

} // verus!
