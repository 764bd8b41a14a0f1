//! Framing bytes and the bounded byte queue.
use vstd::prelude::*;

verus! {

/// Marks the beginning of a frame on the wire.
pub const SLIP_START: u8 = 0xa5;

/// Marks the end of a frame on the wire.
pub const SLIP_END: u8 = 0xc0;

/// Introduces a two-byte escape sequence inside a frame.
pub const SLIP_ESC: u8 = 0xdb;

/// Second byte of the escape sequence that stands for `SLIP_END`.
pub const SLIP_ESC_END: u8 = 0xdc;

/// Second byte of the escape sequence that stands for `SLIP_ESC`.
pub const SLIP_ESC_ESC: u8 = 0xdd;

/// Second byte of the escape sequence that stands for `SLIP_START`.
pub const SLIP_ESC_START: u8 = 0xde;

/// Number of bytes a `CacheQueue` can hold.
pub const QUEUE_CAPACITY: usize = 1024;

/// The bounded byte queue shared between interrupt handlers. The ring keeps
/// one slot free, so 1025 slots give room for `QUEUE_CAPACITY` bytes.
pub type CacheQueue = heapless::spsc::Queue<u8, 1025>;

/// `heapless::spsc::Queue`, a ring buffer of fixed size. Nothing is known of
/// a value of it but what `queue_bytes` says.
#[verifier::external_type_specification]
#[verifier::external_body]
#[verifier::reject_recursive_types(T)]
pub struct ExQueue<T, const N: usize>(heapless::spsc::Queue<T, N>);

/// The bytes a queue holds, oldest first.
pub uninterp spec fn queue_bytes(q: CacheQueue) -> Seq<u8>;

/// `heapless::spsc::Queue::enqueue`: appends `b` behind the newest byte.
/// The queue refuses, hands `b` back and stays as it was exactly when it
/// already holds `QUEUE_CAPACITY` bytes.
#[verifier::external_body]
pub(crate) fn queue_enqueue(q: &mut CacheQueue, b: u8) -> (r: Result<(), u8>)
    ensures
        r is Ok ==> queue_bytes(*old(q)).len() < QUEUE_CAPACITY && queue_bytes(*final(q))
            == queue_bytes(*old(q)).push(b),
        r is Err ==> r->Err_0 == b && queue_bytes(*old(q)).len() == QUEUE_CAPACITY
            && queue_bytes(*final(q)) == queue_bytes(*old(q)),
{
    q.enqueue(b)
}

/// `heapless::spsc::Queue::dequeue`: takes the oldest byte out, or returns
/// `None` and leaves the queue as it was when it holds nothing.
#[verifier::external_body]
pub(crate) fn queue_dequeue(q: &mut CacheQueue) -> (r: Option<u8>)
    ensures
        queue_bytes(*old(q)).len() == 0 ==> r is None && queue_bytes(*final(q)) == queue_bytes(
            *old(q),
        ),
        queue_bytes(*old(q)).len() > 0 ==> r == Some(queue_bytes(*old(q))[0]) && queue_bytes(
            *final(q),
        ) == queue_bytes(*old(q)).skip(1),
{
    q.dequeue()
}

} // verus!
