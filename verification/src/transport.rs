//! The fixed-capacity single-producer/single-consumer ring transport.
//!
//! The backing store is the lock-free ring of the `ringbuf` crate. Two
//! access patterns are offered:
//!
//! * [`RingTransport`] owns both ends of one ring in a single place. With
//!   no other thread able to touch the ring, every operation has an exact
//!   contract over the abstract contents [`ring_view`], and the FIFO,
//!   capacity and exactly-once laws are proved against those contracts.
//! * [`construct`] splits one ring into a [`ProducerHandle`] and a
//!   [`ConsumerHandle`] for the two-thread execution model. While the two
//!   handles live on different threads the contents seen through either
//!   one can change between any two calls, so their contracts state only
//!   what holds of every interleaving; the ordering discipline itself is
//!   the acquire/release cursor protocol of `ringbuf`.

use vstd::prelude::*;

use crate::event::MarketDataMessage;

verus! {

#[verifier::external_type_specification]
#[verifier::external_body]
#[verifier::reject_recursive_types(T)]
pub struct ExProducer<T>(ringbuf::Producer<T>);

#[verifier::external_type_specification]
#[verifier::external_body]
#[verifier::reject_recursive_types(T)]
pub struct ExConsumer<T>(ringbuf::Consumer<T>);

/// Both ends of one ring, held together: a single-owner transport whose
/// occupancy only the holder can change.
pub struct RingTransport {
    prod: ringbuf::Producer<MarketDataMessage>,
    cons: ringbuf::Consumer<MarketDataMessage>,
}

/// The unread contents of the transport, oldest first.
pub uninterp spec fn ring_view(t: RingTransport) -> Seq<MarketDataMessage>;

/// The slot count the transport was constructed with.
pub uninterp spec fn ring_cap(t: RingTransport) -> nat;

impl RingTransport {
    /// Relies on `ringbuf::RingBuffer::new` and `RingBuffer::split`: a
    /// fresh ring of `capacity` slots holds nothing, and the two parts
    /// returned by `split` are the ends of that same ring.
    #[verifier::external_body]
    fn with_capacity(capacity: usize) -> (t: RingTransport)
        requires
            1 <= capacity < usize::MAX,
        ensures
            ring_view(t) == Seq::<MarketDataMessage>::empty(),
            ring_cap(t) == capacity,
    {
        let (prod, cons) = ringbuf::RingBuffer::new(capacity).split();
        RingTransport { prod, cons }
    }

    /// Allocates a transport of `capacity` slots; a zero capacity is
    /// invalid and is the only rejected input.
    pub fn new(capacity: usize) -> (r: Option<RingTransport>)
        requires
            capacity < usize::MAX,
        ensures
            r is Some <==> capacity >= 1,
            r matches Some(t) ==> ring_view(t) == Seq::<MarketDataMessage>::empty()
                && ring_cap(t) == capacity,
    {
        if capacity == 0 {
            None
        } else {
            Some(RingTransport::with_capacity(capacity))
        }
    }

    /// Relies on `ringbuf::Producer::push`: when the ring has room the
    /// element is appended behind the newest unread one; on a full ring
    /// nothing changes and the element comes back unchanged.
    #[verifier::external_body]
    pub fn try_push(&mut self, e: MarketDataMessage) -> (r: Result<(), MarketDataMessage>)
        ensures
            ring_cap(*final(self)) == ring_cap(*old(self)),
            ring_view(*old(self)).len() < ring_cap(*old(self)) ==> r is Ok
                && ring_view(*final(self)) == ring_view(*old(self)).push(e),
            ring_view(*old(self)).len() >= ring_cap(*old(self)) ==> (r matches Err(back)
                && back == e && ring_view(*final(self)) == ring_view(*old(self))),
    {
        self.prod.push(e)
    }

    /// Relies on `ringbuf::Consumer::pop`: removes and returns the oldest
    /// unread element, or reports an empty ring and changes nothing.
    #[verifier::external_body]
    pub fn try_pop(&mut self) -> (r: Option<MarketDataMessage>)
        ensures
            ring_cap(*final(self)) == ring_cap(*old(self)),
            ring_view(*old(self)).len() > 0 ==> r == Some(ring_view(*old(self))[0])
                && ring_view(*final(self)) == ring_view(*old(self)).drop_first(),
            ring_view(*old(self)).len() == 0 ==> r is None
                && ring_view(*final(self)) == ring_view(*old(self)),
    {
        self.cons.pop()
    }

    /// Relies on `ringbuf::Consumer::is_empty`: the ring is empty exactly
    /// when its two cursors coincide.
    #[verifier::external_body]
    pub fn is_empty(&self) -> (r: bool)
        ensures
            r <==> ring_view(*self).len() == 0,
    {
        self.cons.is_empty()
    }

    /// Relies on `ringbuf::Consumer::len`: the occupancy, the number of
    /// unread elements.
    #[verifier::external_body]
    pub fn len(&self) -> (r: usize)
        ensures
            r == ring_view(*self).len(),
    {
        self.cons.len()
    }

    /// Relies on `ringbuf::Consumer::capacity`: the constant slot count.
    #[verifier::external_body]
    pub fn capacity(&self) -> (r: usize)
        ensures
            r == ring_cap(*self),
    {
        self.cons.capacity()
    }

    /// The ring is full exactly when the occupancy has reached the
    /// capacity: the hard backpressure boundary, at which a push is
    /// refused until the consumer frees a slot.
    pub fn is_full(&self) -> (r: bool)
        ensures
            r <==> ring_view(*self).len() == ring_cap(*self),
    {
        self.len() == self.capacity()
    }

    /// Pushes every element of `events`, oldest first; all fit, so all
    /// are accepted and the contents grow by exactly that batch in order.
    pub fn push_all(&mut self, events: Vec<MarketDataMessage>)
        requires
            ring_view(*old(self)).len() + events@.len() <= ring_cap(*old(self)),
        ensures
            ring_cap(*final(self)) == ring_cap(*old(self)),
            ring_view(*final(self)) == ring_view(*old(self)) + events@,
    {
        let ghost v0 = ring_view(*self);
        let ghost orig = events@;
        let mut rest = events;
        while rest.len() > 0
            invariant
                ring_cap(*self) == ring_cap(*old(self)),
                v0 == ring_view(*old(self)),
                v0 + orig == ring_view(*self) + rest@,
                ring_view(*self).len() + rest@.len() <= ring_cap(*self),
            decreases rest@.len(),
        {
            let ghost view_before = ring_view(*self);
            let ghost rest_before = rest@;
            let e = rest.remove(0);
            let _ = self.try_push(e);
            proof {
                assert(view_before.push(rest_before[0]) + rest_before.drop_first()
                    =~= view_before + rest_before);
            }
        }
        proof {
            assert(ring_view(*self) + rest@ =~= ring_view(*self));
        }
    }

    /// Pops until the ring reports empty: the result is exactly the
    /// contents that were unread, oldest first, each delivered once.
    pub fn drain(&mut self) -> (out: Vec<MarketDataMessage>)
        ensures
            ring_cap(*final(self)) == ring_cap(*old(self)),
            out@ == ring_view(*old(self)),
            ring_view(*final(self)) == Seq::<MarketDataMessage>::empty(),
    {
        let ghost v0 = ring_view(*self);
        let mut out: Vec<MarketDataMessage> = Vec::new();
        let mut done = false;
        while !done
            invariant
                ring_cap(*self) == ring_cap(*old(self)),
                v0 == ring_view(*old(self)),
                out@ + ring_view(*self) == v0,
                done ==> ring_view(*self).len() == 0,
            decreases ring_view(*self).len() + (if done { 0int } else { 1int }),
        {
            let ghost view_before = ring_view(*self);
            let ghost out_before = out@;
            match self.try_pop() {
                Some(e) => {
                    out.push(e);
                    proof {
                        assert(out_before.push(view_before[0]) + view_before.drop_first()
                            =~= out_before + view_before);
                    }
                }
                None => {
                    done = true;
                }
            }
        }
        proof {
            assert(out@ + ring_view(*self) =~= out@);
        }
        out
    }

    /// The FIFO and exactly-once law, executable: a batch pushed into an
    /// empty transport and then drained comes back exactly — the same
    /// elements, in push order, none observed twice, none skipped.
    pub fn fifo_round_trip(&mut self, events: Vec<MarketDataMessage>) -> (out: Vec<MarketDataMessage>)
        requires
            ring_view(*old(self)).len() == 0,
            events@.len() <= ring_cap(*old(self)),
        ensures
            out@ == events@,
            ring_view(*final(self)).len() == 0,
            ring_cap(*final(self)) == ring_cap(*old(self)),
    {
        let ghost orig = events@;
        self.push_all(events);
        proof {
            assert(ring_view(*self) =~= orig);
        }
        self.drain()
    }

    /// The capacity-bound law, executable: on a full transport a push is
    /// refused with the element handed back and nothing corrupted; after
    /// a single pop, pushing the same element succeeds.
    pub fn push_full_pop_push(&mut self, e: MarketDataMessage) -> (popped: MarketDataMessage)
        requires
            ring_view(*old(self)).len() == ring_cap(*old(self)),
            ring_cap(*old(self)) >= 1,
        ensures
            popped == ring_view(*old(self))[0],
            ring_view(*final(self)) == ring_view(*old(self)).drop_first().push(e),
            ring_cap(*final(self)) == ring_cap(*old(self)),
    {
        let rejected = match self.try_push(e) {
            Err(back) => back,
            Ok(()) => MarketDataMessage::Close,
        };
        let popped = match self.try_pop() {
            Some(oldest) => oldest,
            None => MarketDataMessage::Close,
        };
        let _ = self.try_push(rejected);
        popped
    }
}

/// The producer's end of a split ring: the sole mover of the write cursor.
pub struct ProducerHandle {
    inner: ringbuf::Producer<MarketDataMessage>,
}

/// The consumer's end of a split ring: the sole mover of the read cursor.
pub struct ConsumerHandle {
    inner: ringbuf::Consumer<MarketDataMessage>,
}

/// Relies on `ringbuf::RingBuffer::new` and `RingBuffer::split`: the two
/// parts are the ends of one fresh ring of `capacity` slots. Once they
/// live on different threads the shared contents move under both of them,
/// so no abstract view is stated for the pair.
#[verifier::external_body]
fn split_with_capacity(capacity: usize) -> (pair: (ProducerHandle, ConsumerHandle))
    requires
        1 <= capacity < usize::MAX,
{
    let (prod, cons) = ringbuf::RingBuffer::new(capacity).split();
    (ProducerHandle { inner: prod }, ConsumerHandle { inner: cons })
}

/// Allocates one ring of `capacity` slots and splits it into its two sole
/// access points, one per thread; a zero capacity is invalid and is the
/// only rejected input.
pub fn construct(capacity: usize) -> (r: Option<(ProducerHandle, ConsumerHandle)>)
    requires
        capacity < usize::MAX,
    ensures
        r is Some <==> capacity >= 1,
{
    if capacity == 0 {
        None
    } else {
        Some(split_with_capacity(capacity))
    }
}

impl ProducerHandle {
    /// Relies on `ringbuf::Producer::push`. Whether room exists at the
    /// moment of the call depends on how far the consumer has drained, so
    /// all that holds of every outcome is that a refused element comes
    /// back unchanged and an accepted one is published behind the newest
    /// unread element, release-ordered.
    #[verifier::external_body]
    pub fn try_push(&mut self, e: MarketDataMessage) -> (r: Result<(), MarketDataMessage>)
        ensures
            r matches Err(back) ==> back == e,
    {
        self.inner.push(e)
    }
}

impl ConsumerHandle {
    /// Relies on `ringbuf::Consumer::is_empty`: an acquire-ordered
    /// snapshot that the producer may outdate at any moment, so nothing
    /// is promised of it.
    #[verifier::external_body]
    pub fn is_empty(&self) -> bool {
        self.inner.is_empty()
    }

    /// Relies on `ringbuf::Consumer::pop`: removes and returns the oldest
    /// unread element, if the acquire-ordered read of the write cursor
    /// shows one. Which element is oldest depends on the producer's
    /// progress, so nothing is promised of the value.
    #[verifier::external_body]
    pub fn try_pop(&mut self) -> Option<MarketDataMessage> {
        self.inner.pop()
    }
}

} // verus!
