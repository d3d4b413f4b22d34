//! One endpoint of a framed point-to-point channel, split into a sending
//! half and a receiving half. The halves own disjoint state, so once split
//! they can be driven independently without touching each other's frames.
//!
//! The halves work on buffered bytes: a transport driver writes out what the
//! sender has queued, and feeds the receiver whatever arrives, reporting end
//! of stream with [`Receiver::close`].

use vstd::prelude::*;

use crate::codec::WireItem;
use crate::frame::{all_fit, encode_frame, frame_of, frames_of, pop_frame, take_frame, MAX_PAYLOAD};

verus! {

/// What can go wrong on a channel. None of these are retried: an `IO` error
/// is fatal to the whole channel, a `ReadError` to its receiving half, a
/// `WriteError` to its sending half.
#[derive(Debug, Clone, Copy, PartialEq, Eq, Structural)]
pub enum Error {
    /// Connection establishment or a low-level read or write failure.
    IO,
    /// A truncated or malformed frame, or a payload that decodes to no item.
    ReadError,
    /// An item that cannot be put on the wire.
    WriteError,
}

/// What one receive poll yields.
#[derive(Debug, PartialEq, Eq)]
pub enum RecvPoll<T> {
    /// The next item, deframed and decoded.
    Item(T),
    /// The peer closed cleanly and every buffered frame has been drained.
    Closed,
    /// No complete frame has arrived yet and the stream is still open.
    Pending,
    /// The stream is corrupt or ended inside a frame.
    Failed(Error),
}

/// The wire forms of a sequence of items, in order.
pub open spec fn payloads_of<T: WireItem>(items: Seq<T>) -> Seq<Seq<u8>> {
    items.map(|i: int, t: T| T::wire_of(t@))
}

/// The sending half: serializes each item, frames it, and queues the frame
/// for the transport in send order.
pub struct Sender<T: WireItem> {
    out: Vec<u8>,
    history: Ghost<Seq<T>>,
}

impl<T: WireItem> Sender<T> {
    /// The bytes queued for the transport since the last drain.
    pub closed spec fn queued(&self) -> Seq<u8> {
        self.out@
    }

    /// The items accepted since the last drain, oldest first.
    pub closed spec fn sent(&self) -> Seq<T> {
        self.history@
    }

    /// The queued bytes are exactly the frames of the sent items, in order:
    /// each accepted item contributes one frame, and nothing else is queued.
    pub open spec fn wf(&self) -> bool {
        &&& self.queued() == frames_of(payloads_of(self.sent()))
        &&& all_fit(payloads_of(self.sent()))
    }

    /// A fresh sending half with nothing queued.
    pub fn new() -> (r: Sender<T>)
        ensures
            r.wf(),
            r.sent() == Seq::<T>::empty(),
            r.queued() == Seq::<u8>::empty(),
    {
        let r = Sender { out: Vec::new(), history: Ghost(Seq::empty()) };
        proof {
            assert(payloads_of(r.sent()) =~= Seq::<Seq<u8>>::empty());
        }
        r
    }

    /// Serializes `item` and queues exactly one frame holding it. Fails with
    /// `WriteError`, queueing nothing, exactly when the serialized item is
    /// too long for a frame's length prefix.
    pub fn send(&mut self, item: T) -> (r: Result<(), Error>)
        requires
            old(self).wf(),
        ensures
            final(self).wf(),
            8 + 4 * item@.len() <= MAX_PAYLOAD ==> r is Ok,
            match r {
                Ok(()) => {
                    &&& final(self).sent() == old(self).sent().push(item)
                    &&& final(self).queued() == old(self).queued() + frame_of(T::wire_of(item@))
                    &&& T::decoded(T::wire_of(item@)) == Some(item@)
                },
                Err(e) => {
                    &&& e == Error::WriteError
                    &&& T::wire_of(item@).len() > MAX_PAYLOAD
                    &&& *final(self) == *old(self)
                },
            },
    {
        let payload = item.to_wire();
        match encode_frame(&payload) {
            Some(mut f) => {
                self.out.append(&mut f);
                proof {
                    let old_items = self.history@;
                    self.history@ = self.history@.push(item);
                    assert(payloads_of(self.history@) =~= payloads_of(old_items).push(
                        T::wire_of(item@),
                    ));
                    crate::frame::lemma_frames_of_push(
                        payloads_of(old_items),
                        T::wire_of(item@),
                    );
                }
                Ok(())
            },
            None => Err(Error::WriteError),
        }
    }

    /// Hands every queued byte to the transport driver and starts a fresh
    /// queue; the driver must write them out in this order.
    pub fn take_bytes(&mut self) -> (r: Vec<u8>)
        requires
            old(self).wf(),
        ensures
            final(self).wf(),
            r@ == old(self).queued(),
            final(self).queued() == Seq::<u8>::empty(),
            final(self).sent() == Seq::<T>::empty(),
    {
        let mut drained: Vec<u8> = Vec::new();
        core::mem::swap(&mut self.out, &mut drained);
        proof {
            self.history@ = Seq::empty();
            assert(payloads_of(self.history@) =~= Seq::<Seq<u8>>::empty());
        }
        drained
    }
}

/// The receiving half: buffers transport bytes and yields one decoded item
/// per complete frame, in arrival order.
pub struct Receiver<T: WireItem> {
    buf: Vec<u8>,
    eof: bool,
    marker: Ghost<Option<T>>,
}

impl<T: WireItem> Receiver<T> {
    /// The bytes that arrived and were not consumed yet.
    pub closed spec fn inbox(&self) -> Seq<u8> {
        self.buf@
    }

    /// Whether the peer has closed the stream.
    pub closed spec fn closed(&self) -> bool {
        self.eof
    }

    /// A fresh receiving half on an open stream.
    pub fn new() -> (r: Receiver<T>)
        ensures
            r.inbox() == Seq::<u8>::empty(),
            !r.closed(),
    {
        Receiver { buf: Vec::new(), eof: false, marker: Ghost(None) }
    }

    /// Buffers bytes that the transport delivered, behind what is already
    /// there: arrival order is kept.
    pub fn feed(&mut self, bytes: &Vec<u8>)
        requires
            !old(self).closed(),
        ensures
            final(self).inbox() == old(self).inbox() + bytes@,
            !final(self).closed(),
    {
        self.buf.extend_from_slice(bytes.as_slice());
    }

    /// Records that the peer closed the stream: no byte follows the ones
    /// already buffered.
    pub fn close(&mut self)
        ensures
            final(self).inbox() == old(self).inbox(),
            final(self).closed(),
    {
        self.eof = true;
    }

    /// One receive poll. When a complete frame is buffered, consumes exactly
    /// it and yields its decoded item, or `ReadError` when its payload
    /// decodes to no item. Otherwise nothing is consumed: the poll is
    /// `Pending` while the stream is open, `Closed` once the stream ended
    /// and every byte was drained — and, since nothing changes, every later
    /// poll stays `Closed` — and `ReadError` when the stream ended inside a
    /// frame, as it does when a length prefix claims more than was ever sent.
    pub fn recv(&mut self) -> (r: RecvPoll<T>)
        ensures
            final(self).closed() == old(self).closed(),
            match take_frame(old(self).inbox()) {
                Some((p, rest)) => {
                    &&& final(self).inbox() == rest
                    &&& match r {
                        RecvPoll::Item(w) => T::decoded(p) == Some(w@),
                        RecvPoll::Failed(e) => e == Error::ReadError && T::decoded(p) is None,
                        _ => false,
                    }
                },
                None => {
                    &&& final(self).inbox() == old(self).inbox()
                    &&& r == (if !old(self).closed() {
                        RecvPoll::<T>::Pending
                    } else if old(self).inbox().len() == 0 {
                        RecvPoll::<T>::Closed
                    } else {
                        RecvPoll::<T>::Failed(Error::ReadError)
                    })
                },
            },
    {
        match pop_frame(&mut self.buf) {
            Some(payload) => match T::from_wire(&payload) {
                Some(w) => RecvPoll::Item(w),
                None => RecvPoll::Failed(Error::ReadError),
            },
            None => {
                if !self.eof {
                    RecvPoll::Pending
                } else if self.buf.len() == 0 {
                    RecvPoll::Closed
                } else {
                    RecvPoll::Failed(Error::ReadError)
                }
            },
        }
    }
}

/// Round trip and ordering through the wire: everything a well-formed sender
/// has queued parses back, frame by frame, to exactly the wire forms of the
/// items it accepted, in send order. With [`WireItem::from_wire`], each of
/// those wire forms decodes to an item with the model of the one sent.
pub proof fn lemma_wire_order<T: WireItem>(s: Sender<T>)
    requires
        s.wf(),
    ensures
        crate::frame::parse_all(s.queued()) == Some(payloads_of(s.sent())),
{
    crate::frame::lemma_frames_round_trip(payloads_of(s.sent()));
}

/// One endpoint of a channel, before it is split: the sending half carries
/// items of type `I` out, the receiving half yields items of type `O`. A
/// symmetric channel is the case `I == O`.
pub struct Channel<I: WireItem, O: WireItem> {
    /// The sending half.
    pub sender: Sender<I>,
    /// The receiving half.
    pub receiver: Receiver<O>,
}

impl<I: WireItem, O: WireItem> Channel<I, O> {
    /// A fresh endpoint: nothing sent, nothing received, stream open.
    /// The transport connection itself is made and driven outside.
    pub fn new() -> (r: Channel<I, O>)
        ensures
            r.sender.wf(),
            r.sender.sent() == Seq::<I>::empty(),
            r.sender.queued() == Seq::<u8>::empty(),
            r.receiver.inbox() == Seq::<u8>::empty(),
            !r.receiver.closed(),
    {
        Channel { sender: Sender::new(), receiver: Receiver::new() }
    }

    /// Splits the endpoint into its two halves. Purely structural: each half
    /// owns its own state and nothing else, so the two can be driven
    /// concurrently without corrupting each other's frames.
    pub fn split(self) -> (r: (Sender<I>, Receiver<O>))
        ensures
            r.0 == self.sender,
            r.1 == self.receiver,
    {
        (self.sender, self.receiver)
    }
}

} // verus!


