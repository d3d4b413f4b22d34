//! A two-arm readiness multiplexer with deterministic, priority-ordered arm
//! selection: every poll checks the first arm before the second, processes at
//! most one ready item, yields an arm's end-of-stream exactly once and then
//! excludes that arm permanently, and completes only when both arms are
//! closed and drained. A driver loop performs the waiting and the side
//! effects; this state machine makes every decision.

use vstd::prelude::*;

verus! {

/// One receive arm: items buffered in arrival order, whether its sender has
/// closed it, and whether its end of stream was already yielded.
pub struct Arm {
    queue: Vec<u64>,
    closed: bool,
    terminated: bool,
}

impl Arm {
    /// The buffered items, oldest first.
    pub closed spec fn items(&self) -> Seq<u64> {
        self.queue@
    }

    /// Whether the sender has closed this arm.
    pub closed spec fn is_closed(&self) -> bool {
        self.closed
    }

    /// Whether this arm already yielded its end of stream; from then on it
    /// is never polled again.
    pub closed spec fn is_terminated(&self) -> bool {
        self.terminated
    }

    /// An arm is terminated only once it is closed and drained.
    pub open spec fn wf(&self) -> bool {
        self.is_terminated() ==> self.is_closed() && self.items().len() == 0
    }

    /// A fresh, open, empty arm.
    pub fn new() -> (r: Arm)
        ensures
            r.wf(),
            r.items() == Seq::<u64>::empty(),
            !r.is_closed(),
            !r.is_terminated(),
    {
        Arm { queue: Vec::new(), closed: false, terminated: false }
    }

    /// Buffers one item, behind the ones already waiting.
    pub fn push(&mut self, item: u64)
        requires
            old(self).wf(),
            !old(self).is_closed(),
        ensures
            final(self).wf(),
            final(self).items() == old(self).items().push(item),
            final(self).is_closed() == old(self).is_closed(),
            final(self).is_terminated() == old(self).is_terminated(),
    {
        self.queue.push(item);
    }

    /// The sender closes the arm: buffered items still drain, then the arm
    /// reports its end of stream.
    pub fn close(&mut self)
        requires
            old(self).wf(),
        ensures
            final(self).wf(),
            final(self).items() == old(self).items(),
            final(self).is_closed(),
            final(self).is_terminated() == old(self).is_terminated(),
    {
        self.closed = true;
    }
}

/// What one poll of the multiplexer decides.
#[derive(Debug, Clone, Copy, PartialEq, Eq, Structural)]
pub enum Event {
    /// The first arm yielded an item.
    Msg1(u64),
    /// The first arm reported its end of stream; it is now excluded.
    Done1,
    /// The second arm yielded an item.
    Msg2(u64),
    /// The second arm reported its end of stream; it is now excluded.
    Done2,
    /// Both arms are closed and drained: the loop is over.
    Complete,
    /// Neither arm is ready and at least one is still open: wait.
    Pending,
}

/// The multiplexer over two arms, first arm first.
pub struct Mux {
    /// The higher-priority arm, checked first on every poll.
    pub arm_1: Arm,
    /// The lower-priority arm, checked only when the first is not ready.
    pub arm_2: Arm,
}

/// An arm is ready when it can yield an item, or its end of stream is due.
pub open spec fn ready(a: Arm) -> bool {
    a.items().len() > 0 || (a.is_closed() && !a.is_terminated())
}

impl Mux {
    /// Both arms well formed.
    pub open spec fn wf(&self) -> bool {
        self.arm_1.wf() && self.arm_2.wf()
    }

    /// A fresh multiplexer: both arms open and empty.
    pub fn new() -> (r: Mux)
        ensures
            r.wf(),
            r.arm_1.items() == Seq::<u64>::empty(),
            r.arm_2.items() == Seq::<u64>::empty(),
            !r.arm_1.is_closed(),
            !r.arm_2.is_closed(),
            !r.arm_1.is_terminated(),
            !r.arm_2.is_terminated(),
    {
        Mux { arm_1: Arm::new(), arm_2: Arm::new() }
    }

    /// One poll. The decision is a function of the state alone, in fixed
    /// priority order: the first arm's next item, else its end of stream
    /// (once, after which the arm is permanently excluded), else the same
    /// for the second arm, else `Complete` when both arms are terminated,
    /// else `Pending`. At most one item is consumed per poll, and a
    /// terminated arm never yields again.
    pub fn poll(&mut self) -> (r: Event)
        requires
            old(self).wf(),
        ensures
            final(self).wf(),
            final(self).arm_1.is_closed() == old(self).arm_1.is_closed(),
            final(self).arm_2.is_closed() == old(self).arm_2.is_closed(),
            r == (if old(self).arm_1.items().len() > 0 {
                Event::Msg1(old(self).arm_1.items()[0])
            } else if old(self).arm_1.is_closed() && !old(self).arm_1.is_terminated() {
                Event::Done1
            } else if old(self).arm_2.items().len() > 0 {
                Event::Msg2(old(self).arm_2.items()[0])
            } else if old(self).arm_2.is_closed() && !old(self).arm_2.is_terminated() {
                Event::Done2
            } else if old(self).arm_1.is_terminated() && old(self).arm_2.is_terminated() {
                Event::Complete
            } else {
                Event::Pending
            }),
            r matches Event::Msg1(m) ==> final(self).arm_1.items() == old(
                self,
            ).arm_1.items().drop_first() && final(self).arm_1.is_terminated() == old(
                self,
            ).arm_1.is_terminated() && final(self).arm_2 == old(self).arm_2,
            r == Event::Done1 ==> final(self).arm_1.is_terminated() && final(self).arm_1.items()
                == old(self).arm_1.items() && final(self).arm_2 == old(self).arm_2,
            r matches Event::Msg2(m) ==> final(self).arm_2.items() == old(
                self,
            ).arm_2.items().drop_first() && final(self).arm_2.is_terminated() == old(
                self,
            ).arm_2.is_terminated() && final(self).arm_1 == old(self).arm_1,
            r == Event::Done2 ==> final(self).arm_2.is_terminated() && final(self).arm_2.items()
                == old(self).arm_2.items() && final(self).arm_1 == old(self).arm_1,
            r == Event::Complete || r == Event::Pending ==> *final(self) == *old(self),
            old(self).arm_1.is_terminated() ==> !(r matches Event::Msg1(_)) && r != Event::Done1,
            old(self).arm_2.is_terminated() ==> !(r matches Event::Msg2(_)) && r != Event::Done2,
            r == Event::Complete <==> old(self).arm_1.is_terminated() && old(
                self,
            ).arm_2.is_terminated(),
            final(self).arm_1.is_terminated() || !old(self).arm_1.is_terminated(),
            final(self).arm_2.is_terminated() || !old(self).arm_2.is_terminated(),
    {
        if self.arm_1.queue.len() > 0 {
            let m = self.arm_1.queue.remove(0);
            assert(self.arm_1.items() =~= old(self).arm_1.items().drop_first());
            Event::Msg1(m)
        } else if self.arm_1.closed && !self.arm_1.terminated {
            self.arm_1.terminated = true;
            Event::Done1
        } else if self.arm_2.queue.len() > 0 {
            let m = self.arm_2.queue.remove(0);
            assert(self.arm_2.items() =~= old(self).arm_2.items().drop_first());
            Event::Msg2(m)
        } else if self.arm_2.closed && !self.arm_2.terminated {
            self.arm_2.terminated = true;
            Event::Done2
        } else if self.arm_1.terminated && self.arm_2.terminated {
            Event::Complete
        } else {
            Event::Pending
        }
    }
}

} // verus!

