//! The two single-slot channels between the capture thread and its
//! consumer: the ready signal, by which the consumer asks for the next
//! result, and the result slot, through which it is handed over.

use vstd::prelude::*;

verus! {

/// A single-slot token: raised by the consumer, taken by the producer.
/// Raising it twice leaves one token.
pub struct ReadySignal {
    raised: bool,
}

impl View for ReadySignal {
    type V = bool;

    closed spec fn view(&self) -> bool {
        self.raised
    }
}

impl ReadySignal {
    /// A signal that holds no token.
    pub fn new() -> (signal: ReadySignal)
        ensures
            !signal@,
    {
        ReadySignal { raised: false }
    }

    /// Leaves a token; where one is waiting already, nothing changes.
    /// Returns whether the token is a new one.
    pub fn raise(&mut self) -> (fresh: bool)
        ensures
            final(self)@,
            fresh == !old(self)@,
    {
        let fresh = !self.raised;
        self.raised = true;
        fresh
    }

    /// Takes the token if there is one, without waiting.
    pub fn take(&mut self) -> (token: bool)
        ensures
            token == old(self)@,
            !final(self)@,
    {
        let token = self.raised;
        self.raised = false;
        token
    }

    /// Whether a token is waiting.
    pub fn is_raised(&self) -> (raised: bool)
        ensures
            raised == self@,
    {
        self.raised
    }
}

/// What a consumer finds when it looks for a result.
pub enum Poll<T> {
    /// A result was waiting, and is handed over.
    Ready(T),
    /// Nothing is waiting yet; the producer is still at work.
    Pending,
    /// Nothing is waiting and the producer has stopped: nothing will come.
    Disconnected,
}

/// What a result slot holds and whether its producer is still there.
pub struct SlotView<T> {
    pub item: Option<T>,
    pub closed: bool,
}

/// A channel of capacity one. A result offered while another waits unread
/// is dropped, so the producer never waits and nothing queues up.
pub struct ResultSlot<T> {
    item: Option<T>,
    closed: bool,
}

impl<T> View for ResultSlot<T> {
    type V = SlotView<T>;

    closed spec fn view(&self) -> SlotView<T> {
        SlotView { item: self.item, closed: self.closed }
    }
}

/// What a consumer finds in a slot.
pub open spec fn found<T>(slot: SlotView<T>) -> Poll<T> {
    match slot.item {
        Some(value) => Poll::Ready(value),
        None => if slot.closed {
            Poll::Disconnected
        } else {
            Poll::Pending
        },
    }
}

/// The slot after an offer: the value is taken in where the slot is empty.
pub open spec fn offered<T>(slot: SlotView<T>, value: T) -> SlotView<T> {
    if slot.item is None {
        SlotView { item: Some(value), closed: slot.closed }
    } else {
        slot
    }
}

impl<T> ResultSlot<T> {
    /// An empty slot whose producer is at work.
    pub fn new() -> (slot: ResultSlot<T>)
        ensures
            slot@.item is None,
            !slot@.closed,
    {
        ResultSlot { item: None, closed: false }
    }

    /// Send or drop: the value is stored where the slot is empty, and
    /// dropped where a result waits unread. Returns whether it was stored.
    pub fn offer(&mut self, value: T) -> (stored: bool)
        ensures
            final(self)@ == offered(old(self)@, value),
            stored == (old(self)@.item is None),
    {
        if self.item.is_none() {
            self.item = Some(value);
            true
        } else {
            false
        }
    }

    /// Takes the waiting result if there is one, without waiting. A result
    /// stored before the producer stopped is still handed over.
    pub fn take(&mut self) -> (poll: Poll<T>)
        ensures
            poll == found(old(self)@),
            final(self)@.item is None,
            final(self)@.closed == old(self)@.closed,
    {
        match self.item.take() {
            Some(value) => Poll::Ready(value),
            None => {
                if self.closed {
                    Poll::Disconnected
                } else {
                    Poll::Pending
                }
            },
        }
    }

    /// Marks the producer as gone. What is stored stays.
    pub fn close(&mut self)
        ensures
            final(self)@.closed,
            final(self)@.item == old(self)@.item,
    {
        self.closed = true;
    }

    /// Whether a result waits unread.
    pub fn is_occupied(&self) -> (occupied: bool)
        ensures
            occupied == (self@.item is Some),
    {
        self.item.is_some()
    }

    /// Whether the producer has stopped.
    pub fn is_closed(&self) -> (closed: bool)
        ensures
            closed == self@.closed,
    {
        self.closed
    }
}

/// Both channels of one session, as the two sides share them.
pub struct Link<T> {
    pub ready: ReadySignal,
    pub result: ResultSlot<T>,
}

/// What both channels hold.
pub struct LinkView<T> {
    pub ready: bool,
    pub slot: SlotView<T>,
}

impl<T> View for Link<T> {
    type V = LinkView<T>;

    open spec fn view(&self) -> LinkView<T> {
        LinkView { ready: self.ready@, slot: self.result@ }
    }
}

/// The channels after the consumer has looked for a result: the slot is
/// empty, and a token was left where a result was taken.
pub open spec fn pulled<T>(link: LinkView<T>) -> LinkView<T> {
    LinkView {
        ready: link.ready || link.slot.item is Some,
        slot: SlotView { item: None, closed: link.slot.closed },
    }
}

/// The channels of a session that starts.
pub open spec fn fresh_link<T>() -> LinkView<T> {
    LinkView { ready: true, slot: SlotView { item: None, closed: false } }
}

impl<T> Link<T> {
    /// The channels of a session that starts: no result yet, and one ready
    /// token, so that the first analysis may run without being asked for.
    pub fn new() -> (link: Link<T>)
        ensures
            link@ == fresh_link::<T>(),
    {
        let mut ready = ReadySignal::new();
        let _ = ready.raise();
        Link { ready, result: ResultSlot::new() }
    }

    /// The consumer's side of one pull: takes the result if one waits, and
    /// in that case asks for the next one at once. Where nothing waits the
    /// ready signal is left alone.
    pub fn pull(&mut self) -> (poll: Poll<T>)
        ensures
            poll == found(old(self)@.slot),
            final(self)@ == pulled(old(self)@),
    {
        let poll = self.result.take();
        match &poll {
            Poll::Ready(_) => {
                let _ = self.ready.raise();
            },
            _ => {},
        }
        poll
    }
}

} // verus!
