//! A verified model of the reply one-shot: the single-use inbox through which
//! an executed task hands its result back to the awaiting dispatcher.
//!
//! The real inbox is a pair of send and receive handles living on different
//! threads; this model holds both ends' state in one place.  Its contracts
//! pin down the properties the channel machinery relies on: a value is sent
//! at most once, a sent value is received unchanged, and dropping either end
//! resolves the other end's operation with a closed-channel outcome instead
//! of blocking it.

use vstd::prelude::*;

verus! {

/// The joint state of the two halves of one reply one-shot.
pub struct ReplyOneShot<R> {
    value: Option<R>,
    sender_alive: bool,
    receiver_alive: bool,
}

impl<R> ReplyOneShot<R> {
    /// The value sent so far, if any.
    pub closed spec fn sent_value(&self) -> Option<R> {
        self.value
    }

    /// Whether a value has been delivered into the inbox.
    pub open spec fn sent(&self) -> bool {
        self.sent_value() is Some
    }

    /// Whether the sending half still exists.
    pub closed spec fn sender_live(&self) -> bool {
        self.sender_alive
    }

    /// Whether the receiving half still exists.
    pub closed spec fn receiver_live(&self) -> bool {
        self.receiver_alive
    }

    /// A send consumes the sending half, so a live sender means nothing was
    /// sent yet; this is what makes a second send impossible.
    pub open spec fn wf(&self) -> bool {
        self.sender_live() ==> !self.sent()
    }

    /// Create the inbox with both halves live and nothing sent.
    pub fn new() -> (r: Self)
        ensures
            r.wf(),
            !r.sent(),
            r.sender_live(),
            r.receiver_live(),
    {
        ReplyOneShot { value: None, sender_alive: true, receiver_alive: true }
    }

    /// The sender-side liveness test: true exactly when the receiving half
    /// has been dropped, so that a send could no longer be observed.
    pub fn is_closed(&self) -> (r: bool)
        ensures
            r <==> !self.receiver_live(),
    {
        !self.receiver_alive
    }

    /// Send the result, consuming the sending half.  The value lands in the
    /// inbox exactly when the receiving half is still live; otherwise it is
    /// handed back to the caller and the inbox is left untouched.
    pub fn send(&mut self, v: R) -> (r: Result<(), R>)
        requires
            old(self).wf(),
            old(self).sender_live(),
        ensures
            final(self).wf(),
            !final(self).sender_live(),
            final(self).receiver_live() == old(self).receiver_live(),
            old(self).receiver_live() ==> r is Ok && final(self).sent_value() == Some(v),
            !old(self).receiver_live() ==> r == Err::<(), R>(v)
                && final(self).sent_value() == old(self).sent_value(),
    {
        self.sender_alive = false;
        if self.receiver_alive {
            self.value = Some(v);
            Ok(())
        } else {
            Err(v)
        }
    }

    /// Drop the sending half without sending; the awaiting receiver then
    /// resolves with a closed-channel outcome.
    pub fn drop_sender(&mut self)
        requires
            old(self).wf(),
            old(self).sender_live(),
        ensures
            final(self).wf(),
            !final(self).sender_live(),
            final(self).receiver_live() == old(self).receiver_live(),
            final(self).sent_value() == old(self).sent_value(),
    {
        self.sender_alive = false;
    }

    /// Drop the receiving half; a later send observes the closure.
    pub fn drop_receiver(&mut self)
        requires
            old(self).wf(),
            old(self).receiver_live(),
        ensures
            final(self).wf(),
            !final(self).receiver_live(),
            final(self).sender_live() == old(self).sender_live(),
            final(self).sent_value() == old(self).sent_value(),
    {
        self.receiver_alive = false;
    }

    /// The awaiting side's resolution, consuming the receiving half.  It is
    /// called once the await would complete, that is once the sending half is
    /// gone: either a value was sent, which is returned unchanged, or the
    /// sender was dropped without sending, which resolves to `None`.  Each
    /// awaiter is thus woken exactly once.
    pub fn recv(&mut self) -> (r: Option<R>)
        requires
            old(self).wf(),
            old(self).receiver_live(),
            !old(self).sender_live(),
        ensures
            final(self).wf(),
            !final(self).receiver_live(),
            !final(self).sender_live(),
            !final(self).sent(),
            r == old(self).sent_value(),
    {
        self.receiver_alive = false;
        self.value.take()
    }
}

} // verus!
