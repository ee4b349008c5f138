//! Cross-thread messaging: the handles that a sender holds, and the mailbox
//! from which the main loop takes what was sent, oldest first.

use crate::common::ApplicationMessage;
use vstd::prelude::*;

verus! {

/// A channel that can issue messages to the main application.
pub trait PlatformChannelTrait {
    type ApplicationMessage;

    /// The messages handed to this channel that the transport has not yet
    /// taken over, oldest first.
    spec fn outgoing(&self) -> Seq<Self::ApplicationMessage>;

    fn send(&mut self, message: Self::ApplicationMessage)
        ensures
            final(self).outgoing() == old(self).outgoing().push(message),
    ;
}

/// A handle that wakes the main loop and can wait until it has caught up.
pub trait PlatformWakerTrait {
    /// A wake-up of the main loop is owed.
    spec fn wake_requested(&self) -> bool;

    /// A barrier is owed: the holder waits until the main loop has taken
    /// everything sent before it.
    spec fn flush_requested(&self) -> bool;

    fn wake(&mut self)
        ensures
            final(self).wake_requested(),
            final(self).flush_requested() == old(self).flush_requested(),
    ;

    fn flush(&mut self)
        ensures
            final(self).flush_requested(),
            final(self).wake_requested() == old(self).wake_requested(),
    ;
}

/// The sending end held by an application handle. It collects messages in
/// the order of the calls until the transport carries them to the mailbox.
#[derive(Debug)]
pub struct PlatformChannel {
    outbox: Vec<ApplicationMessage>,
}

impl Clone for PlatformChannel {
    /// Another sending end of the same channel. What this end has collected
    /// stays with it: the new end starts with nothing, so that no message
    /// is carried twice.
    fn clone(&self) -> (channel: Self)
        ensures
            channel.outgoing() == Seq::<ApplicationMessage>::empty(),
    {
        PlatformChannel { outbox: Vec::new() }
    }
}

impl PlatformChannelTrait for PlatformChannel {
    type ApplicationMessage = ApplicationMessage;

    closed spec fn outgoing(&self) -> Seq<ApplicationMessage> {
        self.outbox@
    }

    fn send(&mut self, message: ApplicationMessage) {
        self.outbox.push(message);
    }
}

impl PlatformChannel {
    pub fn new() -> (channel: Self)
        ensures
            channel.outgoing() == Seq::<ApplicationMessage>::empty(),
    {
        PlatformChannel { outbox: Vec::new() }
    }

    /// Hands the collected messages to the transport, oldest first, and
    /// leaves the channel empty.
    pub fn take_outgoing(&mut self) -> (messages: Vec<ApplicationMessage>)
        ensures
            messages@ == old(self).outgoing(),
            final(self).outgoing() == Seq::<ApplicationMessage>::empty(),
    {
        let mut messages: Vec<ApplicationMessage> = Vec::new();
        core::mem::swap(&mut messages, &mut self.outbox);
        messages
    }
}

/// What a waker owes the main loop.
#[derive(Clone, Copy, Debug, PartialEq, Eq, Structural)]
pub struct WakerRequests {
    pub wake: bool,
    pub flush: bool,
}

/// The waking end held by an application handle.
#[derive(Debug)]
pub struct PlatformWaker {
    requests: WakerRequests,
}

impl Clone for PlatformWaker {
    /// Another waker for the same loop. What this one owes stays with it:
    /// the new one owes nothing.
    fn clone(&self) -> (waker: Self)
        ensures
            !waker.wake_requested(),
            !waker.flush_requested(),
    {
        PlatformWaker { requests: WakerRequests { wake: false, flush: false } }
    }
}

impl PlatformWakerTrait for PlatformWaker {
    closed spec fn wake_requested(&self) -> bool {
        self.requests.wake
    }

    closed spec fn flush_requested(&self) -> bool {
        self.requests.flush
    }

    fn wake(&mut self) {
        self.requests.wake = true;
    }

    fn flush(&mut self) {
        self.requests.flush = true;
    }
}

impl PlatformWaker {
    pub fn new() -> (waker: Self)
        ensures
            !waker.wake_requested(),
            !waker.flush_requested(),
    {
        PlatformWaker { requests: WakerRequests { wake: false, flush: false } }
    }

    /// Hands what is owed to the transport and leaves nothing owed.
    pub fn take_requests(&mut self) -> (requests: WakerRequests)
        ensures
            requests.wake == old(self).wake_requested(),
            requests.flush == old(self).flush_requested(),
            !final(self).wake_requested(),
            !final(self).flush_requested(),
    {
        let requests = self.requests;
        self.requests = WakerRequests { wake: false, flush: false };
        requests
    }
}

/// What travels through the mailbox: a message, or the token of a barrier.
#[derive(Clone, Copy, Debug, PartialEq, Eq, Structural)]
pub enum Envelope {
    Message(ApplicationMessage),
    Barrier(u64),
}

/// One step in the life of a mailbox.
pub enum MailboxStep {
    /// A sender enqueues a message.
    Send(ApplicationMessage),
    /// A sender enqueues a barrier with this token.
    Flush(u64),
    /// The main loop takes the oldest envelope.
    Receive,
    /// The caller that waited for the barrier with this token goes on.
    Release(u64),
    /// The main loop shuts down.
    Close,
}

/// The mathematical state of a mailbox.
pub ghost struct MailboxState {
    /// What the main loop has taken, oldest first.
    pub delivered: Seq<Envelope>,
    /// What waits for the main loop, oldest first.
    pub waiting: Seq<Envelope>,
    /// The main loop has shut down.
    pub closed: bool,
    /// The tokens of the barriers that the main loop has taken and whose
    /// callers have not gone on yet.
    pub acknowledged: Set<u64>,
}

impl MailboxState {
    pub open spec fn empty() -> MailboxState {
        MailboxState {
            delivered: Seq::empty(),
            waiting: Seq::empty(),
            closed: false,
            acknowledged: Set::empty(),
        }
    }

    /// Everything ever accepted, in the order in which it was accepted.
    pub open spec fn history(self) -> Seq<Envelope> {
        self.delivered + self.waiting
    }

    /// Every barrier that counts as taken was in fact handed to the main
    /// loop.
    pub open spec fn well_formed(self) -> bool {
        forall|token: u64| #[trigger]
            self.acknowledged.contains(token) ==> self.delivered.contains(
                Envelope::Barrier(token),
            )
    }

    pub open spec fn post(self, envelope: Envelope) -> MailboxState {
        if self.closed {
            self
        } else {
            MailboxState { waiting: self.waiting.push(envelope), ..self }
        }
    }

    pub open spec fn receive(self) -> MailboxState {
        if self.waiting.len() == 0 {
            self
        } else {
            MailboxState {
                delivered: self.delivered.push(self.waiting[0]),
                waiting: self.waiting.drop_first(),
                acknowledged: match self.waiting[0] {
                    Envelope::Barrier(token) => self.acknowledged.insert(token),
                    Envelope::Message(_) => self.acknowledged,
                },
                ..self
            }
        }
    }

    pub open spec fn release(self, token: u64) -> MailboxState {
        MailboxState { acknowledged: self.acknowledged.remove(token), ..self }
    }

    pub open spec fn close(self) -> MailboxState {
        MailboxState { closed: true, ..self }
    }

    pub open spec fn step(self, step: MailboxStep) -> MailboxState {
        match step {
            MailboxStep::Send(message) => self.post(Envelope::Message(message)),
            MailboxStep::Flush(token) => self.post(Envelope::Barrier(token)),
            MailboxStep::Receive => self.receive(),
            MailboxStep::Release(token) => self.release(token),
            MailboxStep::Close => self.close(),
        }
    }

    /// The state after all of `steps`, the first of them first.
    pub open spec fn run(self, steps: Seq<MailboxStep>) -> MailboxState
        decreases steps.len(),
    {
        if steps.len() == 0 {
            self
        } else {
            self.run(steps.drop_last()).step(steps.last())
        }
    }

    /// The state after each of `messages` was sent, the first of them first.
    pub open spec fn post_all(self, messages: Seq<ApplicationMessage>) -> MailboxState
        decreases messages.len(),
    {
        if messages.len() == 0 {
            self
        } else {
            self.post_all(messages.drop_last()).post(Envelope::Message(messages.last()))
        }
    }

    /// The state after the transport has carried over what a handle
    /// collected: its messages in their order, then the barrier if a flush
    /// was asked for.
    pub open spec fn carry(
        self,
        messages: Seq<ApplicationMessage>,
        flush: bool,
        token: u64,
    ) -> MailboxState {
        if flush {
            self.post_all(messages).post(Envelope::Barrier(token))
        } else {
            self.post_all(messages)
        }
    }

    /// Sending to an open mailbox appends the messages to what waits, in
    /// their order; sending to a closed one changes nothing.
    pub proof fn post_all_appends(self, messages: Seq<ApplicationMessage>)
        ensures
            self.closed ==> self.post_all(messages) == self,
            !self.closed ==> self.post_all(messages) == (MailboxState {
                waiting: self.waiting + messages.map_values(|m: ApplicationMessage| Envelope::Message(m)),
                ..self
            }),
        decreases messages.len(),
    {
        if messages.len() > 0 {
            let earlier = messages.drop_last();
            self.post_all_appends(earlier);
            if !self.closed {
                let wrap = |m: ApplicationMessage| Envelope::Message(m);
                assert(self.post_all(messages).waiting =~= self.waiting + messages.map_values(wrap));
            }
        } else {
            assert(self.waiting + messages.map_values(|m: ApplicationMessage| Envelope::Message(m))
                =~= self.waiting);
        }
    }

    /// One step only ever appends to the history and to what was delivered,
    /// and keeps a well-formed state well formed.
    pub proof fn step_extends(self, step: MailboxStep)
        ensures
            self.history().is_prefix_of(self.step(step).history()),
            self.delivered.is_prefix_of(self.step(step).delivered),
            self.well_formed() ==> self.step(step).well_formed(),
    {
        let next = self.step(step);
        match step {
            MailboxStep::Receive => {
                if self.waiting.len() > 0 {
                    assert(next.history() =~= self.history());
                    assert(next.delivered[self.delivered.len() as int] == self.waiting[0]);
                }
            },
            _ => {},
        }
        assert(self.history().is_prefix_of(next.history()));
        if self.well_formed() {
            assert forall|token: u64| #[trigger]
                next.acknowledged.contains(token) implies next.delivered.contains(
                Envelope::Barrier(token),
            ) by {
                if self.acknowledged.contains(token) {
                    let i = choose|i: int|
                        0 <= i < self.delivered.len() && self.delivered[i] == Envelope::Barrier(
                            token,
                        );
                    assert(next.delivered[i] == Envelope::Barrier(token));
                }
            }
        }
    }

    /// Any run of steps only ever appends to the history and to what was
    /// delivered, and keeps a well-formed state well formed.
    pub proof fn run_extends(self, steps: Seq<MailboxStep>)
        ensures
            self.history().is_prefix_of(self.run(steps).history()),
            self.delivered.is_prefix_of(self.run(steps).delivered),
            self.well_formed() ==> self.run(steps).well_formed(),
        decreases steps.len(),
    {
        if steps.len() > 0 {
            let before = self.run(steps.drop_last());
            self.run_extends(steps.drop_last());
            before.step_extends(steps.last());
        }
    }

    /// Delivery is first in, first out, and a barrier closes what came before
    /// it: once the barrier of a flush has been delivered, whatever happened
    /// in between, everything accepted before that flush has been delivered
    /// too, in the order in which it was accepted.
    pub proof fn flush_covers_earlier_sends(self, token: u64, later: Seq<MailboxStep>)
        requires
            !self.closed,
        ensures
            ({
                let flushed = self.step(MailboxStep::Flush(token));
                let end = flushed.run(later);
                let barrier = self.history().len();
                &&& flushed.history() == self.history().push(Envelope::Barrier(token))
                &&& end.delivered.len() > barrier ==> {
                    &&& end.delivered[barrier as int] == Envelope::Barrier(token)
                    &&& forall|i: int|
                        0 <= i < barrier ==> #[trigger] end.delivered[i] == self.history()[i]
                }
            }),
    {
        let flushed = self.step(MailboxStep::Flush(token));
        let end = flushed.run(later);
        assert(flushed.history() =~= self.history().push(Envelope::Barrier(token)));
        flushed.run_extends(later);
        assert(end.delivered.is_prefix_of(end.history()));
    }

    /// A flush is a barrier for the caller's own messages: when a handle's
    /// messages and then its barrier were carried into an open mailbox, then,
    /// whatever happened afterwards, once the main loop has taken the barrier
    /// it has taken each of those messages before it, in the order in which
    /// they were sent.
    pub proof fn flush_waits_for_all_sent(
        self,
        messages: Seq<ApplicationMessage>,
        token: u64,
        later: Seq<MailboxStep>,
    )
        requires
            !self.closed,
        ensures
            ({
                let end = self.carry(messages, true, token).run(later);
                let first = self.history().len();
                let barrier = first + messages.len();
                end.delivered.len() > barrier ==> {
                    &&& end.delivered[barrier as int] == Envelope::Barrier(token)
                    &&& forall|i: int|
                        0 <= i < messages.len() ==> #[trigger] end.delivered[first + i]
                            == Envelope::Message(messages[i])
                }
            }),
    {
        let sent = self.post_all(messages);
        self.post_all_appends(messages);
        sent.flush_covers_earlier_sends(token, later);
        let wrapped = messages.map_values(|m: ApplicationMessage| Envelope::Message(m));
        assert(sent.history() =~= self.history() + wrapped);
        let end = self.carry(messages, true, token).run(later);
        let first = self.history().len();
        if end.delivered.len() > first + messages.len() {
            assert forall|i: int| 0 <= i < messages.len() implies #[trigger] end.delivered[first
                + i] == Envelope::Message(messages[i]) by {
                assert(end.delivered[first + i] == sent.history()[first + i]);
                assert(sent.history()[first + i] == wrapped[i]);
            }
        }
    }

    /// A flush returns only after what was sent before it: a caller waits
    /// until the token of its barrier counts as taken. If the token was not
    /// in use when the barrier was carried into an open mailbox, then,
    /// whatever happened afterwards, once the token counts as taken the main
    /// loop has taken the barrier, and before it each of the messages that
    /// were carried with it, in the order in which they were sent.
    pub proof fn flush_returns_after_all_sent(
        self,
        messages: Seq<ApplicationMessage>,
        token: u64,
        later: Seq<MailboxStep>,
    )
        requires
            self.well_formed(),
            !self.closed,
            !self.history().contains(Envelope::Barrier(token)),
        ensures
            ({
                let end = self.carry(messages, true, token).run(later);
                let first = self.history().len();
                let barrier = first + messages.len();
                end.acknowledged.contains(token) ==> {
                    &&& end.delivered.len() > barrier
                    &&& end.delivered[barrier as int] == Envelope::Barrier(token)
                    &&& forall|i: int|
                        0 <= i < messages.len() ==> #[trigger] end.delivered[first + i]
                            == Envelope::Message(messages[i])
                }
            }),
    {
        let sent = self.post_all(messages);
        let carried = self.carry(messages, true, token);
        let end = carried.run(later);
        let first = self.history().len();
        let barrier = first + messages.len();
        let wrapped = messages.map_values(|m: ApplicationMessage| Envelope::Message(m));
        self.post_all_appends(messages);
        self.flush_waits_for_all_sent(messages, token, later);
        assert(sent.history() =~= self.history() + wrapped);
        assert(carried.history() =~= sent.history().push(Envelope::Barrier(token)));
        assert(carried.delivered == self.delivered);
        assert(carried.acknowledged == self.acknowledged);
        carried.run_extends(later);
        if end.acknowledged.contains(token) {
            let k = choose|k: int|
                0 <= k < end.delivered.len() && end.delivered[k] == Envelope::Barrier(token);
            assert(end.delivered.is_prefix_of(end.history()));
            if k < barrier {
                assert(end.history()[k] == carried.history()[k]);
                if k < first {
                    assert(self.history()[k] == Envelope::Barrier(token));
                } else {
                    assert(carried.history()[k] == wrapped[k - first]);
                }
            }
        }
    }
}

/// What the transport owes once it has carried a handle's calls over.
#[derive(Clone, Copy, Debug, PartialEq, Eq, Structural)]
pub struct Delivery {
    /// The main loop is to be woken.
    pub wake: bool,
    /// The caller is to wait until the main loop has taken the barrier with
    /// this token.
    pub wait_for: Option<u64>,
}

/// The queue on the main loop's side. Senders post into it under the
/// transport's lock; the main loop takes envelopes out, oldest first.
pub struct Mailbox {
    queue: Vec<Envelope>,
    closed: bool,
    acknowledged: Vec<u64>,
    delivered: Ghost<Seq<Envelope>>,
}

impl View for Mailbox {
    type V = MailboxState;

    closed spec fn view(&self) -> MailboxState {
        MailboxState {
            delivered: self.delivered@,
            waiting: self.queue@,
            closed: self.closed,
            acknowledged: self.acknowledged@.to_set(),
        }
    }
}

impl Mailbox {
    pub fn new() -> (mailbox: Self)
        ensures
            mailbox@ == MailboxState::empty(),
            mailbox@.well_formed(),
    {
        let mailbox = Mailbox {
            queue: Vec::new(),
            closed: false,
            acknowledged: Vec::new(),
            delivered: Ghost(Seq::empty()),
        };
        assert(mailbox.acknowledged@.to_set() =~= Set::<u64>::empty());
        mailbox
    }

    /// Enqueues a message. After the main loop has shut down the message is
    /// dropped, and the sender is not told.
    pub fn send(&mut self, message: ApplicationMessage)
        ensures
            final(self)@ == old(self)@.step(MailboxStep::Send(message)),
            old(self)@.well_formed() ==> final(self)@.well_formed(),
    {
        proof {
            old(self)@.step_extends(MailboxStep::Send(message));
        }
        if !self.closed {
            self.queue.push(Envelope::Message(message));
        }
    }

    /// Enqueues the barrier of a flush. Returns whether the barrier was
    /// accepted, that is whether the main loop will ever deliver it.
    pub fn post_barrier(&mut self, token: u64) -> (accepted: bool)
        ensures
            final(self)@ == old(self)@.step(MailboxStep::Flush(token)),
            accepted == !old(self)@.closed,
            old(self)@.well_formed() ==> final(self)@.well_formed(),
    {
        proof {
            old(self)@.step_extends(MailboxStep::Flush(token));
        }
        if !self.closed {
            self.queue.push(Envelope::Barrier(token));
            true
        } else {
            false
        }
    }

    /// Takes the oldest waiting envelope, if there is one. A barrier counts
    /// as taken from then on.
    pub fn receive(&mut self) -> (envelope: Option<Envelope>)
        ensures
            final(self)@ == old(self)@.step(MailboxStep::Receive),
            envelope == (if old(self)@.waiting.len() == 0 {
                None
            } else {
                Some(old(self)@.waiting[0])
            }),
            old(self)@.well_formed() ==> final(self)@.well_formed(),
    {
        proof {
            old(self)@.step_extends(MailboxStep::Receive);
        }
        if self.queue.len() == 0 {
            None
        } else {
            let envelope = self.queue.remove(0);
            proof {
                self.delivered@ = self.delivered@.push(envelope);
                assert(self.queue@ =~= old(self).queue@.drop_first());
            }
            match envelope {
                Envelope::Barrier(token) => {
                    proof {
                        self.acknowledged@.lemma_push_to_set_commute(token);
                    }
                    self.acknowledged.push(token);
                },
                Envelope::Message(_) => {},
            }
            Some(envelope)
        }
    }

    /// Carries over what a handle has collected: its messages, oldest first,
    /// and then, if a flush was asked for, a barrier with `token`. The handle
    /// is left with nothing collected. The answer says whether the main loop
    /// is to be woken, and for which barrier the caller is to wait: for none
    /// if no flush was asked for or the main loop has shut down.
    pub fn deliver(
        &mut self,
        channel: &mut PlatformChannel,
        waker: &mut PlatformWaker,
        token: u64,
    ) -> (owed: Delivery)
        ensures
            final(self)@ == old(self)@.carry(
                old(channel).outgoing(),
                old(waker).flush_requested(),
                token,
            ),
            final(channel).outgoing() == Seq::<ApplicationMessage>::empty(),
            !final(waker).wake_requested(),
            !final(waker).flush_requested(),
            owed.wake == (old(waker).wake_requested() || old(waker).flush_requested()),
            owed.wait_for == (if old(waker).flush_requested() && !old(self)@.closed {
                Some(token)
            } else {
                None
            }),
            old(self)@.well_formed() ==> final(self)@.well_formed(),
    {
        let messages = channel.take_outgoing();
        let requests = waker.take_requests();
        let mut i: usize = 0;
        while i < messages.len()
            invariant
                i <= messages.len(),
                self@ == old(self)@.post_all(messages@.take(i as int)),
                old(self)@.well_formed() ==> self@.well_formed(),
            decreases messages.len() - i,
        {
            proof {
                assert(messages@.take(i + 1).drop_last() =~= messages@.take(i as int));
            }
            self.send(messages[i]);
            i += 1;
        }
        proof {
            assert(messages@.take(i as int) =~= messages@);
            old(self)@.post_all_appends(messages@);
        }
        let mut wait_for: Option<u64> = None;
        if requests.flush {
            let accepted = self.post_barrier(token);
            if accepted {
                wait_for = Some(token);
            }
        }
        Delivery { wake: requests.wake || requests.flush, wait_for }
    }

    /// Lets the caller that waits for the barrier with `token` go on, if the
    /// main loop has taken that barrier: the answer says whether it has.
    /// The token is free again afterwards.
    pub fn take_acknowledgement(&mut self, token: u64) -> (taken: bool)
        ensures
            taken == old(self)@.acknowledged.contains(token),
            final(self)@ == old(self)@.step(MailboxStep::Release(token)),
            old(self)@.well_formed() ==> final(self)@.well_formed(),
    {
        proof {
            old(self)@.step_extends(MailboxStep::Release(token));
        }
        let mut kept: Vec<u64> = Vec::new();
        let mut taken = false;
        let mut i: usize = 0;
        while i < self.acknowledged.len()
            invariant
                i <= self.acknowledged.len(),
                *self == *old(self),
                taken == self.acknowledged@.take(i as int).contains(token),
                forall|other: u64| #[trigger]
                    kept@.contains(other) <==> (other != token && self.acknowledged@.take(
                        i as int,
                    ).contains(other)),
            decreases self.acknowledged.len() - i,
        {
            let seen = self.acknowledged[i];
            let ghost before = self.acknowledged@.take(i as int);
            let ghost after = self.acknowledged@.take(i + 1);
            let ghost kept_before = kept@;
            if seen == token {
                taken = true;
            } else {
                kept.push(seen);
            }
            proof {
                assert(after =~= before.push(seen));
                assert(after[i as int] == seen);
                assert forall|other: u64| #[trigger]
                    kept@.contains(other) <==> (other != token && after.contains(other)) by {
                    if kept@.contains(other) {
                        let k = choose|k: int| 0 <= k < kept@.len() && kept@[k] == other;
                        if k < kept_before.len() {
                            assert(kept_before[k] == other);
                            assert(kept_before.contains(other));
                            let j = choose|j: int| 0 <= j < before.len() && before[j] == other;
                            assert(after[j] == other);
                        }
                    }
                    if other != token && after.contains(other) {
                        let j = choose|j: int| 0 <= j < after.len() && after[j] == other;
                        if j < i {
                            assert(before[j] == other);
                            assert(before.contains(other));
                            assert(kept_before.contains(other));
                            let k = choose|k: int|
                                0 <= k < kept_before.len() && kept_before[k] == other;
                            assert(kept@[k] == other);
                        } else {
                            assert(kept@[kept_before.len() as int] == other);
                        }
                    }
                }
                if before.contains(token) {
                    let j = choose|j: int| 0 <= j < before.len() && before[j] == token;
                    assert(after[j] == token);
                }
            }
            i += 1;
        }
        proof {
            assert(self.acknowledged@.take(i as int) =~= self.acknowledged@);
            assert(kept@.to_set() =~= self.acknowledged@.to_set().remove(token));
        }
        self.acknowledged = kept;
        taken
    }

    /// Marks the main loop as shut down: from now on nothing is accepted.
    pub fn close(&mut self)
        ensures
            final(self)@ == old(self)@.step(MailboxStep::Close),
            old(self)@.well_formed() ==> final(self)@.well_formed(),
    {
        proof {
            old(self)@.step_extends(MailboxStep::Close);
        }
        self.closed = true;
    }

    /// The number of envelopes that wait for the main loop.
    pub fn pending(&self) -> (count: usize)
        ensures
            count == self@.waiting.len(),
    {
        self.queue.len()
    }

    pub fn is_closed(&self) -> (closed: bool)
        ensures
            closed == self@.closed,
    {
        self.closed
    }
}

} // verus!
