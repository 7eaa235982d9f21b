//! One subscription's publishing decisions: packing queued notifications
//! into numbered messages, keep-alives, lifetime expiry and the
//! retransmission queue.

use vstd::prelude::*;
use crate::types::{DataValue, StatusCode};

verus! {

#[derive(Debug, Clone, Copy, PartialEq, Eq, Structural)]
pub enum SubscriptionState {
    Normal,
    Late,
    KeepAlive,
    Closed,
}

/// A numbered batch of data-change notifications.
#[derive(Debug, Clone, PartialEq)]
pub struct NotificationMessage {
    pub sequence_number: u32,
    pub notifications: Vec<DataValue>,
}

/// What a publishing-interval tick asks the session to do.
#[derive(Debug, Clone, PartialEq)]
pub enum PublishAction {
    /// Nothing to send now.
    Wait,
    /// Answer a queued publish request with this message.
    Publish(NotificationMessage),
    /// Answer a queued publish request with a keep-alive that names the
    /// next sequence number.
    KeepAlive(u32),
    /// The subscription expired.
    Closed,
}

/// The same sequence number, and notifications with the same models.
pub open spec fn same_message(a: NotificationMessage, b: NotificationMessage) -> bool {
    &&& a.sequence_number == b.sequence_number
    &&& a.notifications@.len() == b.notifications@.len()
    &&& forall|i: int| 0 <= i < a.notifications@.len() ==> (#[trigger] a.notifications@[i])@ == b.notifications@[i]@
}

pub open spec fn saturating_inc(n: u32) -> u32 {
    if n < u32::MAX {
        (n + 1) as u32
    } else {
        n
    }
}

fn inc(n: u32) -> (r: u32)
    ensures
        r == saturating_inc(n),
{
    if n < u32::MAX {
        n + 1
    } else {
        n
    }
}

/// A step from `s0` to `s1` with action `r` never lowers the next sequence
/// number, and a published message takes the next one and moves it on.
pub open spec fn numbering_kept(s0: Subscription, s1: Subscription, r: PublishAction) -> bool {
    &&& s1.next_sequence_number >= s0.next_sequence_number
    &&& r is Publish ==> r->Publish_0.sequence_number == s0.next_sequence_number && s1.next_sequence_number
        == s0.next_sequence_number + 1
}

/// Over successive intervals, the messages published carry strictly rising
/// sequence numbers.
pub proof fn lemma_published_numbers_rise(states: Seq<Subscription>, actions: Seq<PublishAction>, i: int, j: int)
    requires
        states.len() == actions.len() + 1,
        forall|k: int| 0 <= k < actions.len() ==> #[trigger] numbering_kept(states[k], states[k + 1], actions[k]),
        0 <= i < j < actions.len(),
        actions[i] is Publish,
        actions[j] is Publish,
    ensures
        actions[i]->Publish_0.sequence_number < actions[j]->Publish_0.sequence_number,
{
    assert(numbering_kept(states[i], states[i + 1], actions[i]));
    assert(numbering_kept(states[j], states[j + 1], actions[j]));
    lemma_numbering_never_falls(states, actions, i + 1, j);
}

proof fn lemma_numbering_never_falls(states: Seq<Subscription>, actions: Seq<PublishAction>, a: int, b: int)
    requires
        states.len() == actions.len() + 1,
        forall|k: int| 0 <= k < actions.len() ==> #[trigger] numbering_kept(states[k], states[k + 1], actions[k]),
        0 <= a <= b < states.len(),
    ensures
        states[a].next_sequence_number <= states[b].next_sequence_number,
    decreases b - a,
{
    if a < b {
        lemma_numbering_never_falls(states, actions, a, b - 1);
        let k = b - 1;
        assert(numbering_kept(states[k], states[k + 1], actions[k]));
    }
}

/// An interval with nothing pending and a publish request queued, from
/// `s0` to `s1` with action `r`: the keep-alive counter rises, and on
/// reaching the maximum a keep-alive naming the next sequence number goes
/// out and the counter restarts.
pub open spec fn idle_interval_with_request(s0: Subscription, s1: Subscription, r: PublishAction) -> bool {
    let kc = saturating_inc(s0.keep_alive_counter);
    &&& s1.lifetime_counter == 0
    &&& s1.retransmission_queue@ == s0.retransmission_queue@
    &&& s1.next_sequence_number == s0.next_sequence_number
    &&& s1.pending@ == s0.pending@
    &&& s1.max_keep_alive_count == s0.max_keep_alive_count
    &&& if kc >= s0.max_keep_alive_count {
        &&& r == PublishAction::KeepAlive(s0.next_sequence_number)
        &&& s1.keep_alive_counter == 0
        &&& s1.state == SubscriptionState::KeepAlive
    } else {
        &&& r == PublishAction::Wait
        &&& s1.keep_alive_counter == kc
        &&& s1.state == s0.state
    }
}

/// Keep-alive liveness: over intervals with nothing pending and a publish
/// request queued, a keep-alive goes out within `max_keep_alive_count`
/// intervals.
pub proof fn lemma_keep_alive_within_max(states: Seq<Subscription>, actions: Seq<PublishAction>)
    requires
        states.len() == actions.len() + 1,
        actions.len() >= states[0].max_keep_alive_count,
        states[0].max_keep_alive_count >= 1,
        forall|i: int|
            0 <= i < actions.len() ==> #[trigger] idle_interval_with_request(states[i], states[i + 1], actions[i]),
    ensures
        exists|i: int|
            0 <= i < states[0].max_keep_alive_count && #[trigger] actions[i] == PublishAction::KeepAlive(
                states[i].next_sequence_number,
            ),
{
    let m = states[0].max_keep_alive_count as int;
    lemma_counter_rises(states, actions, m - 1);
    let i = m - 1;
    assert(idle_interval_with_request(states[i], states[i + 1], actions[i]));
}

/// Before any keep-alive, the counter after `k` idle intervals is at least
/// `k` above where it started, unless a keep-alive already went out.
proof fn lemma_counter_rises(states: Seq<Subscription>, actions: Seq<PublishAction>, k: int)
    requires
        states.len() == actions.len() + 1,
        0 <= k < actions.len(),
        forall|i: int|
            0 <= i < actions.len() ==> #[trigger] idle_interval_with_request(states[i], states[i + 1], actions[i]),
    ensures
        states[k].max_keep_alive_count == states[0].max_keep_alive_count,
        (exists|i: int| 0 <= i < k && #[trigger] actions[i] == PublishAction::KeepAlive(states[i].next_sequence_number))
            || states[k].keep_alive_counter >= states[0].keep_alive_counter + k
            || states[k].keep_alive_counter == u32::MAX,
    decreases k,
{
    if k > 0 {
        lemma_counter_rises(states, actions, k - 1);
        let j = k - 1;
        assert(idle_interval_with_request(states[j], states[j + 1], actions[j]));
    }
}

#[derive(Debug)]
pub struct Subscription {
    pub subscription_id: u32,
    pub lifetime_count: u32,
    pub max_keep_alive_count: u32,
    /// Upper bound on notifications per message; zero for none.
    pub max_notifications_per_publish: u32,
    pub state: SubscriptionState,
    pub lifetime_counter: u32,
    pub keep_alive_counter: u32,
    /// The sequence number of the next message.
    pub next_sequence_number: u32,
    /// Notifications waiting to be published.
    pub pending: Vec<DataValue>,
    /// Sent messages not yet acknowledged, oldest first.
    pub retransmission_queue: Vec<NotificationMessage>,
}

impl Subscription {
    /// Sequence numbers start at 1; those in the retransmission queue rise
    /// strictly and stay below the next one.
    pub open spec fn wf(&self) -> bool {
        &&& self.next_sequence_number >= 1
        &&& forall|i: int, j: int|
            0 <= i < j < self.retransmission_queue@.len() ==> (#[trigger] self.retransmission_queue@[i]).sequence_number
                < (#[trigger] self.retransmission_queue@[j]).sequence_number
        &&& forall|i: int|
            0 <= i < self.retransmission_queue@.len() ==> (#[trigger] self.retransmission_queue@[i]).sequence_number
                < self.next_sequence_number
    }

    pub open spec fn holds_sequence_number(&self, n: u32) -> bool {
        exists|i: int| 0 <= i < self.retransmission_queue@.len() && #[trigger] self.retransmission_queue@[i].sequence_number == n
    }

    pub fn new(subscription_id: u32, lifetime_count: u32, max_keep_alive_count: u32, max_notifications_per_publish: u32) -> (r:
        Subscription)
        ensures
            r.wf(),
            r.subscription_id == subscription_id,
            r.lifetime_count == lifetime_count,
            r.max_keep_alive_count == max_keep_alive_count,
            r.max_notifications_per_publish == max_notifications_per_publish,
            r.state == SubscriptionState::Normal,
            r.lifetime_counter == 0,
            r.keep_alive_counter == 0,
            r.next_sequence_number == 1,
            r.pending@.len() == 0,
            r.retransmission_queue@.len() == 0,
    {
        Subscription {
            subscription_id,
            lifetime_count,
            max_keep_alive_count,
            max_notifications_per_publish,
            state: SubscriptionState::Normal,
            lifetime_counter: 0,
            keep_alive_counter: 0,
            next_sequence_number: 1,
            pending: Vec::new(),
            retransmission_queue: Vec::new(),
        }
    }

    /// Queues a notification for the next message.
    pub fn enqueue(&mut self, value: DataValue)
        requires
            old(self).wf(),
        ensures
            final(self).wf(),
            final(self).pending@ == old(self).pending@.push(value),
            final(self).retransmission_queue@ == old(self).retransmission_queue@,
            final(self).next_sequence_number == old(self).next_sequence_number,
            final(self).state == old(self).state,
    {
        self.pending.push(value);
    }

    /// One publishing interval. A closed subscription does nothing. With
    /// notifications pending and a publish request queued, the first ones
    /// (up to the per-message bound) go out as a message numbered with the
    /// next sequence number, which is kept for retransmission; without a
    /// request the subscription is late. With nothing pending the
    /// keep-alive counter rises, and on reaching the maximum while a request
    /// is queued a keep-alive goes out. Every interval without a request
    /// counts towards the lifetime, and reaching it closes the
    /// subscription; a queued request resets that count.
    pub fn tick(&mut self, request_queued: bool) -> (r: PublishAction)
        requires
            old(self).wf(),
        ensures
            final(self).wf(),
            numbering_kept(*old(self), *final(self), r),
            old(self).state == SubscriptionState::Closed ==> r == PublishAction::Wait && final(self).state
                == SubscriptionState::Closed && final(self).retransmission_queue@ == old(
                self,
            ).retransmission_queue@,
            old(self).state != SubscriptionState::Closed && old(self).pending@.len() > 0 && request_queued
                && old(self).next_sequence_number < u32::MAX ==> ({
                let n = old(self).pending@.len();
                let k = if old(self).max_notifications_per_publish == 0
                    || old(self).max_notifications_per_publish >= n {
                    n as int
                } else {
                    old(self).max_notifications_per_publish as int
                };
                &&& r matches PublishAction::Publish(m)
                &&& m.sequence_number == old(self).next_sequence_number
                &&& m.notifications@ == old(self).pending@.subrange(0, k)
                &&& final(self).pending@ == old(self).pending@.subrange(k, n as int)
                &&& final(self).retransmission_queue@.len() == old(self).retransmission_queue@.len() + 1
                &&& final(self).retransmission_queue@.drop_last() == old(self).retransmission_queue@
                &&& same_message(final(self).retransmission_queue@.last(), m)
                &&& final(self).next_sequence_number == old(self).next_sequence_number + 1
                &&& final(self).keep_alive_counter == 0
                &&& final(self).lifetime_counter == 0
                &&& final(self).state == SubscriptionState::Normal
            }),
            old(self).state != SubscriptionState::Closed && old(self).pending@.len() > 0 && request_queued
                && old(self).next_sequence_number == u32::MAX ==> r == PublishAction::Closed && final(self).state
                == SubscriptionState::Closed,
            old(self).state != SubscriptionState::Closed && !request_queued ==> ({
                let lc = saturating_inc(old(self).lifetime_counter);
                &&& final(self).lifetime_counter == lc
                &&& final(self).pending@ == old(self).pending@
                &&& final(self).retransmission_queue@ == old(self).retransmission_queue@
                &&& if lc >= old(self).lifetime_count {
                    r == PublishAction::Closed && final(self).state == SubscriptionState::Closed
                } else {
                    r == PublishAction::Wait && final(self).state == (if old(self).pending@.len() > 0 {
                        SubscriptionState::Late
                    } else {
                        old(self).state
                    })
                }
            }),
            old(self).state != SubscriptionState::Closed && old(self).pending@.len() == 0 && request_queued
                ==> idle_interval_with_request(*old(self), *final(self), r),
            old(self).state != SubscriptionState::Closed && old(self).pending@.len() == 0 && !request_queued
                ==> final(self).keep_alive_counter == saturating_inc(old(self).keep_alive_counter),
    {
        if self.state == SubscriptionState::Closed {
            return PublishAction::Wait;
        }
        if !request_queued {
            self.lifetime_counter = inc(self.lifetime_counter);
            if self.pending.len() == 0 {
                self.keep_alive_counter = inc(self.keep_alive_counter);
            }
            if self.lifetime_counter >= self.lifetime_count {
                self.state = SubscriptionState::Closed;
                return PublishAction::Closed;
            }
            if self.pending.len() > 0 {
                self.state = SubscriptionState::Late;
            }
            return PublishAction::Wait;
        }
        self.lifetime_counter = 0;
        if self.pending.len() == 0 {
            let kc = inc(self.keep_alive_counter);
            if kc >= self.max_keep_alive_count {
                self.keep_alive_counter = 0;
                self.state = SubscriptionState::KeepAlive;
                return PublishAction::KeepAlive(self.next_sequence_number);
            }
            self.keep_alive_counter = kc;
            return PublishAction::Wait;
        }
        if self.next_sequence_number == u32::MAX {
            self.state = SubscriptionState::Closed;
            return PublishAction::Closed;
        }
        let n = self.pending.len();
        let k: usize = if self.max_notifications_per_publish == 0 || self.max_notifications_per_publish as usize
            >= n {
            n
        } else {
            self.max_notifications_per_publish as usize
        };
        let mut notifications = self.pending.split_off(k);
        core::mem::swap(&mut notifications, &mut self.pending);
        let message = NotificationMessage { sequence_number: self.next_sequence_number, notifications };
        let copy = NotificationMessage {
            sequence_number: message.sequence_number,
            notifications: copy_values(&message.notifications),
        };
        let ghost q = self.retransmission_queue@;
        self.retransmission_queue.push(copy);
        assert(self.retransmission_queue@.drop_last() =~= q);
        self.next_sequence_number = self.next_sequence_number + 1;
        self.keep_alive_counter = 0;
        self.state = SubscriptionState::Normal;
        PublishAction::Publish(message)
    }

    /// A copy of the unacknowledged message numbered `sequence_number`;
    /// `BadMessageNotAvailable` if it is not in the retransmission queue.
    pub fn republish(&self, sequence_number: u32) -> (r: Result<NotificationMessage, StatusCode>)
        requires
            self.wf(),
        ensures
            !self.holds_sequence_number(sequence_number) ==> r == Err::<NotificationMessage, StatusCode>(
                StatusCode::BadMessageNotAvailable,
            ),
            self.holds_sequence_number(sequence_number) ==> (r matches Ok(m) && exists|i: int|
                0 <= i < self.retransmission_queue@.len() && #[trigger] self.retransmission_queue@[i].sequence_number
                    == sequence_number && same_message(m, self.retransmission_queue@[i])),
    {
        let mut i: usize = 0;
        while i < self.retransmission_queue.len()
            invariant
                i <= self.retransmission_queue@.len(),
                forall|j: int| 0 <= j < i ==> #[trigger] self.retransmission_queue@[j].sequence_number != sequence_number,
            decreases self.retransmission_queue@.len() - i,
        {
            let m = &self.retransmission_queue[i];
            if m.sequence_number == sequence_number {
                let copy = NotificationMessage { sequence_number, notifications: copy_values(&m.notifications) };
                assert(same_message(copy, self.retransmission_queue@[i as int]));
                return Ok(copy);
            }
            i = i + 1;
        }
        Err(StatusCode::BadMessageNotAvailable)
    }

    /// Removes the message numbered `sequence_number` from the
    /// retransmission queue; `BadSequenceNumberUnknown` if it is not there.
    pub fn acknowledge(&mut self, sequence_number: u32) -> (r: StatusCode)
        requires
            old(self).wf(),
        ensures
            final(self).wf(),
            final(self).next_sequence_number == old(self).next_sequence_number,
            old(self).holds_sequence_number(sequence_number) ==> r == StatusCode::Good,
            !old(self).holds_sequence_number(sequence_number) ==> r == StatusCode::BadSequenceNumberUnknown
                && final(self).retransmission_queue@ == old(self).retransmission_queue@,
            !final(self).holds_sequence_number(sequence_number),
            forall|n: u32|
                n != sequence_number ==> (#[trigger] final(self).holds_sequence_number(n) == old(
                    self,
                ).holds_sequence_number(n)),
    {
        let mut i: usize = 0;
        while i < self.retransmission_queue.len()
            invariant
                self.wf(),
                *self == *old(self),
                i <= self.retransmission_queue@.len(),
                forall|j: int| 0 <= j < i ==> #[trigger] self.retransmission_queue@[j].sequence_number != sequence_number,
            decreases self.retransmission_queue@.len() - i,
        {
            if self.retransmission_queue[i].sequence_number == sequence_number {
                let ghost q = self.retransmission_queue@;
                let _ = self.retransmission_queue.remove(i);
                proof {
                    assert(self.retransmission_queue@ =~= q.remove(i as int));
                    assert forall|n: u32| n != sequence_number implies (#[trigger] self.holds_sequence_number(n)
                        == old(self).holds_sequence_number(n)) by {
                        if old(self).holds_sequence_number(n) {
                            let j = choose|j: int| 0 <= j < q.len() && #[trigger] q[j].sequence_number == n;
                            if j < i {
                                assert(self.retransmission_queue@[j].sequence_number == n);
                            } else {
                                assert(self.retransmission_queue@[j - 1].sequence_number == n);
                            }
                        }
                        if self.holds_sequence_number(n) {
                            let j = choose|j: int|
                                0 <= j < self.retransmission_queue@.len()
                                    && #[trigger] self.retransmission_queue@[j].sequence_number == n;
                            if j < i {
                                assert(q[j].sequence_number == n);
                            } else {
                                assert(q[j + 1].sequence_number == n);
                            }
                        }
                    }
                    if self.holds_sequence_number(sequence_number) {
                        let j = choose|j: int|
                            0 <= j < self.retransmission_queue@.len()
                                && #[trigger] self.retransmission_queue@[j].sequence_number == sequence_number;
                        if j < i {
                            assert(q[j].sequence_number == sequence_number);
                        } else {
                            assert(q[j + 1].sequence_number == sequence_number);
                            assert(q[i as int].sequence_number < q[j + 1].sequence_number);
                        }
                    }
                }
                return StatusCode::Good;
            }
            i = i + 1;
        }
        StatusCode::BadSequenceNumberUnknown
    }
}

/// In a well-formed subscription each sequence number appears at most once
/// in the retransmission queue.
pub proof fn lemma_retransmission_unique(s: &Subscription, i: int, j: int)
    requires
        s.wf(),
        0 <= i < s.retransmission_queue@.len(),
        0 <= j < s.retransmission_queue@.len(),
        s.retransmission_queue@[i].sequence_number == s.retransmission_queue@[j].sequence_number,
    ensures
        i == j,
{
    if i < j {
        assert(s.retransmission_queue@[i].sequence_number < s.retransmission_queue@[j].sequence_number);
    } else if j < i {
        assert(s.retransmission_queue@[j].sequence_number < s.retransmission_queue@[i].sequence_number);
    }
}

/// Copies of each data value.
pub fn copy_values(v: &Vec<DataValue>) -> (r: Vec<DataValue>)
    ensures
        r@.len() == v@.len(),
        forall|i: int| 0 <= i < v@.len() ==> (#[trigger] r@[i])@ == v@[i]@,
{
    let mut out: Vec<DataValue> = Vec::new();
    let mut i: usize = 0;
    while i < v.len()
        invariant
            i <= v@.len(),
            out@.len() == i,
            forall|j: int| 0 <= j < i ==> (#[trigger] out@[j])@ == v@[j]@,
        decreases v@.len() - i,
    {
        out.push(v[i].duplicate());
        i = i + 1;
    }
    out
}

} // verus!
