//! The relay that fans sample blocks out to the peers that subscribed.
//!
//! The relay owns the set of subscribers. Each round of its loop takes in at
//! most one new connection and at most one block. A block is written to
//! every subscriber, each on its own; a subscriber whose write failed is
//! dropped for good, and the others do not notice. Without a block the loop
//! sleeps for a short fixed interval.

use crate::error::Error;
use vstd::prelude::*;

verus! {

/// The port that the relay listens on.
pub const PORT: u16 = 42795;

/// How long a round without a block sleeps, in milliseconds.
pub const POLL_INTERVAL_MILLIS: u64 = 5;

/// How many blocks the channel from the audio thread to the relay holds. A
/// producer that finds it full waits until the relay has taken the block.
pub const CHANNEL_CAPACITY: usize = 1;

/// Whether a subscriber is not among those whose write failed.
pub open spec fn delivered(failed: Seq<u64>) -> spec_fn(u64) -> bool {
    |id: u64| !failed.contains(id)
}

/// Whether `first` occurs before `second` in `subscribers`.
pub open spec fn precedes(subscribers: Seq<u64>, first: u64, second: u64) -> bool {
    exists|a: int, b: int|
        #![trigger subscribers[a], subscribers[b]]
        0 <= a < b < subscribers.len() && subscribers[a] == first && subscribers[b] == second
}

/// What happens to a relay in one round, as a value.
pub enum RelayEvent {
    /// A connection was accepted.
    Accepted,
    /// A block was written to every subscriber, and the writes to the
    /// subscribers in `failed` failed.
    Relayed { failed: Seq<u64> },
}

/// What a relay is, as a value: its subscribers in the order in which they
/// were accepted, the identifier that the next one gets, and whether it was
/// asked to shut down.
pub struct RelayModel {
    pub subscribers: Seq<u64>,
    pub next_id: nat,
    pub closing: bool,
}

impl RelayModel {
    /// No subscriber occurs twice, and each identifier was handed out
    /// before.
    pub open spec fn wf(self) -> bool {
        &&& forall|i: int| 0 <= i < self.subscribers.len() ==> self.subscribers[i] < self.next_id
        &&& self.subscribers.no_duplicates()
    }

    /// The relay after it accepted a connection: the new subscriber comes
    /// last and has a fresh identifier. Once every identifier has been
    /// handed out the relay stays as it is.
    pub open spec fn accepted(self) -> RelayModel {
        if self.next_id < u64::MAX {
            RelayModel {
                subscribers: self.subscribers.push(self.next_id as u64),
                next_id: self.next_id + 1,
                closing: self.closing,
            }
        } else {
            self
        }
    }

    /// The relay after a block was written: the subscribers whose write
    /// failed are gone, the others are left in their order.
    pub open spec fn settled(self, failed: Seq<u64>) -> RelayModel {
        RelayModel { subscribers: self.subscribers.filter(delivered(failed)), ..self }
    }

    /// The relay after it closed every connection: nobody is subscribed.
    pub open spec fn closed(self) -> RelayModel {
        RelayModel { subscribers: Seq::empty(), ..self }
    }

    /// The relay after a round of its loop in which a connection was
    /// accepted or not: a relay that was asked to shut down closes every
    /// connection, any other takes the new one in.
    pub open spec fn after_round(self, connected: bool) -> RelayModel {
        if self.closing {
            self.closed()
        } else if connected {
            self.accepted()
        } else {
            self
        }
    }

    /// The identifier that a round gives to the connection it took in, if it
    /// took one in.
    pub open spec fn admitted(self, connected: bool) -> Option<u64> {
        if !self.closing && connected && self.next_id < u64::MAX {
            Some(self.next_id as u64)
        } else {
            None
        }
    }

    /// The relay after an event.
    pub open spec fn after(self, event: RelayEvent) -> RelayModel {
        match event {
            RelayEvent::Accepted => self.accepted(),
            RelayEvent::Relayed { failed } => self.settled(failed),
        }
    }

    /// The relay after a sequence of events.
    pub open spec fn after_all(self, events: Seq<RelayEvent>) -> RelayModel
        decreases events.len(),
    {
        if events.len() == 0 {
            self
        } else {
            self.after_all(events.drop_last()).after(events.last())
        }
    }
}

/// What a round of the relay's loop does once it has looked for a block.
pub enum Dispatch {
    /// Write `block` to each of `subscribers`, then settle.
    Broadcast { block: Vec<u8>, subscribers: Vec<u64> },
    /// There is no block: sleep for `millis` milliseconds.
    Sleep { millis: u64 },
    /// The relay was asked to shut down: close the connection of each of
    /// `subscribers`, stop listening, and end the loop.
    Close { subscribers: Vec<u64> },
}

/// The relay's set of subscribers.
pub struct NetworkRelay {
    subscribers: Vec<u64>,
    next_id: u64,
    closing: bool,
}

impl View for NetworkRelay {
    type V = RelayModel;

    closed spec fn view(&self) -> RelayModel {
        RelayModel {
            subscribers: self.subscribers@,
            next_id: self.next_id as nat,
            closing: self.closing,
        }
    }
}

impl NetworkRelay {
    /// The relay is as its constructor and its methods leave it.
    pub closed spec fn inv(&self) -> bool {
        self@.wf()
    }

    /// A relay without subscribers, if the listening port could be bound.
    pub fn new(bound: bool) -> (relay: Result<NetworkRelay, Error>)
        ensures
            bound ==> relay is Ok && relay->Ok_0.inv() && relay->Ok_0@ == (RelayModel {
                subscribers: Seq::empty(),
                next_id: 0,
                closing: false,
            }),
            !bound ==> relay is Err && relay->Err_0 == Error::BindFailed,
    {
        if bound {
            Ok(NetworkRelay { subscribers: Vec::new(), next_id: 0, closing: false })
        } else {
            Err(Error::BindFailed)
        }
    }

    /// The subscribers, in the order in which they were accepted.
    pub fn subscribers(&self) -> (subscribers: &Vec<u64>)
        ensures
            subscribers@ == self@.subscribers,
    {
        &self.subscribers
    }

    /// Takes in a connection that was accepted, and gives the identifier of
    /// the new subscriber. Once every identifier has been handed out the
    /// connection is turned away, and the relay stays as it is.
    pub fn accept(&mut self) -> (id: Option<u64>)
        requires
            old(self).inv(),
        ensures
            final(self).inv(),
            final(self)@ == old(self)@.accepted(),
            id == (if old(self)@.next_id < u64::MAX {
                Some(old(self)@.next_id as u64)
            } else {
                None
            }),
    {
        if self.next_id == u64::MAX {
            return None;
        }
        let id: u64 = self.next_id;
        self.subscribers.push(id);
        self.next_id = id + 1;
        proof {
            lemma_accept_keeps_wf(old(self)@);
        }
        Some(id)
    }

    /// Says what to do with what the poll for a block gave: a block goes to
    /// every subscriber, byte for byte; without one the round sleeps.
    pub fn dispatch(&self, block: Option<Vec<u8>>) -> (dispatch: Dispatch)
        ensures
            match block {
                Some(pending) => dispatch matches Dispatch::Broadcast { block, subscribers }
                    && block@ == pending@ && subscribers@ == self@.subscribers,
                None => dispatch matches Dispatch::Sleep { millis } && millis
                    == POLL_INTERVAL_MILLIS,
            },
    {
        match block {
            Some(pending) => {
                let mut subscribers: Vec<u64> = Vec::with_capacity(self.subscribers.len());
                let mut i: usize = 0;
                while i < self.subscribers.len()
                    invariant
                        i <= self.subscribers@.len(),
                        subscribers@ == self.subscribers@.subrange(0, i as int),
                    decreases self.subscribers@.len() - i,
                {
                    subscribers.push(self.subscribers[i]);
                    i = i + 1;
                }
                Dispatch::Broadcast { block: pending, subscribers }
            },
            None => Dispatch::Sleep { millis: POLL_INTERVAL_MILLIS },
        }
    }

    /// Asks the relay to shut down. It does so at its next round.
    pub fn request_shutdown(&mut self)
        requires
            old(self).inv(),
        ensures
            final(self).inv(),
            final(self)@ == (RelayModel { closing: true, ..old(self)@ }),
    {
        self.closing = true;
    }

    /// One round of the relay's loop, from what its two polls gave: whether
    /// a connection was accepted, and the block that was pending, if any. The
    /// connection is taken in first, so a block of the same round goes to
    /// the new subscriber too. A relay that was asked to shut down takes
    /// nothing in and sends nothing out: it gives up all its subscribers.
    pub fn round(&mut self, connected: bool, pending: Option<Vec<u8>>) -> (outcome: (
        Option<u64>,
        Dispatch,
    ))
        requires
            old(self).inv(),
        ensures
            final(self).inv(),
            final(self)@ == old(self)@.after_round(connected),
            outcome.0 == old(self)@.admitted(connected),
            match outcome.1 {
                Dispatch::Close { subscribers } => {
                    &&& old(self)@.closing
                    &&& subscribers@ == old(self)@.subscribers
                },
                Dispatch::Broadcast { block, subscribers } => {
                    &&& !old(self)@.closing
                    &&& pending is Some
                    &&& block@ == pending->Some_0@
                    &&& subscribers@ == final(self)@.subscribers
                },
                Dispatch::Sleep { millis } => {
                    &&& !old(self)@.closing
                    &&& pending is None
                    &&& millis == POLL_INTERVAL_MILLIS
                },
            },
    {
        if self.closing {
            let mut subscribers: Vec<u64> = Vec::new();
            std::mem::swap(&mut subscribers, &mut self.subscribers);
            return (None, Dispatch::Close { subscribers });
        }
        let id: Option<u64> = if connected {
            self.accept()
        } else {
            None
        };
        (id, self.dispatch(pending))
    }

    /// Drops the subscribers whose write failed. The others stay, in their
    /// order.
    pub fn settle(&mut self, failed: &Vec<u64>)
        requires
            old(self).inv(),
        ensures
            final(self).inv(),
            final(self)@ == old(self)@.settled(failed@),
    {
        let mut kept: Vec<u64> = Vec::with_capacity(self.subscribers.len());
        let mut i: usize = 0;
        while i < self.subscribers.len()
            invariant
                i <= self.subscribers@.len(),
                kept@ == self.subscribers@.subrange(0, i as int).filter(delivered(failed@)),
            decreases self.subscribers@.len() - i,
        {
            let id: u64 = self.subscribers[i];
            let dropped: bool = contains(failed, id);
            proof {
                let before: Seq<u64> = self.subscribers@.subrange(0, i as int);
                let upto: Seq<u64> = self.subscribers@.subrange(0, i + 1);
                assert(upto.drop_last() == before);
                assert(upto.last() == id);
                reveal(Seq::filter);
            }
            if !dropped {
                kept.push(id);
            }
            i = i + 1;
        }
        proof {
            assert(self.subscribers@.subrange(0, i as int) == self.subscribers@);
            lemma_settle_keeps_wf(self@, failed@);
        }
        self.subscribers = kept;
    }
}

/// Whether `id` occurs in `ids`.
fn contains(ids: &Vec<u64>, id: u64) -> (found: bool)
    ensures
        found == ids@.contains(id),
{
    let mut i: usize = 0;
    while i < ids.len()
        invariant
            i <= ids@.len(),
            forall|j: int| 0 <= j < i ==> ids@[j] != id,
        decreases ids@.len() - i,
    {
        if ids[i] == id {
            return true;
        }
        i = i + 1;
    }
    false
}

/// Accepting a connection keeps the relay well formed, and the identifier
/// that it hands out is not in use.
pub proof fn lemma_accept_keeps_wf(relay: RelayModel)
    requires
        relay.wf(),
    ensures
        relay.accepted().wf(),
        relay.next_id < u64::MAX ==> !relay.subscribers.contains(relay.next_id as u64),
{
    if relay.next_id < u64::MAX {
        let id: u64 = relay.next_id as u64;
        assert(!relay.subscribers.contains(id));
        let after: Seq<u64> = relay.subscribers.push(id);
        assert forall|i: int, j: int|
            0 <= i < after.len() && 0 <= j < after.len() && i != j implies after[i]
            != after[j] by {
            if i < relay.subscribers.len() && j < relay.subscribers.len() {
                assert(relay.subscribers[i] != relay.subscribers[j]);
            }
        }
    }
}

/// What settling does to the subscribers: each one that is left was there
/// before and its write did not fail, each one whose write did not fail is
/// left, none whose write failed is left, and those that are left keep their
/// order.
pub proof fn lemma_settled_subscribers(relay: RelayModel, failed: Seq<u64>)
    ensures
        forall|id: u64| #[trigger]
            relay.settled(failed).subscribers.contains(id) <==> relay.subscribers.contains(id)
                && !failed.contains(id),
        relay.settled(failed).subscribers.len() <= relay.subscribers.len(),
        relay.subscribers.no_duplicates() ==> relay.settled(failed).subscribers.no_duplicates(),
        forall|i: int, j: int|
            0 <= i < j < relay.settled(failed).subscribers.len() ==> #[trigger] precedes(
                relay.subscribers,
                relay.settled(failed).subscribers[i],
                relay.settled(failed).subscribers[j],
            ),
    decreases relay.subscribers.len(),
{
    reveal(Seq::filter);
    let subs: Seq<u64> = relay.subscribers;
    let kept: Seq<u64> = relay.settled(failed).subscribers;
    if subs.len() == 0 {
        assert forall|id: u64| #[trigger] kept.contains(id) <==> subs.contains(id)
            && !failed.contains(id) by {}
    } else {
        let shorter = RelayModel { subscribers: subs.drop_last(), ..relay };
        lemma_settled_subscribers(shorter, failed);
        let rest: Seq<u64> = shorter.settled(failed).subscribers;
        let last: u64 = subs.last();
        assert(kept == if delivered(failed)(last) {
            rest.push(last)
        } else {
            rest
        });
        assert forall|id: u64| #[trigger] kept.contains(id) <==> subs.contains(id)
            && !failed.contains(id) by {
            if kept.contains(id) {
                let k: int = choose|k: int| 0 <= k < kept.len() && kept[k] == id;
                if k < rest.len() {
                    assert(rest.contains(id));
                    let a: int = choose|a: int|
                        0 <= a < subs.drop_last().len() && subs.drop_last()[a] == id;
                    assert(subs[a] == id);
                } else {
                    assert(id == last);
                    assert(subs[subs.len() - 1] == id);
                }
            }
            if subs.contains(id) && !failed.contains(id) {
                let a: int = choose|a: int| 0 <= a < subs.len() && subs[a] == id;
                if a < subs.len() - 1 {
                    assert(subs.drop_last()[a] == id);
                    assert(rest.contains(id));
                    let k: int = choose|k: int| 0 <= k < rest.len() && rest[k] == id;
                    assert(kept[k] == id);
                } else {
                    assert(kept[kept.len() - 1] == id);
                }
            }
        }
        if subs.no_duplicates() {
            assert(subs.drop_last().no_duplicates());
            if delivered(failed)(last) {
                assert(!rest.contains(last)) by {
                    if rest.contains(last) {
                        let a: int = choose|a: int|
                            0 <= a < subs.drop_last().len() && subs.drop_last()[a] == last;
                        assert(subs[a] == subs[subs.len() - 1]);
                    }
                }
                assert forall|i: int, j: int|
                    0 <= i < kept.len() && 0 <= j < kept.len() && i != j implies kept[i]
                    != kept[j] by {
                    if i < rest.len() && j < rest.len() {
                        assert(rest[i] != rest[j]);
                    } else if i < rest.len() {
                        assert(rest.contains(rest[i]));
                    } else {
                        assert(rest.contains(rest[j]));
                    }
                }
            }
        }
        assert forall|i: int, j: int| 0 <= i < j < kept.len() implies #[trigger] precedes(
            subs,
            kept[i],
            kept[j],
        ) by {
            if j < rest.len() {
                assert(precedes(subs.drop_last(), rest[i], rest[j]));
                let (a, b) = choose|a: int, b: int|
                    #![trigger subs.drop_last()[a], subs.drop_last()[b]]
                    0 <= a < b < subs.drop_last().len() && subs.drop_last()[a] == rest[i]
                        && subs.drop_last()[b] == rest[j];
                assert(subs[a] == kept[i] && subs[b] == kept[j]);
            } else {
                assert(rest.contains(rest[i]));
                let a: int = choose|a: int|
                    0 <= a < subs.drop_last().len() && subs.drop_last()[a] == rest[i];
                let b: int = subs.len() - 1;
                assert(subs[a] == kept[i] && subs[b] == kept[j]);
            }
        }
    }
}

/// Settling keeps the relay well formed.
pub proof fn lemma_settle_keeps_wf(relay: RelayModel, failed: Seq<u64>)
    requires
        relay.wf(),
    ensures
        relay.settled(failed).wf(),
{
    lemma_settled_subscribers(relay, failed);
    let kept: Seq<u64> = relay.settled(failed).subscribers;
    assert forall|i: int| 0 <= i < kept.len() implies kept[i] < relay.next_id by {
        assert(kept.contains(kept[i]));
        let a: int = choose|a: int| 0 <= a < relay.subscribers.len() && relay.subscribers[a] == kept[i];
    }
}

/// A relay without subscribers takes any number of blocks and stays as it
/// is: there is nobody to write to, and nothing that could fail.
pub proof fn lemma_relay_without_subscribers(relay: RelayModel, rounds: Seq<RelayEvent>)
    requires
        relay.subscribers.len() == 0,
        forall|i: int| 0 <= i < rounds.len() ==> rounds[i] is Relayed,
    ensures
        relay.after_all(rounds) == relay,
    decreases rounds.len(),
{
    if rounds.len() > 0 {
        lemma_relay_without_subscribers(relay, rounds.drop_last());
        reveal(Seq::filter);
        assert(relay.subscribers.filter(delivered(rounds.last()->failed)) == relay.subscribers);
    }
}

/// A subscriber whose write failed is gone after that one block, whoever
/// else failed with it; a subscriber whose write did not fail is still there.
pub proof fn lemma_failed_subscriber_is_dropped(relay: RelayModel, failed: Seq<u64>, id: u64)
    ensures
        failed.contains(id) ==> !relay.settled(failed).subscribers.contains(id),
        relay.subscribers.contains(id) && !failed.contains(id) ==> relay.settled(
            failed,
        ).subscribers.contains(id),
{
    lemma_settled_subscribers(relay, failed);
}

/// A subscriber that is gone never comes back: whatever connections are
/// accepted and whatever blocks are relayed afterwards, its identifier is not
/// among the subscribers again, so it is written to no more.
pub proof fn lemma_dropped_subscriber_never_returns(
    relay: RelayModel,
    id: u64,
    events: Seq<RelayEvent>,
)
    requires
        relay.wf(),
        id < relay.next_id,
        !relay.subscribers.contains(id),
    ensures
        relay.after_all(events).wf(),
        relay.next_id <= relay.after_all(events).next_id,
        !relay.after_all(events).subscribers.contains(id),
    decreases events.len(),
{
    if events.len() > 0 {
        lemma_dropped_subscriber_never_returns(relay, id, events.drop_last());
        let before: RelayModel = relay.after_all(events.drop_last());
        match events.last() {
            RelayEvent::Accepted => {
                lemma_accept_keeps_wf(before);
                if before.next_id < u64::MAX {
                    let after: Seq<u64> = before.accepted().subscribers;
                    if after.contains(id) {
                        let k: int = choose|k: int| 0 <= k < after.len() && after[k] == id;
                        if k < before.subscribers.len() {
                            assert(before.subscribers[k] == id);
                        }
                    }
                }
            },
            RelayEvent::Relayed { failed } => {
                lemma_settle_keeps_wf(before, failed);
                lemma_settled_subscribers(before, failed);
            },
        }
    }
}

} // verus!
