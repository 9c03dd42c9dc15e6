//! The broadcast bus: one channel that hands every published envelope to every
//! session that is subscribed at that moment.
//!
//! The channel is `tokio::sync::broadcast`. Its sender and its receivers share
//! what the channel holds, so a receiver alone cannot say what it will find:
//! that is a matter of the receiver's place and of what the channel has taken
//! in. The contracts here are written over both. They are taken from the
//! channel's documentation and source, and are not proved here. They hold as
//! long as the channel has taken in fewer than 2^64 values, which is as far
//! as its own counters reach.

use vstd::prelude::*;
use std::sync::Arc;
use tokio::sync::broadcast::Receiver;
use tokio::sync::broadcast::Sender;
use tokio::sync::broadcast::error::TryRecvError;
use crate::envelope::{Msg, MsgView};

verus! {

/// How many envelopes the bus keeps for a subscriber that has not read them.
/// One that falls further behind loses the oldest.
pub const CAPACITY: usize = 64;

/// `tokio::sync::broadcast::Sender`, of which nothing is seen here but its
/// name.
#[verifier::external_type_specification]
#[verifier::external_body]
#[verifier::reject_recursive_types(T)]
pub struct ExSender<T>(Sender<T>);

/// `tokio::sync::broadcast::Receiver`, of which nothing is seen here but its
/// name.
#[verifier::external_type_specification]
#[verifier::external_body]
#[verifier::reject_recursive_types(T)]
pub struct ExReceiver<T>(Receiver<T>);

/// What a subscriber finds when it looks at the bus.
#[derive(Debug)]
pub enum Delivery {
    /// The next envelope, shared with every other subscriber.
    Envelope(Arc<Msg>),
    /// The subscriber fell behind and this many envelopes were dropped for it.
    /// It stays subscribed and goes on with the oldest envelope still kept.
    Lagged(u64),
    /// Nothing is waiting.
    Empty,
    /// Nothing is waiting and no publisher is left.
    Closed,
}

/// The values that the channel of a sender has taken in since it was made,
/// first to last. A value that is sent while no receiver is subscribed is not
/// taken in.
pub uninterp spec fn channel_log(tx: Sender<Arc<Msg>>) -> Seq<MsgView>;

/// How many values the channel of a sender keeps for its receivers: the
/// capacity that it was made with, rounded up to a power of two.
pub uninterp spec fn channel_room(tx: Sender<Arc<Msg>>) -> nat;

/// Which channel a sender sends on.
pub uninterp spec fn sender_channel(tx: Sender<Arc<Msg>>) -> int;

/// Which channel a receiver reads from.
pub uninterp spec fn receiver_channel(rx: Receiver<Arc<Msg>>) -> int;

/// The place of a receiver: how many values of its channel's log stand before
/// the one that it reads next.
pub uninterp spec fn receiver_cursor(rx: Receiver<Arc<Msg>>) -> nat;

/// The least power of two that is at least `n`, looked for from `from`
/// upwards by doubling.
pub open spec fn doubled_up(n: nat, from: nat) -> nat
    decreases (if from < n {
        n - from
    } else {
        0
    }),
{
    if from == 0 || from >= n {
        from
    } else {
        doubled_up(n, 2 * from)
    }
}

/// What a receiver at place `cursor` finds in a channel that has taken in
/// `log` and keeps `room` values, and the place `next` at which it stands
/// afterwards. A receiver that has read everything finds nothing. One that is
/// more than `room` values behind learns how many values it has lost, and
/// moves to the oldest value still kept. Any other receiver finds the value at
/// its place and moves past it.
pub open spec fn polled(log: Seq<MsgView>, room: nat, cursor: nat, delivery: Delivery, next: nat) -> bool {
    &&& cursor <= log.len()
    &&& if cursor == log.len() {
        (delivery is Empty || delivery is Closed) && next == cursor
    } else if log.len() - cursor > room {
        delivery == Delivery::Lagged((log.len() - room - cursor) as u64) && next == log.len() - room
    } else {
        delivery matches Delivery::Envelope(msg) && msg@ == log[cursor as int] && next == cursor + 1
    }
}

/// A subscriber that has read everything finds the next envelope that the bus
/// takes in, and nothing else first.
pub proof fn lemma_subscriber_finds_the_next(log: Seq<MsgView>, room: nat, msg: MsgView, delivery: Delivery, next: nat)
    requires
        room >= 1,
        polled(log.push(msg), room, log.len(), delivery, next),
    ensures
        delivery matches Delivery::Envelope(found) && found@ == msg,
        next == log.len() + 1,
{
}

/// Envelopes are found in the order in which the bus took them in: two that
/// are found one after the other stand side by side in its log.
pub proof fn lemma_envelopes_arrive_in_order(
    log: Seq<MsgView>,
    room: nat,
    cursor: nat,
    first: Delivery,
    between: nat,
    second: Delivery,
    next: nat,
)
    requires
        polled(log, room, cursor, first, between),
        polled(log, room, between, second, next),
        first is Envelope,
        second is Envelope,
    ensures
        first matches Delivery::Envelope(found) && found@ == log[cursor as int],
        second matches Delivery::Envelope(found) && found@ == log[cursor as int + 1],
        next == cursor + 2,
{
}

/// A subscriber that is more than the bus's room behind observes a gap: it
/// finds the number of envelopes that it has lost, which is how far it is
/// behind less the room, and then the oldest envelope that is still kept.
pub proof fn lemma_slow_subscriber_observes_a_gap(
    log: Seq<MsgView>,
    room: nat,
    cursor: nat,
    first: Delivery,
    between: nat,
    second: Delivery,
    next: nat,
)
    requires
        room >= 1,
        cursor + room < log.len() <= u64::MAX,
        polled(log, room, cursor, first, between),
        polled(log, room, between, second, next),
    ensures
        first matches Delivery::Lagged(lost) && lost == log.len() - room - cursor,
        second matches Delivery::Envelope(found) && found@ == log[log.len() - room],
{
}

/// `tokio::sync::broadcast::channel`, of which the sending half is kept and
/// the first receiver is dropped: a channel without receivers that has taken
/// in nothing and keeps the capacity rounded up to a power of two. The
/// capacity must be positive and at most half of `usize::MAX`, or the call
/// panics.
#[verifier::external_body]
fn channel_sender(capacity: usize) -> (tx: Sender<Arc<Msg>>)
    requires
        0 < capacity <= usize::MAX / 2,
    ensures
        channel_log(tx).len() == 0,
        channel_room(tx) == doubled_up(capacity as nat, 1),
{
    tokio::sync::broadcast::channel(capacity).0
}

/// `Sender::subscribe`: a receiver on the sender's channel that will read the
/// values sent from now on, so that its place is behind everything that the
/// channel has taken in.
#[verifier::external_body]
fn sender_subscribe(tx: &Sender<Arc<Msg>>) -> (rx: Receiver<Arc<Msg>>)
    ensures
        receiver_channel(rx) == sender_channel(*tx),
        channel_log(*tx).len() <= u64::MAX ==> receiver_cursor(rx) == channel_log(*tx).len(),
{
    tx.subscribe()
}

/// `Sender::send`: with at least one receiver subscribed, the channel takes
/// the value in behind the others and the number of receivers is returned;
/// with none, the value is handed back, `None` is returned and the channel is
/// as it was. The call does not wait for any receiver.
#[verifier::external_body]
fn sender_send(tx: &mut Sender<Arc<Msg>>, msg: Arc<Msg>) -> (subscribed: Option<usize>)
    ensures
        sender_channel(*final(tx)) == sender_channel(*old(tx)),
        channel_room(*final(tx)) == channel_room(*old(tx)),
        match subscribed {
            Some(n) => n >= 1 && channel_log(*final(tx)) == channel_log(*old(tx)).push(msg@),
            None => channel_log(*final(tx)) == channel_log(*old(tx)),
        },
{
    tx.send(msg).ok()
}

/// `Receiver::try_recv`, its outcome told apart. The receiver stays on its
/// channel, and a lag counts at least one dropped value. Where `tx` is the
/// sender of the receiver's channel, the outcome and the receiver's new place
/// are what `polled` says of the channel's log. The sender is not touched: it
/// is named to say whose log that is.
#[verifier::external_body]
fn receiver_poll(tx: &Sender<Arc<Msg>>, rx: &mut Receiver<Arc<Msg>>) -> (delivery: Delivery)
    ensures
        receiver_channel(*final(rx)) == receiver_channel(*old(rx)),
        delivery matches Delivery::Lagged(n) ==> n >= 1,
        receiver_channel(*old(rx)) == sender_channel(*tx) && channel_log(*tx).len() <= u64::MAX
            ==> polled(
            channel_log(*tx),
            channel_room(*tx),
            receiver_cursor(*old(rx)),
            delivery,
            receiver_cursor(*final(rx)),
        ),
{
    let _ = tx;
    match rx.try_recv() {
        Ok(msg) => Delivery::Envelope(msg),
        Err(TryRecvError::Lagged(n)) => Delivery::Lagged(n),
        Err(TryRecvError::Empty) => Delivery::Empty,
        Err(TryRecvError::Closed) => Delivery::Closed,
    }
}

/// The publishing side of the bus. It remembers, for the proofs alone, every
/// envelope that it was asked to publish.
pub struct Bus {
    tx: Sender<Arc<Msg>>,
    handed: Ghost<Seq<MsgView>>,
}

/// One subscriber's place on the bus.
#[derive(Debug)]
pub struct Subscription {
    pub rx: Receiver<Arc<Msg>>,
}

impl Bus {
    /// The envelopes that were handed to the bus for publishing, first to
    /// last, whether or not anybody was subscribed when they came.
    pub closed spec fn published(&self) -> Seq<MsgView> {
        self.handed@
    }

    /// The envelopes that the bus has taken in for its subscribers, first to
    /// last: those that were published while somebody was subscribed.
    pub closed spec fn carried(&self) -> Seq<MsgView> {
        channel_log(self.tx)
    }

    /// How many envelopes the bus keeps for a subscriber that is behind.
    pub closed spec fn room(&self) -> nat {
        channel_room(self.tx)
    }

    /// Which channel the bus publishes on.
    pub closed spec fn channel(&self) -> int {
        sender_channel(self.tx)
    }

    /// The bus is the same bus as `before`, some envelopes later.
    pub open spec fn continues(&self, before: &Bus) -> bool {
        &&& self.channel() == before.channel()
        &&& self.room() == before.room()
        &&& before.published().is_prefix_of(self.published())
        &&& before.carried().is_prefix_of(self.carried())
    }

    /// A bus that continues one that continues a third continues the third.
    pub proof fn lemma_continues_on(&self, middle: &Bus, before: &Bus)
        requires
            self.continues(middle),
            middle.continues(before),
        ensures
            self.continues(before),
    {
        assert(before.published() =~= self.published().subrange(0, before.published().len() as int))
            by {
            assert(before.published() =~= middle.published().subrange(
                0,
                before.published().len() as int,
            ));
            assert(middle.published() =~= self.published().subrange(
                0,
                middle.published().len() as int,
            ));
        }
        assert(before.carried() =~= self.carried().subrange(0, before.carried().len() as int)) by {
            assert(before.carried() =~= middle.carried().subrange(0, before.carried().len() as int));
            assert(middle.carried() =~= self.carried().subrange(0, middle.carried().len() as int));
        }
    }

    /// A bus that nobody is subscribed to yet, that nothing was published on,
    /// and that keeps `CAPACITY` envelopes for a subscriber that is behind.
    pub fn new() -> (bus: Bus)
        ensures
            bus.published() == Seq::<MsgView>::empty(),
            bus.carried() == Seq::<MsgView>::empty(),
            bus.room() == CAPACITY,
    {
        proof {
            reveal_with_fuel(doubled_up, 8);
        }
        Bus { tx: channel_sender(CAPACITY), handed: Ghost(Seq::empty()) }
    }

    /// A new subscriber. It stands behind everything that the bus has carried
    /// so far: it will find every envelope that the bus takes in after this
    /// call, and none that was published before.
    pub fn subscribe(&self) -> (subscription: Subscription)
        ensures
            subscription.listens_to(self),
            self.carried().len() <= u64::MAX ==> subscription.position() == self.carried().len(),
    {
        Subscription { rx: sender_subscribe(&self.tx) }
    }

    /// How many subscribers a send reached, given what the channel answered:
    /// the number it reported, and none when it reported that nobody listens.
    pub fn reached(subscribed: Option<usize>) -> (count: usize)
        ensures
            count == match subscribed {
                Some(n) => n,
                None => 0,
            },
    {
        match subscribed {
            Some(n) => n,
            None => 0,
        }
    }

    /// Hands `msg` to every current subscriber and says how many there were.
    /// With no subscriber this does nothing and returns 0. With one or more,
    /// the bus takes the envelope in behind the others. It never waits: a
    /// subscriber that is too far behind loses its oldest envelopes instead.
    pub fn publish(&mut self, msg: Msg) -> (count: usize)
        ensures
            final(self).published() == old(self).published().push(msg@),
            final(self).carried() == if count == 0 {
                old(self).carried()
            } else {
                old(self).carried().push(msg@)
            },
            final(self).continues(old(self)),
    {
        self.handed = Ghost(self.handed@.push(msg@));
        Bus::reached(sender_send(&mut self.tx, Arc::new(msg)))
    }
}

impl Subscription {
    /// The place of the subscriber: how many of the envelopes that its bus
    /// has carried stand before the one that it finds next.
    pub closed spec fn position(&self) -> nat {
        receiver_cursor(self.rx)
    }

    /// Which channel the subscriber reads from.
    pub closed spec fn channel(&self) -> int {
        receiver_channel(self.rx)
    }

    /// The subscriber is a subscriber of `bus`.
    pub open spec fn listens_to(&self, bus: &Bus) -> bool {
        self.channel() == bus.channel()
    }

    /// Looks for the next envelope without waiting. On its own bus, a
    /// subscriber finds the envelopes that the bus has carried since it
    /// subscribed, one by one in the order of publishing; when it has fallen
    /// more than the bus's room behind, it finds instead the number of
    /// envelopes that it has lost, and goes on with the oldest one still kept.
    pub fn poll(&mut self, bus: &Bus) -> (delivery: Delivery)
        ensures
            final(self).channel() == old(self).channel(),
            delivery matches Delivery::Lagged(n) ==> n >= 1,
            old(self).listens_to(bus) && bus.carried().len() <= u64::MAX ==> polled(
                bus.carried(),
                bus.room(),
                old(self).position(),
                delivery,
                final(self).position(),
            ),
    {
        receiver_poll(&bus.tx, &mut self.rx)
    }
}

} // verus!
