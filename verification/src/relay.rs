//! The relay: the registry and the bus under one roof.

use vstd::prelude::*;
use crate::bus::{Bus, Subscription, CAPACITY};
use crate::envelope::{Msg, MsgData, MsgDataView, MsgView};
use crate::index::names;
use crate::registry::{departed, left_rooms, lemma_left_every_room, lemma_left_none, lemma_left_one_more, lemma_replay_one_more, Registry, RegistryView};

verus! {

/// The rooms among the first `upto` of a list.
spec fn rooms_before(rooms: Seq<Seq<char>>, upto: int) -> Set<Seq<char>> {
    Set::new(|room: Seq<char>| exists|j: int| 0 <= j < upto && #[trigger] rooms[j] == room)
}

/// `after` is `before` with one leave of `username` behind it for each of
/// `rooms`, in their order.
pub open spec fn announces(before: Seq<MsgView>, after: Seq<MsgView>, username: Seq<char>, rooms: Seq<Seq<char>>) -> bool {
    &&& after.len() == before.len() + rooms.len()
    &&& after.take(before.len() as int) =~= before
    &&& forall|j: int|
        before.len() <= j < after.len() ==> {
            let msg = #[trigger] after[j];
            &&& msg.room == rooms[j - before.len()]
            &&& msg.username == username
            &&& msg.data == MsgDataView::Leave
        }
}

/// The state that all sessions share: who is where, and the bus that carries
/// the envelopes.
pub struct ChatState {
    registry: Registry,
    bus: Bus,
}

impl View for ChatState {
    type V = RegistryView;

    closed spec fn view(&self) -> RegistryView {
        self.registry@
    }
}

impl Default for ChatState {
    /// `ChatState::new`.
    fn default() -> (state: ChatState)
        ensures
            state@ == RegistryView::empty(),
            state@.wf(),
            state.published() == Seq::<MsgView>::empty(),
            state.carrier().carried() == Seq::<MsgView>::empty(),
            state.carrier().room() == CAPACITY,
            state.in_step(),
    {
        ChatState::new()
    }
}

impl ChatState {
    /// The bus of the relay.
    pub closed spec fn carrier(&self) -> Bus {
        self.bus
    }

    /// The envelopes that the relay has put on its bus, first to last.
    pub open spec fn published(&self) -> Seq<MsgView> {
        self.carrier().published()
    }

    /// The bus of the relay, to look at through a subscription.
    pub fn bus(&self) -> (bus: &Bus)
        ensures
            *bus == self.carrier(),
    {
        &self.bus
    }

    /// The registry is what the published envelopes add up to: whoever has
    /// seen every envelope from the start knows who is where.
    pub open spec fn in_step(&self) -> bool {
        self@ == RegistryView::empty().replay(self.published())
    }

    /// A relay with nobody in any room, nobody subscribed and nothing
    /// published.
    pub fn new() -> (state: ChatState)
        ensures
            state@ == RegistryView::empty(),
            state@.wf(),
            state.published() == Seq::<MsgView>::empty(),
            state.carrier().carried() == Seq::<MsgView>::empty(),
            state.carrier().room() == CAPACITY,
            state.in_step(),
    {
        ChatState { registry: Registry::new(), bus: Bus::new() }
    }

    /// A copy of the rooms that `username` is in, each once, in no fixed order.
    pub fn get_user_rooms(&self, username: &str) -> (rooms: Vec<String>)
        ensures
            names(rooms@).no_duplicates(),
            names(rooms@).to_set() == self@.rooms_of(username@),
            self@.wf(),
    {
        self.registry.rooms_of(username)
    }

    /// A copy of the users that are in `room`, each once, in no fixed order.
    pub fn get_room_users(&self, room: &str) -> (users: Vec<String>)
        ensures
            names(users@).no_duplicates(),
            names(users@).to_set() == self@.users_of(room@),
            self@.wf(),
    {
        self.registry.users_of(room)
    }

    /// A new place on the bus, for a session that starts now. It stands
    /// behind everything that the bus has carried so far: it will find every
    /// envelope that the bus takes in after this call, and none that was
    /// published before.
    pub fn subscribe(&self) -> (subscription: Subscription)
        ensures
            subscription.listens_to(&self.carrier()),
            self.carrier().carried().len() <= u64::MAX ==> subscription.position()
                == self.carrier().carried().len(),
    {
        self.bus.subscribe()
    }

    /// Takes in one envelope from a client: a join or a leave is recorded in
    /// the registry first, and then the envelope, whatever it carries, goes
    /// out on the bus to every subscriber. Returns how many subscribers there
    /// were.
    pub fn handle_message(&mut self, msg: Msg) -> (reached: usize)
        ensures
            final(self)@ == old(self)@.absorb(msg@),
            final(self)@.wf(),
            final(self).published() == old(self).published().push(msg@),
            final(self).carrier().carried() == if reached == 0 {
                old(self).carrier().carried()
            } else {
                old(self).carrier().carried().push(msg@)
            },
            final(self).carrier().continues(&old(self).carrier()),
            old(self).in_step() ==> final(self).in_step(),
    {
        proof {
            lemma_replay_one_more(RegistryView::empty(), self.published(), msg@);
        }
        match &msg.data {
            MsgData::Join => {
                self.registry.join(msg.username.as_str(), msg.room.as_str());
            },
            MsgData::Leave => {
                self.registry.leave(msg.username.as_str(), msg.room.as_str());
            },
            MsgData::Message(_) => {
                proof {
                    use_type_invariant(&self.registry);
                }
            },
        }
        self.bus.publish(msg)
    }

    /// Clears up after a session that has ended: `username` leaves every room
    /// it is in, and for each of them a leave of that user goes out on the
    /// bus. Returns those rooms, in the order of the leaves.
    pub fn disconnect(&mut self, username: &str) -> (rooms: Vec<String>)
        ensures
            departed(old(self)@, final(self)@, username@),
            final(self)@.wf(),
            names(rooms@).no_duplicates(),
            names(rooms@).to_set() == old(self)@.rooms_of(username@),
            announces(old(self).published(), final(self).published(), username@, names(rooms@)),
            final(self).carrier().continues(&old(self).carrier()),
            old(self).in_step() ==> final(self).in_step(),
    {
        let rooms = self.registry.rooms_of(username);
        let ghost before = self@;
        let ghost sent = self.published();
        let ghost listed = names(rooms@);
        proof {
            lemma_left_none(before, username@);
            assert(rooms_before(listed, 0) =~= Set::empty());
        }
        let mut i: usize = 0;
        while i < rooms.len()
            invariant
                i <= rooms.len(),
                listed == names(rooms@),
                self@.wf(),
                left_rooms(before, self@, username@, rooms_before(listed, i as int)),
                announces(sent, self.published(), username@, listed.take(i as int)),
                old(self).in_step() ==> self.in_step(),
                self.carrier().continues(&old(self).carrier()),
            decreases rooms.len() - i,
        {
            let room = rooms[i].as_str();
            proof {
                lemma_left_one_more(before, self@, username@, rooms_before(listed, i as int), room@);
                assert(listed[i as int] == room@);
                assert(rooms_before(listed, i + 1) =~= rooms_before(listed, i as int).insert(room@));
            }
            self.registry.leave(username, room);
            let ghost so_far = self.published();
            let leave = Msg::leave(room, username);
            let ghost middle = self.carrier();
            proof {
                lemma_replay_one_more(RegistryView::empty(), so_far, leave@);
            }
            self.bus.publish(leave);
            proof {
                self.carrier().lemma_continues_on(&middle, &old(self).carrier());
                let now = self.published();
                assert(now.take(sent.len() as int) =~= so_far.take(sent.len() as int));
                assert forall|j: int| sent.len() <= j < now.len() implies {
                    let msg = #[trigger] now[j];
                    &&& msg.room == listed.take(i + 1)[j - sent.len()]
                    &&& msg.username == username@
                    &&& msg.data == MsgDataView::Leave
                } by {
                    if j < so_far.len() {
                        assert(now[j] == so_far[j]);
                    }
                }
            }
            i = i + 1;
        }
        proof {
            assert(rooms_before(listed, i as int) =~= listed.to_set());
            lemma_left_every_room(before, self@, username@, rooms_before(listed, i as int));
            assert(listed.take(i as int) =~= listed);
        }
        rooms
    }
}

} // verus!
