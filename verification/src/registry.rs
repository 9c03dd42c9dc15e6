//! The presence registry: who is in which room, kept in both directions.

use vstd::prelude::*;
use dashmap::DashMap;
use dashmap::DashSet;
use crate::envelope::{MsgDataView, MsgView};
use crate::index::{index_add, index_drop, index_entries, index_members, index_new, index_strike, index_vacant, members_at, names};

verus! {

/// The mathematical value of a registry: the rooms of each user and the users
/// of each room, as two maps of sets.
pub struct RegistryView {
    pub user_rooms: Map<Seq<char>, Set<Seq<char>>>,
    pub room_users: Map<Seq<char>, Set<Seq<char>>>,
}

/// What `member` leaving the set under `key` does to one index: the set loses
/// the member, and a set that becomes empty takes its key with it.
pub open spec fn vacate(entries: Map<Seq<char>, Set<Seq<char>>>, key: Seq<char>, member: Seq<char>) -> Map<Seq<char>, Set<Seq<char>>> {
    if !entries.dom().contains(key) {
        entries
    } else if entries[key].remove(member).is_empty() {
        entries.remove(key)
    } else {
        entries.insert(key, entries[key].remove(member))
    }
}

/// What `member` entering the set under `key` does to one index.
pub open spec fn occupy(entries: Map<Seq<char>, Set<Seq<char>>>, key: Seq<char>, member: Seq<char>) -> Map<Seq<char>, Set<Seq<char>>> {
    entries.insert(key, members_at(entries, key).insert(member))
}

/// No key of the index maps to an empty set.
pub open spec fn compact(entries: Map<Seq<char>, Set<Seq<char>>>) -> bool {
    forall|key: Seq<char>| entries.dom().contains(key) ==> !(#[trigger] entries[key]).is_empty()
}

impl RegistryView {
    /// The registry in which nobody is anywhere.
    pub open spec fn empty() -> RegistryView {
        RegistryView { user_rooms: Map::empty(), room_users: Map::empty() }
    }

    /// The rooms that `username` is in.
    pub open spec fn rooms_of(self, username: Seq<char>) -> Set<Seq<char>> {
        members_at(self.user_rooms, username)
    }

    /// The users that are in `room`.
    pub open spec fn users_of(self, room: Seq<char>) -> Set<Seq<char>> {
        members_at(self.room_users, room)
    }

    /// The two directions agree: a user is among the users of a room exactly
    /// when the room is among the rooms of the user.
    pub open spec fn mirrored(self) -> bool {
        forall|username: Seq<char>, room: Seq<char>|
            #![trigger self.users_of(room).contains(username)]
            #![trigger self.rooms_of(username).contains(room)]
            self.users_of(room).contains(username) <==> self.rooms_of(username).contains(room)
    }

    /// No user and no room is kept with an empty set.
    pub open spec fn no_residue(self) -> bool {
        compact(self.user_rooms) && compact(self.room_users)
    }

    /// The registry's invariant: both directions agree and hold no empty set.
    pub open spec fn wf(self) -> bool {
        self.mirrored() && self.no_residue()
    }

    /// The registry after `username` joins `room`.
    pub open spec fn join(self, username: Seq<char>, room: Seq<char>) -> RegistryView {
        RegistryView {
            user_rooms: occupy(self.user_rooms, username, room),
            room_users: occupy(self.room_users, room, username),
        }
    }

    /// The registry after `username` leaves `room`.
    pub open spec fn leave(self, username: Seq<char>, room: Seq<char>) -> RegistryView {
        RegistryView {
            user_rooms: vacate(self.user_rooms, username, room),
            room_users: vacate(self.room_users, room, username),
        }
    }

    /// The registry after one envelope has passed: a join or a leave of its
    /// sender in its room is recorded, a chat line changes nothing.
    pub open spec fn absorb(self, msg: MsgView) -> RegistryView {
        match msg.data {
            MsgDataView::Join => self.join(msg.username, msg.room),
            MsgDataView::Leave => self.leave(msg.username, msg.room),
            MsgDataView::Message(_) => self,
        }
    }

    /// The registry after a run of envelopes has passed, first to last.
    pub open spec fn replay(self, msgs: Seq<MsgView>) -> RegistryView
        decreases msgs.len(),
    {
        if msgs.len() == 0 {
            self
        } else {
            self.replay(msgs.drop_last()).absorb(msgs.last())
        }
    }
}

/// The empty registry meets the invariant.
pub proof fn lemma_empty_wf()
    ensures
        RegistryView::empty().wf(),
{
}

/// The members under every key after `member` entered the set under `key`.
pub proof fn lemma_occupy_members(entries: Map<Seq<char>, Set<Seq<char>>>, key: Seq<char>, member: Seq<char>, other: Seq<char>)
    ensures
        members_at(occupy(entries, key, member), other) == if other == key {
            members_at(entries, key).insert(member)
        } else {
            members_at(entries, other)
        },
        compact(entries) ==> compact(occupy(entries, key, member)),
{
    let after = occupy(entries, key, member);
    if compact(entries) {
        assert forall|k: Seq<char>| after.dom().contains(k) implies !(#[trigger] after[k]).is_empty() by {
            if k == key {
                assert(after[k].contains(member));
            } else {
                assert(!entries[k].is_empty());
            }
        }
    }
}

/// The members under every key after `member` left the set under `key`.
pub proof fn lemma_vacate_members(entries: Map<Seq<char>, Set<Seq<char>>>, key: Seq<char>, member: Seq<char>, other: Seq<char>)
    ensures
        members_at(vacate(entries, key, member), other) == if other == key {
            members_at(entries, key).remove(member)
        } else {
            members_at(entries, other)
        },
        compact(entries) ==> compact(vacate(entries, key, member)),
{
    let after = vacate(entries, key, member);
    if other == key {
        assert(members_at(after, key) =~= members_at(entries, key).remove(member));
    }
    if compact(entries) {
        assert forall|k: Seq<char>| after.dom().contains(k) implies !(#[trigger] after[k]).is_empty() by {
            if k != key {
                assert(!entries[k].is_empty());
            }
        }
    }
}

/// A join keeps the invariant, and afterwards the user is in the room, seen
/// from either side.
pub proof fn lemma_join_keeps_wf(registry: RegistryView, username: Seq<char>, room: Seq<char>)
    requires
        registry.wf(),
    ensures
        registry.join(username, room).wf(),
        registry.join(username, room).rooms_of(username).contains(room),
        registry.join(username, room).users_of(room).contains(username),
{
    let after = registry.join(username, room);
    lemma_occupy_members(registry.user_rooms, username, room, username);
    lemma_occupy_members(registry.room_users, room, username, room);
    assert forall|u: Seq<char>, r: Seq<char>|
        after.users_of(r).contains(u) <==> after.rooms_of(u).contains(r) by {
        lemma_occupy_members(registry.user_rooms, username, room, u);
        lemma_occupy_members(registry.room_users, room, username, r);
        assert(registry.users_of(r).contains(u) <==> registry.rooms_of(u).contains(r));
    }
}

/// A leave keeps the invariant, and afterwards the user is not in the room,
/// seen from either side.
pub proof fn lemma_leave_keeps_wf(registry: RegistryView, username: Seq<char>, room: Seq<char>)
    requires
        registry.wf(),
    ensures
        registry.leave(username, room).wf(),
        !registry.leave(username, room).rooms_of(username).contains(room),
        !registry.leave(username, room).users_of(room).contains(username),
{
    let after = registry.leave(username, room);
    lemma_vacate_members(registry.user_rooms, username, room, username);
    lemma_vacate_members(registry.room_users, room, username, room);
    assert forall|u: Seq<char>, r: Seq<char>|
        after.users_of(r).contains(u) <==> after.rooms_of(u).contains(r) by {
        lemma_vacate_members(registry.user_rooms, username, room, u);
        lemma_vacate_members(registry.room_users, room, username, r);
        assert(registry.users_of(r).contains(u) <==> registry.rooms_of(u).contains(r));
    }
}

/// Whatever run of envelopes passes through a registry that meets the
/// invariant, the registry meets it afterwards. As every prefix of a run is a
/// run, the invariant holds after each single join and leave.
pub proof fn lemma_replay_keeps_wf(registry: RegistryView, msgs: Seq<MsgView>)
    requires
        registry.wf(),
    ensures
        registry.replay(msgs).wf(),
    decreases msgs.len(),
{
    if msgs.len() > 0 {
        lemma_replay_keeps_wf(registry, msgs.drop_last());
        let before = registry.replay(msgs.drop_last());
        let msg = msgs.last();
        match msg.data {
            MsgDataView::Join => lemma_join_keeps_wf(before, msg.username, msg.room),
            MsgDataView::Leave => lemma_leave_keeps_wf(before, msg.username, msg.room),
            MsgDataView::Message(_) => {},
        }
    }
}

/// One more envelope behind a run: the registry takes it in after the run.
pub proof fn lemma_replay_one_more(registry: RegistryView, msgs: Seq<MsgView>, msg: MsgView)
    ensures
        registry.replay(msgs.push(msg)) == registry.replay(msgs).absorb(msg),
{
    assert(msgs.push(msg).drop_last() =~= msgs);
}

/// In a registry that meets the invariant, each side agrees with the other on
/// every user and room.
pub proof fn lemma_membership_mirrored(registry: RegistryView, username: Seq<char>, room: Seq<char>)
    requires
        registry.wf(),
    ensures
        registry.users_of(room).contains(username) <==> registry.rooms_of(username).contains(room),
{
}

/// A leave that takes the last room of a user, or the last user of a room,
/// removes the key itself: the name is absent afterwards, not present with an
/// empty set.
pub proof fn lemma_leave_removes_emptied_keys(registry: RegistryView, username: Seq<char>, room: Seq<char>)
    requires
        registry.wf(),
    ensures
        registry.leave(username, room).rooms_of(username).is_empty()
            ==> !registry.leave(username, room).user_rooms.dom().contains(username),
        registry.leave(username, room).users_of(room).is_empty()
            ==> !registry.leave(username, room).room_users.dom().contains(room),
        registry.leave(username, room).no_residue(),
{
    lemma_leave_keeps_wf(registry, username, room);
}

/// Joining a room twice is joining it once.
pub proof fn lemma_join_idempotent(registry: RegistryView, username: Seq<char>, room: Seq<char>)
    ensures
        registry.join(username, room).join(username, room) == registry.join(username, room),
{
    let once = registry.join(username, room);
    let twice = once.join(username, room);
    assert(once.rooms_of(username).insert(room) =~= once.rooms_of(username));
    assert(once.users_of(room).insert(username) =~= once.users_of(room));
    assert(twice.user_rooms =~= once.user_rooms);
    assert(twice.room_users =~= once.room_users);
}

/// Taking a member out of a set that does not hold it changes nothing in an
/// index without empty sets.
pub proof fn lemma_vacate_of_absent(entries: Map<Seq<char>, Set<Seq<char>>>, key: Seq<char>, member: Seq<char>)
    requires
        compact(entries),
        !members_at(entries, key).contains(member),
    ensures
        vacate(entries, key, member) == entries,
{
    if entries.dom().contains(key) {
        assert(entries[key].remove(member) =~= entries[key]);
        assert(!entries[key].is_empty());
        assert(entries.insert(key, entries[key]) =~= entries);
    }
}

/// Leaving a room that was not joined changes nothing.
pub proof fn lemma_leave_of_absent_is_noop(registry: RegistryView, username: Seq<char>, room: Seq<char>)
    requires
        registry.wf(),
        !registry.rooms_of(username).contains(room),
    ensures
        registry.leave(username, room) == registry,
{
    assert(!registry.users_of(room).contains(username));
    lemma_vacate_of_absent(registry.user_rooms, username, room);
    lemma_vacate_of_absent(registry.room_users, room, username);
}

/// `after` is `before` once `username` has left the rooms in `done`, and
/// nothing else has changed.
#[verifier::opaque]
pub open spec fn left_rooms(before: RegistryView, after: RegistryView, username: Seq<char>, done: Set<Seq<char>>) -> bool {
    &&& forall|other: Seq<char>| #[trigger]
        after.rooms_of(other) =~= if other == username {
            before.rooms_of(username).difference(done)
        } else {
            before.rooms_of(other)
        }
    &&& forall|room: Seq<char>| #[trigger]
        after.users_of(room) =~= if done.contains(room) {
            before.users_of(room).remove(username)
        } else {
            before.users_of(room)
        }
}

/// `after` is `before` once `username` has left every room: the user is in no
/// room, no room holds the user, and everybody else is where they were.
pub open spec fn departed(before: RegistryView, after: RegistryView, username: Seq<char>) -> bool {
    &&& forall|other: Seq<char>| #[trigger]
        after.rooms_of(other) =~= if other == username {
            Set::empty()
        } else {
            before.rooms_of(other)
        }
    &&& forall|room: Seq<char>| #[trigger]
        after.users_of(room) =~= before.users_of(room).remove(username)
}

/// One more room left: the rooms done grow by that room.
pub proof fn lemma_left_one_more(before: RegistryView, mid: RegistryView, username: Seq<char>, done: Set<Seq<char>>, room: Seq<char>)
    requires
        left_rooms(before, mid, username, done),
    ensures
        left_rooms(before, mid.leave(username, room), username, done.insert(room)),
{
    reveal(left_rooms);
    let after = mid.leave(username, room);
    let grown = done.insert(room);
    assert forall|other: Seq<char>| #[trigger]
        after.rooms_of(other) =~= if other == username {
            before.rooms_of(username).difference(grown)
        } else {
            before.rooms_of(other)
        } by {
        lemma_vacate_members(mid.user_rooms, username, room, other);
        assert(mid.rooms_of(other) =~= if other == username {
            before.rooms_of(username).difference(done)
        } else {
            before.rooms_of(other)
        });
    }
    assert forall|r: Seq<char>| #[trigger]
        after.users_of(r) =~= if grown.contains(r) {
            before.users_of(r).remove(username)
        } else {
            before.users_of(r)
        } by {
        lemma_vacate_members(mid.room_users, room, username, r);
        assert(mid.users_of(r) =~= if done.contains(r) {
            before.users_of(r).remove(username)
        } else {
            before.users_of(r)
        });
    }
}

/// Before any room is left, nothing has changed.
pub proof fn lemma_left_none(before: RegistryView, username: Seq<char>)
    ensures
        left_rooms(before, before, username, Set::empty()),
{
    reveal(left_rooms);
}

/// Once the rooms done are all the rooms the user was in, the user has
/// departed.
pub proof fn lemma_left_every_room(before: RegistryView, after: RegistryView, username: Seq<char>, done: Set<Seq<char>>)
    requires
        before.wf(),
        left_rooms(before, after, username, done),
        done =~= before.rooms_of(username),
    ensures
        departed(before, after, username),
{
    reveal(left_rooms);
    assert forall|other: Seq<char>| #[trigger]
        after.rooms_of(other) =~= if other == username {
            Set::empty()
        } else {
            before.rooms_of(other)
        } by {
        assert(after.rooms_of(other) =~= if other == username {
            before.rooms_of(username).difference(done)
        } else {
            before.rooms_of(other)
        });
    }
    assert forall|room: Seq<char>| #[trigger]
        after.users_of(room) =~= before.users_of(room).remove(username) by {
        assert(after.users_of(room) =~= if done.contains(room) {
            before.users_of(room).remove(username)
        } else {
            before.users_of(room)
        });
        assert(before.users_of(room).contains(username) <==> before.rooms_of(username).contains(room));
    }
}

/// The presence registry. Each direction is a concurrent map of concurrent
/// sets; a change goes to the user's rooms first and to the room's users
/// second, and no lock on one map is held while the other is touched.
#[derive(Debug)]
pub struct Registry {
    user_rooms: DashMap<String, DashSet<String>>,
    room_users: DashMap<String, DashSet<String>>,
}

impl View for Registry {
    type V = RegistryView;

    closed spec fn view(&self) -> RegistryView {
        RegistryView {
            user_rooms: index_entries(self.user_rooms),
            room_users: index_entries(self.room_users),
        }
    }
}

/// Takes `member` out of the set under `key`, and the key out of the index
/// where that leaves its set empty.
fn index_vacate(index: &mut DashMap<String, DashSet<String>>, key: &str, member: &str)
    ensures
        index_entries(*final(index)) == vacate(index_entries(*old(index)), key@, member@),
    no_unwind
{
    index_strike(index, key, member);
    let emptied = index_vacant(index, key);
    if let Some(true) = emptied {
        index_drop(index, key);
    }
    proof {
        let before = index_entries(*old(index));
        if before.dom().contains(key@) {
            if before[key@].remove(member@).is_empty() {
                assert(index_entries(*index) =~= before.remove(key@));
            }
        }
    }
}

/// Files `member` under `key` in the first index and `key` under `member` in
/// the second, in that order.
fn pair_occupy(
    first: &mut DashMap<String, DashSet<String>>,
    second: &mut DashMap<String, DashSet<String>>,
    key: &str,
    member: &str,
)
    ensures
        index_entries(*final(first)) == occupy(index_entries(*old(first)), key@, member@),
        index_entries(*final(second)) == occupy(index_entries(*old(second)), member@, key@),
    no_unwind
{
    index_add(first, key, member);
    index_add(second, member, key);
}

/// Takes `member` from under `key` in the first index and `key` from under
/// `member` in the second, in that order.
fn pair_vacate(
    first: &mut DashMap<String, DashSet<String>>,
    second: &mut DashMap<String, DashSet<String>>,
    key: &str,
    member: &str,
)
    ensures
        index_entries(*final(first)) == vacate(index_entries(*old(first)), key@, member@),
        index_entries(*final(second)) == vacate(index_entries(*old(second)), member@, key@),
    no_unwind
{
    index_vacate(first, key, member);
    index_vacate(second, member, key);
}

impl Registry {
    /// Every registry agrees with itself in both directions and keeps no
    /// empty set.
    #[verifier::type_invariant]
    pub open spec fn inv(self) -> bool {
        self@.wf()
    }

    /// A registry in which nobody is anywhere.
    pub fn new() -> (registry: Registry)
        ensures
            registry@ == RegistryView::empty(),
            registry@.wf(),
    {
        Registry { user_rooms: index_new(), room_users: index_new() }
    }

    /// Records that `username` is in `room`. Joining a room twice changes
    /// nothing the second time.
    pub fn join(&mut self, username: &str, room: &str)
        ensures
            final(self)@ == old(self)@.join(username@, room@),
            final(self)@.wf(),
        no_unwind
    {
        proof {
            use_type_invariant(&*self);
            lemma_join_keeps_wf(self@, username@, room@);
        }
        pair_occupy(&mut self.user_rooms, &mut self.room_users, username, room);
    }

    /// Records that `username` is no longer in `room`. Leaving a room that was
    /// not joined changes nothing.
    pub fn leave(&mut self, username: &str, room: &str)
        ensures
            final(self)@ == old(self)@.leave(username@, room@),
            final(self)@.wf(),
        no_unwind
    {
        proof {
            use_type_invariant(&*self);
            lemma_leave_keeps_wf(self@, username@, room@);
        }
        pair_vacate(&mut self.user_rooms, &mut self.room_users, username, room);
    }

    /// A copy of the rooms that `username` is in, each once, in no fixed order.
    pub fn rooms_of(&self, username: &str) -> (rooms: Vec<String>)
        ensures
            names(rooms@).no_duplicates(),
            names(rooms@).to_set() == self@.rooms_of(username@),
            self@.wf(),
    {
        proof {
            use_type_invariant(self);
        }
        index_members(&self.user_rooms, username)
    }

    /// A copy of the users that are in `room`, each once, in no fixed order.
    pub fn users_of(&self, room: &str) -> (users: Vec<String>)
        ensures
            names(users@).no_duplicates(),
            names(users@).to_set() == self@.users_of(room@),
            self@.wf(),
    {
        proof {
            use_type_invariant(self);
        }
        index_members(&self.room_users, room)
    }
}

} // verus!
