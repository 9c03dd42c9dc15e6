//! The envelope: the unit of communication that travels through the relay.

use vstd::prelude::*;

verus! {

/// What an envelope carries.
#[derive(Debug, Clone, PartialEq, Eq)]
pub enum MsgData {
    /// The sender enters the room.
    Join,
    /// The sender leaves the room.
    Leave,
    /// The sender says something in the room.
    Message(String),
}

/// The mathematical value of a payload.
pub enum MsgDataView {
    Join,
    Leave,
    Message(Seq<char>),
}

impl View for MsgData {
    type V = MsgDataView;

    open spec fn view(&self) -> MsgDataView {
        match *self {
            MsgData::Join => MsgDataView::Join,
            MsgData::Leave => MsgDataView::Leave,
            MsgData::Message(text) => MsgDataView::Message(text@),
        }
    }
}

/// One envelope: a room, a sender, the second it was made, and a payload.
#[derive(Debug, Clone, PartialEq, Eq)]
pub struct Msg {
    pub room: String,
    pub username: String,
    pub timestamp: u64,
    pub data: MsgData,
}

/// The mathematical value of an envelope.
pub struct MsgView {
    pub room: Seq<char>,
    pub username: Seq<char>,
    pub timestamp: u64,
    pub data: MsgDataView,
}

impl View for Msg {
    type V = MsgView;

    open spec fn view(&self) -> MsgView {
        MsgView {
            room: self.room@,
            username: self.username@,
            timestamp: self.timestamp,
            data: self.data@,
        }
    }
}

/// Reads the wall clock through `std::time::SystemTime::now` and gives the
/// whole seconds since the Unix epoch, or `None` when the clock stands before
/// the epoch. Nothing is claimed of the value: it differs from call to call.
#[verifier::external_body]
fn unix_seconds() -> (now: Option<u64>) {
    std::time::SystemTime::now().duration_since(std::time::UNIX_EPOCH).ok().map(|d| d.as_secs())
}

impl Msg {
    /// The envelope with exactly the given parts.
    pub fn stamped(room: &str, username: &str, timestamp: u64, data: MsgData) -> (msg: Msg)
        ensures
            msg@ == (MsgView { room: room@, username: username@, timestamp, data: data@ }),
    {
        Msg { room: room.to_owned(), username: username.to_owned(), timestamp, data }
    }

    /// An envelope stamped with the current wall-clock second. A clock that
    /// stands before the Unix epoch stamps 0.
    pub fn new(room: &str, username: &str, data: MsgData) -> (msg: Msg)
        ensures
            msg@.room == room@,
            msg@.username == username@,
            msg@.data == data@,
    {
        let timestamp: u64 = match unix_seconds() {
            Some(seconds) => seconds,
            None => 0,
        };
        Msg::stamped(room, username, timestamp, data)
    }

    /// The announcement that `username` enters `room`.
    pub fn join(room: &str, username: &str) -> (msg: Msg)
        ensures
            msg@.room == room@,
            msg@.username == username@,
            msg@.data == MsgDataView::Join,
    {
        Msg::new(room, username, MsgData::Join)
    }

    /// The announcement that `username` leaves `room`.
    pub fn leave(room: &str, username: &str) -> (msg: Msg)
        ensures
            msg@.room == room@,
            msg@.username == username@,
            msg@.data == MsgDataView::Leave,
    {
        Msg::new(room, username, MsgData::Leave)
    }

    /// A chat line that `username` says in `room`.
    pub fn message(room: &str, username: &str, message: &str) -> (msg: Msg)
        ensures
            msg@.room == room@,
            msg@.username == username@,
            msg@.data == MsgDataView::Message(message@),
    {
        Msg::new(room, username, MsgData::Message(message.to_owned()))
    }
}

} // verus!
