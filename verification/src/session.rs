//! The life of one connection: a receive loop and a send loop that run side
//! by side, end together, and are cleaned up after exactly once.
//!
//! The loops themselves wait on the socket and on the bus, which is the
//! caller's business. What to do with each thing that happens is decided
//! here, by `Session::step`.

use vstd::prelude::*;
use crate::bus::{Delivery, Subscription};
use crate::codec::{document_of, envelope_of_parsed, DecodeError};
use crate::envelope::{Msg, MsgView};
use crate::index::names;
use crate::json::{json_parse, json_text};
use crate::registry::{departed, RegistryView};
use crate::relay::{announces, ChatState};

verus! {

/// Where a session stands.
#[derive(Debug, Clone, Copy, PartialEq, Eq, Structural)]
pub enum Phase {
    /// Both loops run.
    Active,
    /// One loop has ended and the other is being cancelled.
    Closing,
    /// Both loops have stopped and the user's leaves have been announced.
    /// Nothing happens to a closed session any more.
    Closed,
}

/// One of the two loops of a session.
#[derive(Debug, Clone, Copy, PartialEq, Eq, Structural)]
pub enum Task {
    /// The loop that reads frames from the client.
    Receive,
    /// The loop that writes frames to the client.
    Send,
}

/// Something that happened to a session.
#[derive(Debug)]
pub enum Event {
    /// The client sent a text frame.
    Text(String),
    /// The client sent a frame that is not text.
    Other,
    /// The stream from the client closed or failed.
    InboundEnded,
    /// The bus answered the send loop.
    Bus(Delivery),
    /// A frame could not be written to the client.
    WriteFailed,
    /// The loop that was cancelled has stopped.
    Stopped,
}

/// What the caller is to do next.
#[derive(Debug)]
pub enum Action {
    /// Go on with the loop that reported the event.
    Continue,
    /// Write this text frame to the client, then go on.
    Write(String),
    /// The loop that reported has ended: cancel the named one, and report
    /// `Event::Stopped` once it has stopped.
    Cancel(Task),
    /// The session is over. The user has left these rooms, and a leave has
    /// gone out for each.
    Finished(Vec<String>),
}

/// The mathematical value of a session.
pub struct SessionView {
    pub username: Seq<char>,
    pub phase: Phase,
}

/// One connection of one authenticated user.
#[derive(Debug)]
pub struct Session {
    username: String,
    phase: Phase,
}

impl View for Session {
    type V = SessionView;

    closed spec fn view(&self) -> SessionView {
        SessionView { username: self.username@, phase: self.phase }
    }
}

/// The loop that an event ends, if it ends one.
pub open spec fn ended_by(event: Event) -> Option<Task> {
    match event {
        Event::InboundEnded => Some(Task::Receive),
        Event::WriteFailed => Some(Task::Send),
        Event::Bus(Delivery::Closed) => Some(Task::Send),
        _ => None,
    }
}

/// The other loop.
pub open spec fn partner(task: Task) -> Task {
    match task {
        Task::Receive => Task::Send,
        Task::Send => Task::Receive,
    }
}

/// Where a session stands after an event. An active session starts closing
/// when one of its loops ends; a closing one is closed when the other loop
/// has stopped; a closed one stays closed. No event leads back.
pub open spec fn next_phase(phase: Phase, event: Event) -> Phase {
    match phase {
        Phase::Active => if ended_by(event) is Some {
            Phase::Closing
        } else {
            Phase::Active
        },
        Phase::Closing => if event is Stopped {
            Phase::Closed
        } else {
            Phase::Closing
        },
        Phase::Closed => Phase::Closed,
    }
}

/// How far along a session is.
pub open spec fn progress(phase: Phase) -> nat {
    match phase {
        Phase::Active => 0,
        Phase::Closing => 1,
        Phase::Closed => 2,
    }
}

/// A session only moves forward, one phase at a time: no event brings a
/// session back to an earlier phase, none makes it active again, and none
/// closes a session whose loops have not both ended.
pub proof fn lemma_phase_only_advances(phase: Phase, event: Event)
    ensures
        progress(phase) <= progress(next_phase(phase, event)) <= progress(phase) + 1,
        next_phase(phase, event) == Phase::Active ==> phase == Phase::Active,
        next_phase(Phase::Closed, event) == Phase::Closed,
{
}

/// The user of a session leaves the rooms at most once: the one event that
/// does it closes the session, and a closed session touches the registry no
/// more.
pub proof fn lemma_cleanup_happens_once(session: SessionView, event: Event, before: RegistryView, after: RegistryView)
    ensures
        session.phase == Phase::Closing && event is Stopped ==> next_phase(session.phase, event)
            == Phase::Closed,
        session.phase == Phase::Closed && registry_moves(session, event, before, after) ==> after
            == before,
{
}

/// The registry after a frame has been read: it takes in the envelope that
/// the frame spells, and stays as it is where the frame spells none.
pub open spec fn absorbed(before: RegistryView, decoded: Result<MsgView, DecodeError>) -> RegistryView {
    match decoded {
        Ok(msg) => before.absorb(msg),
        Err(_) => before,
    }
}

/// What an event does to the registry. A text frame that reaches an active
/// session is taken in; the stop that closes a session makes its user leave
/// every room; nothing else touches the registry.
pub open spec fn registry_moves(session: SessionView, event: Event, before: RegistryView, after: RegistryView) -> bool {
    match (session.phase, event) {
        (Phase::Active, Event::Text(text)) => after == absorbed(
            before,
            envelope_of_parsed(json_parse(text@)),
        ),
        (Phase::Closing, Event::Stopped) => departed(before, after, session.username),
        _ => after == before,
    }
}

/// What an event puts on the bus. A text frame that reaches an active session
/// and spells an envelope is republished as it is; the stop that closes a
/// session announces a leave of its user for each room of the answer;
/// nothing else is published.
pub open spec fn bus_moves(session: SessionView, event: Event, action: Action, before: Seq<MsgView>, after: Seq<MsgView>) -> bool {
    match (session.phase, event) {
        (Phase::Active, Event::Text(text)) => match envelope_of_parsed(json_parse(text@)) {
            Ok(msg) => after == before.push(msg),
            Err(_) => after == before,
        },
        (Phase::Closing, Event::Stopped) => action matches Action::Finished(rooms) && announces(
            before,
            after,
            session.username,
            names(rooms@),
        ),
        _ => after == before,
    }
}

/// The action that answers an event. An active session writes out each
/// envelope that the bus delivers, cancels the partner of a loop that ends,
/// and goes on after everything else: a frame that is no envelope, a frame
/// that is not text, a gap on the bus. The stop that closes a session is
/// answered with the rooms that its user was in. A closing or closed session
/// goes on after anything else.
pub open spec fn action_answers(action: Action, session: SessionView, event: Event, before: RegistryView) -> bool {
    match (session.phase, event) {
        (Phase::Active, Event::Bus(Delivery::Envelope(msg))) => match json_text(document_of(msg@)) {
            Some(text) => action matches Action::Write(frame) && frame@ == text,
            None => action is Continue,
        },
        (Phase::Active, _) => match ended_by(event) {
            Some(task) => action == Action::Cancel(partner(task)),
            None => action is Continue,
        },
        (Phase::Closing, Event::Stopped) => action matches Action::Finished(rooms) && names(
            rooms@,
        ).no_duplicates() && names(rooms@).to_set() == before.rooms_of(session.username),
        _ => action is Continue,
    }
}

impl Session {
    /// Opens the session of `username`: the session is active, and its place
    /// on the bus receives what is published from now on.
    pub fn accept(state: &ChatState, username: &str) -> (opened: (Session, Subscription))
        ensures
            opened.0@ == (SessionView { username: username@, phase: Phase::Active }),
            opened.1.listens_to(&state.carrier()),
            state.carrier().carried().len() <= u64::MAX ==> opened.1.position()
                == state.carrier().carried().len(),
    {
        let subscription = state.subscribe();
        (Session { username: username.to_owned(), phase: Phase::Active }, subscription)
    }

    /// The user of the session.
    pub fn username(&self) -> (username: &str)
        ensures
            username@ == self@.username,
    {
        self.username.as_str()
    }

    /// Where the session stands.
    pub fn phase(&self) -> (phase: Phase)
        ensures
            phase == self@.phase,
    {
        self.phase
    }

    /// Takes one event and says what to do next.
    pub fn step(&mut self, state: &mut ChatState, event: Event) -> (action: Action)
        ensures
            final(self)@.username == old(self)@.username,
            final(self)@.phase == next_phase(old(self)@.phase, event),
            registry_moves(old(self)@, event, old(state)@, final(state)@),
            bus_moves(old(self)@, event, action, old(state).published(), final(state).published()),
            action_answers(action, old(self)@, event, old(state)@),
            old(state)@.wf() ==> final(state)@.wf(),
            old(state).in_step() ==> final(state).in_step(),
            final(state).carrier().continues(&old(state).carrier()),
    {
        match self.phase {
            Phase::Active => match event {
                Event::Text(text) => {
                    match Msg::decode(text.as_str()) {
                        Ok(msg) => {
                            state.handle_message(msg);
                        },
                        Err(_) => {},
                    }
                    Action::Continue
                },
                Event::Bus(Delivery::Envelope(msg)) => match msg.encode() {
                    Ok(frame) => Action::Write(frame),
                    Err(_) => Action::Continue,
                },
                Event::InboundEnded => {
                    self.phase = Phase::Closing;
                    Action::Cancel(Task::Send)
                },
                Event::WriteFailed => {
                    self.phase = Phase::Closing;
                    Action::Cancel(Task::Receive)
                },
                Event::Bus(Delivery::Closed) => {
                    self.phase = Phase::Closing;
                    Action::Cancel(Task::Receive)
                },
                _ => Action::Continue,
            },
            Phase::Closing => match event {
                Event::Stopped => {
                    let rooms = state.disconnect(self.username.as_str());
                    self.phase = Phase::Closed;
                    Action::Finished(rooms)
                },
                _ => Action::Continue,
            },
            Phase::Closed => Action::Continue,
        }
    }
}

} // verus!
