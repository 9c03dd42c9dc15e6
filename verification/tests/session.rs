use chat_relay::bus::{Delivery, Subscription};
use chat_relay::envelope::{Msg, MsgData};
use chat_relay::relay::ChatState;
use chat_relay::session::{Action, Event, Phase, Session, Task};

struct FakeClient {
    session: Session,
    subscription: Subscription,
}

impl FakeClient {
    fn connect(state: &ChatState, username: &str) -> FakeClient {
        let (session, subscription) = Session::accept(state, username);
        FakeClient { session, subscription }
    }

    fn send(&mut self, state: &mut ChatState, msg: &Msg) {
        let frame = String::try_from(msg).unwrap();
        let action = self.session.step(state, Event::Text(frame));
        assert!(matches!(action, Action::Continue));
    }

    fn recv(&mut self, state: &mut ChatState) -> Option<String> {
        let delivery = self.subscription.poll(state.bus());
        match self.session.step(state, Event::Bus(delivery)) {
            Action::Write(frame) => Some(frame),
            _ => None,
        }
    }
}

fn verify(client: &mut FakeClient, state: &mut ChatState, room: &str, username: &str, data: MsgData) {
    if let Some(frame) = client.recv(state) {
        let msg = Msg::try_from(frame.as_str()).unwrap();
        assert_eq!(msg.room, room);
        assert_eq!(msg.username, username);
        assert_eq!(msg.data, data);
    } else {
        panic!("a frame should have been written");
    }
}

fn prepare_connections() -> (FakeClient, FakeClient, ChatState) {
    let mut state = ChatState::new();
    let mut client1 = FakeClient::connect(&state, "tyr");
    let mut client2 = FakeClient::connect(&state, "alice");

    client1.send(&mut state, &Msg::join("lobby", "tyr"));
    client2.send(&mut state, &Msg::join("lobby", "alice"));

    verify(&mut client1, &mut state, "lobby", "tyr", MsgData::Join);
    verify(&mut client2, &mut state, "lobby", "tyr", MsgData::Join);

    assert!(client1.recv(&mut state).is_some());
    assert!(client2.recv(&mut state).is_some());

    (client1, client2, state)
}

fn sorted(mut names: Vec<String>) -> Vec<String> {
    names.sort();
    names
}

#[test]
fn handle_join_should_work() {
    let (_client1, _client2, state) = prepare_connections();

    let mut users = state.get_room_users("lobby");
    users.sort();
    assert_eq!(users, vec!["alice", "tyr"]);

    let rooms = state.get_user_rooms("tyr");
    assert_eq!(rooms, &["lobby"]);
}

#[test]
fn handle_message_and_leave_should_work() {
    let (mut client1, mut client2, mut state) = prepare_connections();

    let msg1 = Msg::new("lobby", "tyr", MsgData::Message("hello world".into()));
    client1.send(&mut state, &msg1);

    verify(&mut client1, &mut state, "lobby", "tyr", MsgData::Message("hello world".into()));
    verify(&mut client2, &mut state, "lobby", "tyr", MsgData::Message("hello world".into()));

    let msg2 = Msg::new("lobby", "tyr", MsgData::Leave);
    client2.send(&mut state, &msg2);

    assert!(client1.recv(&mut state).is_some());
    assert!(client2.recv(&mut state).is_some());

    let users = state.get_room_users("lobby");
    assert_eq!(users, vec!["alice"]);

    let rooms = state.get_user_rooms("tyr");
    assert!(rooms.is_empty());
}

#[test]
fn chat_reaches_the_other_session() {
    let mut state = ChatState::new();
    let mut a = FakeClient::connect(&state, "tyr");
    let mut b = FakeClient::connect(&state, "alice");
    a.send(&mut state, &Msg::join("lobby", "tyr"));
    b.send(&mut state, &Msg::join("lobby", "alice"));
    assert!(b.recv(&mut state).is_some());
    assert!(b.recv(&mut state).is_some());

    a.send(&mut state, &Msg::stamped("lobby", "tyr", 11, MsgData::Message("hi".to_string())));
    let frame = b.recv(&mut state).unwrap();
    assert_eq!(
        frame,
        r#"{"data":{"message":"hi"},"room":"lobby","timestamp":11,"username":"tyr"}"#
    );
    let msg = Msg::decode(&frame).unwrap();
    assert_eq!(msg.room, "lobby");
    assert_eq!(msg.username, "tyr");
    assert_eq!(msg.data, MsgData::Message("hi".to_string()));
}

#[test]
fn accept_opens_an_active_session() {
    let state = ChatState::new();
    let (session, _subscription) = Session::accept(&state, "tyr");
    assert_eq!(session.username(), "tyr");
    assert_eq!(session.phase(), Phase::Active);
}

#[test]
fn malformed_frame_is_dropped_and_the_session_goes_on() {
    let mut state = ChatState::new();
    let mut observer = state.subscribe();
    let (mut session, _subscription) = Session::accept(&state, "tyr");
    for frame in ["", "not json", "{}", r#"{"room":"r","username":"u","timestamp":1,"data":"dance"}"#] {
        let action = session.step(&mut state, Event::Text(frame.to_string()));
        assert!(matches!(action, Action::Continue));
        assert_eq!(session.phase(), Phase::Active);
    }
    assert!(matches!(observer.poll(state.bus()), Delivery::Empty));
    assert!(state.get_user_rooms("u").is_empty());

    let join = Msg::join("lobby", "tyr").encode().unwrap();
    assert!(matches!(session.step(&mut state, Event::Text(join)), Action::Continue));
    assert_eq!(state.get_user_rooms("tyr"), vec!["lobby"]);
    assert!(matches!(observer.poll(state.bus()), Delivery::Envelope(_)));
}

#[test]
fn frames_that_are_not_text_are_passed_over() {
    let mut state = ChatState::new();
    let (mut session, _subscription) = Session::accept(&state, "tyr");
    assert!(matches!(session.step(&mut state, Event::Other), Action::Continue));
    assert_eq!(session.phase(), Phase::Active);
}

#[test]
fn a_gap_on_the_bus_does_not_end_the_session() {
    let mut state = ChatState::new();
    let (mut session, _subscription) = Session::accept(&state, "tyr");
    let action = session.step(&mut state, Event::Bus(Delivery::Lagged(3)));
    assert!(matches!(action, Action::Continue));
    assert_eq!(session.phase(), Phase::Active);
    let action = session.step(&mut state, Event::Bus(Delivery::Empty));
    assert!(matches!(action, Action::Continue));
    assert_eq!(session.phase(), Phase::Active);
}

#[test]
fn a_lagging_session_goes_on_with_what_is_left() {
    let mut state = ChatState::new();
    let mut slow = FakeClient::connect(&state, "alice");
    for n in 0..70 {
        state.handle_message(Msg::stamped("lobby", "tyr", n, MsgData::Message("x".to_string())));
    }
    assert!(slow.recv(&mut state).is_none());
    assert_eq!(slow.session.phase(), Phase::Active);
    let frame = slow.recv(&mut state).unwrap();
    assert_eq!(Msg::decode(&frame).unwrap().timestamp, 6);
}

#[test]
fn end_of_input_cancels_the_send_loop() {
    let mut state = ChatState::new();
    let (mut session, _subscription) = Session::accept(&state, "tyr");
    let action = session.step(&mut state, Event::InboundEnded);
    assert!(matches!(action, Action::Cancel(Task::Send)));
    assert_eq!(session.phase(), Phase::Closing);
}

#[test]
fn failed_write_cancels_the_receive_loop() {
    let mut state = ChatState::new();
    let (mut session, _subscription) = Session::accept(&state, "tyr");
    let action = session.step(&mut state, Event::WriteFailed);
    assert!(matches!(action, Action::Cancel(Task::Receive)));
    assert_eq!(session.phase(), Phase::Closing);
}

#[test]
fn closed_bus_cancels_the_receive_loop() {
    let mut state = ChatState::new();
    let (mut session, _subscription) = Session::accept(&state, "tyr");
    let action = session.step(&mut state, Event::Bus(Delivery::Closed));
    assert!(matches!(action, Action::Cancel(Task::Receive)));
    assert_eq!(session.phase(), Phase::Closing);
}

#[test]
fn stop_before_any_loop_ended_is_passed_over() {
    let mut state = ChatState::new();
    let (mut session, _subscription) = Session::accept(&state, "tyr");
    session.step(&mut state, Event::Text(Msg::join("lobby", "tyr").encode().unwrap()));
    assert!(matches!(session.step(&mut state, Event::Stopped), Action::Continue));
    assert_eq!(session.phase(), Phase::Active);
    assert_eq!(state.get_user_rooms("tyr"), vec!["lobby"]);
}

#[test]
fn disconnect_announces_a_leave_for_each_room() {
    let mut state = ChatState::new();
    let mut a = FakeClient::connect(&state, "tyr");
    let mut b = FakeClient::connect(&state, "alice");
    a.send(&mut state, &Msg::join("lobby", "tyr"));
    a.send(&mut state, &Msg::join("dev", "tyr"));
    b.send(&mut state, &Msg::join("lobby", "alice"));
    for _ in 0..3 {
        assert!(b.recv(&mut state).is_some());
    }

    assert!(matches!(a.session.step(&mut state, Event::InboundEnded), Action::Cancel(Task::Send)));
    let rooms = match a.session.step(&mut state, Event::Stopped) {
        Action::Finished(rooms) => sorted(rooms),
        _ => panic!("the session should have finished"),
    };
    assert_eq!(rooms, vec!["dev", "lobby"]);
    assert_eq!(a.session.phase(), Phase::Closed);

    let mut left = Vec::new();
    for _ in 0..2 {
        let msg = Msg::decode(&b.recv(&mut state).unwrap()).unwrap();
        assert_eq!(msg.username, "tyr");
        assert_eq!(msg.data, MsgData::Leave);
        left.push(msg.room);
    }
    assert_eq!(sorted(left), vec!["dev", "lobby"]);
    assert!(b.recv(&mut state).is_none());

    assert!(state.get_user_rooms("tyr").is_empty());
    assert_eq!(state.get_room_users("lobby"), vec!["alice"]);
    assert!(state.get_room_users("dev").is_empty());
}

#[test]
fn cleanup_runs_exactly_once() {
    let mut state = ChatState::new();
    let mut observer = state.subscribe();
    let (mut session, _subscription) = Session::accept(&state, "tyr");
    session.step(&mut state, Event::Text(Msg::join("lobby", "tyr").encode().unwrap()));
    session.step(&mut state, Event::WriteFailed);
    assert!(matches!(session.step(&mut state, Event::Stopped), Action::Finished(_)));
    assert_eq!(session.phase(), Phase::Closed);

    state.handle_message(Msg::join("lobby", "tyr"));
    assert!(matches!(session.step(&mut state, Event::Stopped), Action::Continue));
    assert!(matches!(session.step(&mut state, Event::InboundEnded), Action::Continue));
    assert_eq!(session.phase(), Phase::Closed);
    assert_eq!(state.get_user_rooms("tyr"), vec!["lobby"]);

    let mut leaves = 0;
    loop {
        match observer.poll(state.bus()) {
            Delivery::Envelope(msg) => {
                if msg.data == MsgData::Leave {
                    leaves += 1;
                }
            }
            _ => break,
        }
    }
    assert_eq!(leaves, 1);
}

#[test]
fn a_closing_session_takes_no_more_frames() {
    let mut state = ChatState::new();
    let (mut session, _subscription) = Session::accept(&state, "tyr");
    session.step(&mut state, Event::InboundEnded);
    let join = Msg::join("lobby", "tyr").encode().unwrap();
    assert!(matches!(session.step(&mut state, Event::Text(join)), Action::Continue));
    assert!(state.get_user_rooms("tyr").is_empty());
    assert!(matches!(session.step(&mut state, Event::WriteFailed), Action::Continue));
    assert_eq!(session.phase(), Phase::Closing);
    let delivery = Delivery::Envelope(std::sync::Arc::new(Msg::join("lobby", "alice")));
    assert!(matches!(session.step(&mut state, Event::Bus(delivery)), Action::Continue));
}
