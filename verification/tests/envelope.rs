use chat_relay::envelope::{Msg, MsgData};

#[test]
fn stamped_keeps_every_part() {
    let msg = Msg::stamped("lobby", "tyr", 1_700_000_000, MsgData::Message("hi".to_string()));
    assert_eq!(msg.room, "lobby");
    assert_eq!(msg.username, "tyr");
    assert_eq!(msg.timestamp, 1_700_000_000);
    assert_eq!(msg.data, MsgData::Message("hi".to_string()));
}

#[test]
fn new_stamps_the_current_second() {
    let before = std::time::SystemTime::now()
        .duration_since(std::time::UNIX_EPOCH)
        .unwrap()
        .as_secs();
    let msg = Msg::new("lobby", "tyr", MsgData::Join);
    let after = std::time::SystemTime::now()
        .duration_since(std::time::UNIX_EPOCH)
        .unwrap()
        .as_secs();
    assert!(before <= msg.timestamp && msg.timestamp <= after);
    assert_eq!(msg.room, "lobby");
    assert_eq!(msg.username, "tyr");
    assert_eq!(msg.data, MsgData::Join);
}

#[test]
fn join_leave_and_message_build_their_payloads() {
    let join = Msg::join("lobby", "tyr");
    assert_eq!(join.room, "lobby");
    assert_eq!(join.username, "tyr");
    assert_eq!(join.data, MsgData::Join);

    let leave = Msg::leave("dev", "alice");
    assert_eq!(leave.room, "dev");
    assert_eq!(leave.username, "alice");
    assert_eq!(leave.data, MsgData::Leave);

    let chat = Msg::message("lobby", "tyr", "hello world");
    assert_eq!(chat.room, "lobby");
    assert_eq!(chat.username, "tyr");
    assert_eq!(chat.data, MsgData::Message("hello world".to_string()));
}

#[test]
fn message_may_be_empty() {
    let chat = Msg::message("lobby", "tyr", "");
    assert_eq!(chat.data, MsgData::Message(String::new()));
}
