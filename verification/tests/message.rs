use chat_relay::message::{FieldError, Message, ROOM_LIMIT, USERNAME_LIMIT};

fn text(len: usize, c: char) -> String {
    std::iter::repeat(c).take(len).collect()
}

#[test]
fn limits_are_thirty_and_twenty() {
    assert_eq!(ROOM_LIMIT, 30);
    assert_eq!(USERNAME_LIMIT, 20);
}

#[test]
fn message_keeps_its_three_texts() {
    let built = Message::new("lobby".to_string(), "alice".to_string(), "hi".to_string());
    let msg = built.expect("all fields are within their limits");
    assert_eq!(msg.room(), "lobby");
    assert_eq!(msg.username(), "alice");
    assert_eq!(msg.message(), "hi");
}

#[test]
fn empty_fields_are_accepted() {
    let msg = Message::new(String::new(), String::new(), String::new()).unwrap();
    assert_eq!(msg.room(), "");
    assert_eq!(msg.username(), "");
    assert_eq!(msg.message(), "");
}

#[test]
fn room_of_thirty_characters_is_accepted() {
    let room = text(30, 'r');
    let msg = Message::new(room.clone(), "alice".to_string(), "hi".to_string()).unwrap();
    assert_eq!(msg.room(), room);
}

#[test]
fn room_of_thirty_one_characters_is_refused() {
    let built = Message::new(text(31, 'r'), "alice".to_string(), "hi".to_string());
    assert_eq!(built, Err(FieldError::RoomTooLong));
}

#[test]
fn username_of_twenty_characters_is_accepted() {
    let name = text(20, 'u');
    let msg = Message::new("lobby".to_string(), name.clone(), "hi".to_string()).unwrap();
    assert_eq!(msg.username(), name);
}

#[test]
fn username_of_twenty_one_characters_is_refused() {
    let built = Message::new("lobby".to_string(), text(21, 'u'), "hi".to_string());
    assert_eq!(built, Err(FieldError::UsernameTooLong));
}

#[test]
fn room_is_reported_before_username() {
    let built = Message::new(text(31, 'r'), text(21, 'u'), "hi".to_string());
    assert_eq!(built, Err(FieldError::RoomTooLong));
}

#[test]
fn limits_count_characters_not_bytes() {
    let room = text(30, 'é');
    let name = text(20, '名');
    assert_eq!(room.len(), 60);
    assert_eq!(name.len(), 60);
    let msg = Message::new(room.clone(), name.clone(), "hi".to_string()).unwrap();
    assert_eq!(msg.room(), room);
    assert_eq!(msg.username(), name);
    assert_eq!(
        Message::new(text(31, 'é'), "alice".to_string(), "hi".to_string()),
        Err(FieldError::RoomTooLong)
    );
    assert_eq!(
        Message::new("lobby".to_string(), text(21, '名'), "hi".to_string()),
        Err(FieldError::UsernameTooLong)
    );
}

#[test]
fn body_is_not_bounded() {
    let body = text(100_000, 'b');
    let msg = Message::new("lobby".to_string(), "alice".to_string(), body.clone()).unwrap();
    assert_eq!(msg.message(), body);
}

#[test]
fn clone_is_equal_to_its_source() {
    let msg = Message::new("lobby".to_string(), "alice".to_string(), "hi".to_string()).unwrap();
    let copy = msg.clone();
    assert_eq!(copy, msg);
    assert_eq!(copy.room(), "lobby");
    assert_eq!(copy.username(), "alice");
    assert_eq!(copy.message(), "hi");
}

#[test]
fn messages_differ_when_a_field_differs() {
    let a = Message::new("lobby".to_string(), "alice".to_string(), "hi".to_string()).unwrap();
    let b = Message::new("lobby".to_string(), "alice".to_string(), "ho".to_string()).unwrap();
    let c = Message::new("hall".to_string(), "alice".to_string(), "hi".to_string()).unwrap();
    let d = Message::new("lobby".to_string(), "bob".to_string(), "hi".to_string()).unwrap();
    assert_ne!(a, b);
    assert_ne!(a, c);
    assert_ne!(a, d);
}
