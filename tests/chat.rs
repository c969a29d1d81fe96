use chat_client::chat::{ends_with, Chat, Msg};
use chat_client::protocol::{
    build_chat_message, build_register, build_users, decode_fields, encode, DecodeError,
};

fn names(c: &Chat) -> Vec<String> {
    c.users().iter().map(|u| u.name.clone()).collect()
}

#[test]
fn create_hands_out_register_frame() {
    let (c, frame) = Chat::create("ana");
    assert_eq!(
        frame,
        "{\"messageType\":\"register\",\"dataArray\":null,\"data\":\"ana\"}"
    );
    assert!(c.users().is_empty());
    assert!(c.messages().is_empty());
}

#[test]
fn roster_then_message_scenario() {
    let (mut c, _) = Chat::create("me");
    let users = decode_fields("users", Some(vec![String::from("ana"), String::from("bo")]), None);
    let e = c.handle_frame(users);
    assert!(e.refresh);
    assert!(e.error.is_none());
    assert_eq!(names(&c), vec![String::from("ana"), String::from("bo")]);
    for u in c.users() {
        assert_eq!(u.avatar, "https://www.svgrepo.com/show/71148/avatar.svg");
    }
    let msg = decode_fields(
        "message",
        None,
        Some(String::from("{\"from\":\"ana\",\"message\":\"hi\"}")),
    );
    let e = c.handle_frame(msg);
    assert!(e.refresh);
    assert_eq!(c.messages().len(), 1);
    assert_eq!(c.messages()[0].from, "ana");
    assert_eq!(c.messages()[0].message, "hi");
}

#[test]
fn roster_is_replaced_wholesale() {
    let (mut c, _) = Chat::create("me");
    c.handle_frame(Ok(build_users(vec![String::from("ana"), String::from("bo")])));
    c.handle_frame(Ok(build_users(vec![String::from("cy")])));
    assert_eq!(names(&c), vec![String::from("cy")]);
    c.handle_frame(decode_fields("users", None, None));
    assert!(c.users().is_empty());
}

#[test]
fn malformed_frame_changes_nothing() {
    let (mut c, _) = Chat::create("me");
    c.handle_frame(Ok(build_users(vec![String::from("ana")])));
    let e = c.handle_frame(Err(DecodeError::Malformed));
    assert!(!e.refresh);
    assert_eq!(e.error, Some(DecodeError::Malformed));
    assert_eq!(names(&c), vec![String::from("ana")]);
    assert!(c.messages().is_empty());

    let e = c.handle_frame(Ok(build_chat_message("{not json")));
    assert_eq!(e.error, Some(DecodeError::BadPayload));
    assert!(c.messages().is_empty());

    let e = c.handle_frame(decode_fields("message", None, None));
    assert_eq!(e.error, Some(DecodeError::BadPayload));
    assert!(c.messages().is_empty());
}

#[test]
fn inbound_register_is_ignored() {
    let (mut c, _) = Chat::create("me");
    let e = c.handle_frame(Ok(build_register("zed")));
    assert!(!e.refresh);
    assert!(e.error.is_none());
    assert!(c.users().is_empty());
}

#[test]
fn unknown_sender_is_a_miss() {
    let (mut c, _) = Chat::create("me");
    c.handle_frame(Ok(build_users(vec![String::from("ana")])));
    let e = c.handle_frame(Ok(build_chat_message("{\"from\":\"ghost\",\"message\":\"boo\"}")));
    assert!(e.refresh);
    assert_eq!(c.avatar_of("ghost"), None);
    assert_eq!(
        c.avatar_of("ana"),
        Some(String::from("https://www.svgrepo.com/show/71148/avatar.svg"))
    );
    let rows = c.message_rows();
    assert_eq!(rows.len(), 1);
    assert_eq!(rows[0].from, "ghost");
    assert_eq!(rows[0].avatar, None);
    assert!(!rows[0].is_image);
}

#[test]
fn gif_lines_are_images() {
    let (mut c, _) = Chat::create("me");
    c.handle_frame(Ok(build_users(vec![String::from("ana")])));
    c.handle_frame(Ok(build_chat_message("{\"from\":\"ana\",\"message\":\"http://x/a.gif\"}")));
    let rows = c.message_rows();
    assert!(rows[0].is_image);
    assert!(rows[0].avatar.is_some());
    assert!(ends_with("ab.gif", ".gif"));
    assert!(!ends_with("gif", ".gif"));
    assert!(ends_with("", ""));
}

#[test]
fn submit_hands_out_chat_frame() {
    let (mut c, _) = Chat::create("me");
    let e = c.update(Msg::SubmitMessage(String::from("hello")));
    assert!(!e.refresh);
    assert_eq!(
        e.outbound,
        Some(String::from("{\"messageType\":\"message\",\"dataArray\":null,\"data\":\"hello\"}"))
    );
    assert!(c.messages().is_empty());
    let frame = encode(&build_chat_message("{\"from\":\"me\",\"message\":\"hello\"}"));
    let e = c.update(Msg::HandleMsg(frame));
    assert!(e.refresh);
    assert!(e.outbound.is_none());
    assert_eq!(c.messages().len(), 1);
}

#[test]
fn text_frames_scenario() {
    let (mut c, _) = Chat::create("me");
    let e = c.update(Msg::HandleMsg(String::from(
        "{\"messageType\":\"users\",\"dataArray\":[\"ana\",\"bo\"]}",
    )));
    assert!(e.refresh);
    assert_eq!(names(&c), vec![String::from("ana"), String::from("bo")]);
    let e = c.update(Msg::HandleMsg(String::from(
        "{\"messageType\":\"message\",\"data\":\"{\\\"from\\\":\\\"ana\\\",\\\"message\\\":\\\"hi\\\"}\"}",
    )));
    assert!(e.refresh);
    assert!(e.error.is_none());
    assert_eq!(c.messages().len(), 1);
    assert_eq!(c.messages()[0].from, "ana");
    assert_eq!(c.messages()[0].message, "hi");
}

#[test]
fn malformed_text_changes_nothing() {
    let (mut c, _) = Chat::create("me");
    c.update(Msg::HandleMsg(encode(&build_users(vec![String::from("ana")]))));
    c.update(Msg::HandleMsg(encode(&build_chat_message("{\"from\":\"ana\",\"message\":\"x\"}"))));
    let e = c.update(Msg::HandleMsg(String::from("{not json")));
    assert!(!e.refresh);
    assert!(e.outbound.is_none());
    assert_eq!(e.error, Some(DecodeError::Malformed));
    assert_eq!(names(&c), vec![String::from("ana")]);
    assert_eq!(c.messages().len(), 1);
    let e = c.update(Msg::HandleMsg(String::from("{\"messageType\":\"leave\"}")));
    assert_eq!(e.error, Some(DecodeError::UnknownType));
    assert_eq!(c.messages().len(), 1);
}
