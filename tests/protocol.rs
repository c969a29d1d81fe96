use chat_client::protocol::{
    build_chat_message, build_register, build_users, decode, decode_fields, decode_message_data,
    encode,
    DecodeError, MsgTypes,
};

#[test]
fn register_frame_text() {
    let m = build_register("ana");
    assert_eq!(
        encode(&m),
        "{\"messageType\":\"register\",\"dataArray\":null,\"data\":\"ana\"}"
    );
}

#[test]
fn chat_frame_text_allows_empty() {
    let m = build_chat_message("");
    assert_eq!(
        encode(&m),
        "{\"messageType\":\"message\",\"dataArray\":null,\"data\":\"\"}"
    );
}

#[test]
fn chat_frame_text_escapes_quotes() {
    let m = build_chat_message("say \"hi\"\n");
    assert_eq!(
        encode(&m),
        "{\"messageType\":\"message\",\"dataArray\":null,\"data\":\"say \\\"hi\\\"\\n\"}"
    );
}

#[test]
fn users_frame_text() {
    let m = build_users(vec![String::from("ana"), String::from("bo")]);
    assert_eq!(
        encode(&m),
        "{\"messageType\":\"users\",\"dataArray\":[\"ana\",\"bo\"],\"data\":null}"
    );
    let empty = build_users(vec![]);
    assert_eq!(
        encode(&empty),
        "{\"messageType\":\"users\",\"dataArray\":[],\"data\":null}"
    );
}

#[test]
fn tags_round_trip() {
    for k in [MsgTypes::Users, MsgTypes::Register, MsgTypes::Message] {
        assert_eq!(MsgTypes::from_tag(&k.as_tag()), Some(k));
    }
    assert_eq!(MsgTypes::from_tag("Users"), None);
    assert_eq!(MsgTypes::from_tag("join"), None);
}

#[test]
fn decode_fields_drops_unused_field() {
    let m = decode_fields("users", Some(vec![String::from("ana")]), Some(String::from("x"))).unwrap();
    assert_eq!(m.message_type, MsgTypes::Users);
    assert_eq!(m.data_array, Some(vec![String::from("ana")]));
    assert_eq!(m.data, None);

    let m = decode_fields("message", Some(vec![String::from("ana")]), Some(String::from("x"))).unwrap();
    assert_eq!(m.message_type, MsgTypes::Message);
    assert_eq!(m.data_array, None);
    assert_eq!(m.data, Some(String::from("x")));
}

#[test]
fn decode_fields_unknown_type() {
    assert!(matches!(
        decode_fields("leave", None, None),
        Err(DecodeError::UnknownType)
    ));
}

#[test]
fn decode_inverts_encode_on_fields() {
    let e = build_register("bo");
    let d = decode_fields(&e.message_type.as_tag(), e.data_array.clone(), e.data.clone()).unwrap();
    assert_eq!(d.message_type, e.message_type);
    assert_eq!(d.data_array, e.data_array);
    assert_eq!(d.data, e.data);
}

#[test]
fn message_payload_reads() {
    let m = decode_message_data("{\"from\":\"ana\",\"message\":\"hi\"}").unwrap();
    assert_eq!(m.from, "ana");
    assert_eq!(m.message, "hi");
    let m = decode_message_data("{ \"message\" : \"a\\\"b\", \"from\" : \"bo\" }").unwrap();
    assert_eq!(m.from, "bo");
    assert_eq!(m.message, "a\"b");
}

#[test]
fn message_payload_errors() {
    assert!(matches!(decode_message_data("{not json"), Err(DecodeError::BadPayload)));
    assert!(matches!(decode_message_data("{\"from\":\"ana\"}"), Err(DecodeError::BadPayload)));
    assert!(matches!(decode_message_data("\"hi\""), Err(DecodeError::BadPayload)));
}

#[test]
fn decode_reads_encoded_frames() {
    for e in [
        build_register("ana"),
        build_chat_message("say \"hi\""),
        build_users(vec![String::from("ana"), String::from("bo")]),
        build_users(vec![]),
    ] {
        let d = decode(&encode(&e)).unwrap();
        assert_eq!(d.message_type, e.message_type);
        assert_eq!(d.data_array, e.data_array);
        assert_eq!(d.data, e.data);
    }
}

#[test]
fn decode_accepts_any_key_order_and_missing_fields() {
    let d = decode(" { \"data\" : \"x\", \"messageType\" : \"register\" } ").unwrap();
    assert_eq!(d.message_type, MsgTypes::Register);
    assert_eq!(d.data, Some(String::from("x")));
    assert_eq!(d.data_array, None);
    let d = decode("{\"messageType\":\"users\"}").unwrap();
    assert_eq!(d.message_type, MsgTypes::Users);
    assert_eq!(d.data_array, None);
    let d = decode("{\"messageType\":\"users\",\"dataArray\":[\"a\"],\"data\":\"z\"}").unwrap();
    assert_eq!(d.data_array, Some(vec![String::from("a")]));
    assert_eq!(d.data, None);
}

#[test]
fn decode_errors() {
    assert!(matches!(decode("{not json"), Err(DecodeError::Malformed)));
    assert!(matches!(decode("[1,2]"), Err(DecodeError::Malformed)));
    assert!(matches!(decode("{\"data\":\"x\"}"), Err(DecodeError::Malformed)));
    assert!(matches!(decode("{\"messageType\":3}"), Err(DecodeError::Malformed)));
    assert!(matches!(decode("{\"messageType\":\"users\",\"dataArray\":[1]}"), Err(DecodeError::Malformed)));
    assert!(matches!(decode("{\"messageType\":\"message\",\"data\":7}"), Err(DecodeError::Malformed)));
    assert!(matches!(decode("{\"messageType\":\"Users\"}"), Err(DecodeError::UnknownType)));
}
