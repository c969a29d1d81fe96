//! The wire frames: their kinds, their payloads and their text.
use vstd::prelude::*;
use vstd::string::StringExecFns;
use crate::json::{
    json_opt_string, json_opt_strings, json_raw_fields, json_str_literal, json_string, pairs_view,
    parse_opt_string, parse_opt_strings, parse_raw_fields, parse_string, quote,
};

verus! {

/// The kind of a frame, written on the wire in lower case.
#[derive(Clone, Copy, Debug, PartialEq, Eq, Structural)]
pub enum MsgTypes {
    Users,
    Register,
    Message,
}

/// Why an inbound frame was dropped.
#[derive(Clone, Copy, Debug, PartialEq, Eq, Structural)]
pub enum DecodeError {
    /// The text is not a well-formed envelope.
    Malformed,
    /// The envelope names a kind that the protocol does not have.
    UnknownType,
    /// A chat frame whose `data` is missing or is not a `{from, message}` record.
    BadPayload,
}

pub open spec fn tag(t: MsgTypes) -> Seq<char> {
    match t {
        MsgTypes::Users => "users"@,
        MsgTypes::Register => "register"@,
        MsgTypes::Message => "message"@,
    }
}

/// The kind whose wire name is `s`, if any.
pub open spec fn kind_of_tag(s: Seq<char>) -> Option<MsgTypes> {
    if s == "users"@ {
        Some(MsgTypes::Users)
    } else if s == "register"@ {
        Some(MsgTypes::Register)
    } else if s == "message"@ {
        Some(MsgTypes::Message)
    } else {
        None
    }
}

impl MsgTypes {
    /// The kind's name on the wire.
    pub fn as_tag(&self) -> (r: String)
        ensures
            r@ == tag(*self),
    {
        match self {
            MsgTypes::Users => String::from_str("users"),
            MsgTypes::Register => String::from_str("register"),
            MsgTypes::Message => String::from_str("message"),
        }
    }

    /// The kind named `s` on the wire; names are matched exactly.
    pub fn from_tag(s: &str) -> (r: Option<MsgTypes>)
        ensures
            r == kind_of_tag(s@),
    {
        let t = String::from_str(s);
        if t == String::from_str("users") {
            Some(MsgTypes::Users)
        } else if t == String::from_str("register") {
            Some(MsgTypes::Register)
        } else if t == String::from_str("message") {
            Some(MsgTypes::Message)
        } else {
            None
        }
    }
}

/// An envelope as a value: its kind and its two optional payload fields.
pub struct FrameView {
    pub kind: MsgTypes,
    pub data_array: Option<Seq<Seq<char>>>,
    pub data: Option<Seq<char>>,
}

/// The wire unit: a kind and the payload field that the kind uses.
pub struct WebSocketMessage {
    pub message_type: MsgTypes,
    pub data_array: Option<Vec<String>>,
    pub data: Option<String>,
}

pub open spec fn strings_view(v: Seq<String>) -> Seq<Seq<char>> {
    v.map_values(|s: String| s@)
}

pub open spec fn opt_string_view(o: Option<String>) -> Option<Seq<char>> {
    match o {
        Some(s) => Some(s@),
        None => None,
    }
}

pub open spec fn opt_strings_view(o: Option<Vec<String>>) -> Option<Seq<Seq<char>>> {
    match o {
        Some(v) => Some(strings_view(v@)),
        None => None,
    }
}

impl View for WebSocketMessage {
    type V = FrameView;

    open spec fn view(&self) -> FrameView {
        FrameView {
            kind: self.message_type,
            data_array: opt_strings_view(self.data_array),
            data: opt_string_view(self.data),
        }
    }
}

/// Which payload field is filled is decided by the kind alone: a roster frame
/// never carries `data`, the other two never carry `data_array`.
pub open spec fn well_formed(f: FrameView) -> bool {
    match f.kind {
        MsgTypes::Users => f.data is None,
        _ => f.data_array is None,
    }
}

/// The frame that announces the local user under `username`.
pub fn build_register(username: &str) -> (r: WebSocketMessage)
    ensures
        r@ == (FrameView { kind: MsgTypes::Register, data_array: None, data: Some(username@) }),
{
    WebSocketMessage {
        message_type: MsgTypes::Register,
        data_array: None,
        data: Some(String::from_str(username)),
    }
}

/// The frame that sends `text` to the room; any text, the empty one too.
pub fn build_chat_message(text: &str) -> (r: WebSocketMessage)
    ensures
        r@ == (FrameView { kind: MsgTypes::Message, data_array: None, data: Some(text@) }),
{
    WebSocketMessage {
        message_type: MsgTypes::Message,
        data_array: None,
        data: Some(String::from_str(text)),
    }
}

/// The frame that announces the full membership `names`, in that order.
pub fn build_users(names: Vec<String>) -> (r: WebSocketMessage)
    ensures
        r@ == (FrameView { kind: MsgTypes::Users, data_array: Some(strings_view(names@)), data: None }),
{
    WebSocketMessage { message_type: MsgTypes::Users, data_array: Some(names), data: None }
}

/// The string literals of `items`, separated by commas.
pub open spec fn list_body(items: Seq<Seq<char>>) -> Seq<char>
    decreases items.len(),
{
    if items.len() == 0 {
        Seq::empty()
    } else if items.len() == 1 {
        json_str_literal(items[0])
    } else {
        list_body(items.drop_last()) + ","@ + json_str_literal(items.last())
    }
}

pub open spec fn list_text(o: Option<Seq<Seq<char>>>) -> Seq<char> {
    match o {
        Some(items) => "["@ + list_body(items) + "]"@,
        None => "null"@,
    }
}

pub open spec fn data_text(o: Option<Seq<char>>) -> Seq<char> {
    match o {
        Some(s) => json_str_literal(s),
        None => "null"@,
    }
}

/// The wire text of a frame: one compact JSON object with the keys
/// `messageType`, `dataArray` and `data`, in that order.
pub open spec fn encoded(f: FrameView) -> Seq<char> {
    "{\"messageType\":"@ + json_str_literal(tag(f.kind)) + ",\"dataArray\":"@ + list_text(
        f.data_array,
    ) + ",\"data\":"@ + data_text(f.data) + "}"@
}

fn write_list(out: &mut String, items: &Vec<String>)
    ensures
        final(out)@ == old(out)@ + "["@ + list_body(strings_view(items@)) + "]"@,
{
    let ghost start = out@;
    let ghost sv = strings_view(items@);
    out.append("[");
    let mut i: usize = 0;
    while i < items.len()
        invariant
            i <= items.len(),
            sv == strings_view(items@),
            out@ == start + "["@ + list_body(sv.take(i as int)),
        decreases items.len() - i,
    {
        if i > 0 {
            out.append(",");
        }
        let q = quote(items[i].as_str());
        out.append(q.as_str());
        proof {
            assert(sv.take(i + 1).drop_last() =~= sv.take(i as int));
            assert(sv.take(i + 1).last() == items@[i as int]@);
            if i == 0 {
                assert(sv.take(0) =~= Seq::<Seq<char>>::empty());
                assert(Seq::<char>::empty() + json_str_literal(items@[0]@) =~= json_str_literal(items@[0]@));
            }
        }
        i = i + 1;
    }
    assert(sv.take(items.len() as int) =~= sv);
    out.append("]");
}

/// The wire text of `msg`.
pub fn encode(msg: &WebSocketMessage) -> (r: String)
    ensures
        r@ == encoded(msg@),
{
    let mut out = String::from_str("{\"messageType\":");
    let t = msg.message_type.as_tag();
    let q = quote(t.as_str());
    out.append(q.as_str());
    out.append(",\"dataArray\":");
    match &msg.data_array {
        Some(items) => write_list(&mut out, items),
        None => out.append("null"),
    }
    out.append(",\"data\":");
    match &msg.data {
        Some(d) => {
            let q = quote(d.as_str());
            out.append(q.as_str());
        },
        None => out.append("null"),
    }
    out.append("}");
    out
}

/// A frame built from its kind and the payload field that the kind uses; the
/// other field is taken as absent.
pub open spec fn normalized(k: MsgTypes, data_array: Option<Seq<Seq<char>>>, data: Option<Seq<char>>) -> FrameView {
    match k {
        MsgTypes::Users => FrameView { kind: k, data_array: data_array, data: None },
        _ => FrameView { kind: k, data_array: None, data: data },
    }
}

/// The envelope that the decoded fields of an inbound object stand for.
pub open spec fn decoded(t: Seq<char>, data_array: Option<Seq<Seq<char>>>, data: Option<Seq<char>>) -> Result<FrameView, DecodeError> {
    match kind_of_tag(t) {
        Some(k) => Ok(normalized(k, data_array, data)),
        None => Err(DecodeError::UnknownType),
    }
}

pub open spec fn frame_result_view(r: Result<WebSocketMessage, DecodeError>) -> Result<FrameView, DecodeError> {
    match r {
        Ok(m) => Ok(m@),
        Err(e) => Err(e),
    }
}

/// Builds the envelope from the three fields of an inbound JSON object: the
/// kind's wire name must be one of the three, and the payload field that the
/// kind does not use is dropped.
pub fn decode_fields(message_type: &str, data_array: Option<Vec<String>>, data: Option<String>) -> (r: Result<WebSocketMessage, DecodeError>)
    ensures
        frame_result_view(r) == decoded(message_type@, opt_strings_view(data_array), opt_string_view(data)),
{
    match MsgTypes::from_tag(message_type) {
        None => Err(DecodeError::UnknownType),
        Some(MsgTypes::Users) => Ok(WebSocketMessage { message_type: MsgTypes::Users, data_array, data: None }),
        Some(k) => Ok(WebSocketMessage { message_type: k, data_array: None, data }),
    }
}

/// Every kind's wire name reads back as that kind.
pub proof fn lemma_tag_inverse(k: MsgTypes)
    ensures
        kind_of_tag(tag(k)) == Some(k),
{
    reveal_strlit("users");
    reveal_strlit("register");
    reveal_strlit("message");
    assert("users"@.len() == 5);
    assert("register"@.len() == 8);
    assert("message"@.len() == 7);
}

/// Decoding undoes encoding: the kind's wire name and the payload fields of a
/// well-formed envelope give that envelope back.
pub proof fn lemma_decode_inverts_encode(f: FrameView)
    requires
        well_formed(f),
    ensures
        decoded(tag(f.kind), f.data_array, f.data) == Ok::<FrameView, DecodeError>(f),
{
    lemma_tag_inverse(f.kind);
}

/// The value under `key` in the first field that has that key.
pub open spec fn field_value(fields: Seq<(Seq<char>, Seq<char>)>, key: Seq<char>) -> Option<Seq<char>>
    decreases fields.len(),
{
    if fields.len() == 0 {
        None
    } else if fields[0].0 == key {
        Some(fields[0].1)
    } else {
        field_value(fields.drop_first(), key)
    }
}

/// The `{from, message}` record that the text `s` holds, if it holds one:
/// a JSON object with a string under each of the two keys.
pub open spec fn payload_of(s: Seq<char>) -> Option<(Seq<char>, Seq<char>)> {
    match json_raw_fields(s) {
        None => None,
        Some(fields) => match (field_value(fields, "from"@), field_value(fields, "message"@)) {
            (Some(a), Some(b)) => match (json_string(a), json_string(b)) {
                (Some(x), Some(y)) => Some((x, y)),
                _ => None,
            },
            _ => None,
        },
    }
}

/// The value under `key` read as a string or `null`; a missing key reads as `null`.
pub open spec fn string_field(fields: Seq<(Seq<char>, Seq<char>)>, key: Seq<char>) -> Option<Option<Seq<char>>> {
    match field_value(fields, key) {
        None => Some(None),
        Some(raw) => json_opt_string(raw),
    }
}

/// The value under `key` read as an array of strings or `null`; a missing
/// key reads as `null`.
pub open spec fn strings_field(fields: Seq<(Seq<char>, Seq<char>)>, key: Seq<char>) -> Option<Option<Seq<Seq<char>>>> {
    match field_value(fields, key) {
        None => Some(None),
        Some(raw) => json_opt_strings(raw),
    }
}

/// The envelope that an inbound frame's text stands for: a JSON object with
/// a string `messageType`, and `dataArray` and `data` each absent, `null` or
/// of its type. Anything else is malformed.
pub open spec fn frame_of_text(s: Seq<char>) -> Result<FrameView, DecodeError> {
    match json_raw_fields(s) {
        None => Err(DecodeError::Malformed),
        Some(f) => match (field_value(f, "messageType"@), strings_field(f, "dataArray"@), string_field(f, "data"@)) {
            (Some(t), Some(a), Some(d)) => match json_string(t) {
                Some(name) => decoded(name, a, d),
                None => Err(DecodeError::Malformed),
            },
            _ => Err(DecodeError::Malformed),
        },
    }
}

/// A chat line as it arrives: who sent it and what it says.
pub struct MessageData {
    pub from: String,
    pub message: String,
}

impl View for MessageData {
    type V = (Seq<char>, Seq<char>);

    open spec fn view(&self) -> (Seq<char>, Seq<char>) {
        (self.from@, self.message@)
    }
}

fn find_field(fields: &Vec<(String, String)>, key: &str) -> (r: Option<String>)
    ensures
        opt_string_view(r) == field_value(pairs_view(fields@), key@),
{
    let ghost pv = pairs_view(fields@);
    let k = String::from_str(key);
    let mut i: usize = 0;
    assert(pv.subrange(0, pv.len() as int) =~= pv);
    while i < fields.len()
        invariant
            i <= fields.len(),
            pv == pairs_view(fields@),
            k@ == key@,
            field_value(pv, key@) == field_value(pv.subrange(i as int, pv.len() as int), key@),
        decreases fields.len() - i,
    {
        assert(pv.subrange(i as int, pv.len() as int).drop_first() =~= pv.subrange(i + 1, pv.len() as int));
        if fields[i].0 == k {
            return Some(fields[i].1.clone());
        }
        i = i + 1;
    }
    None
}

fn read_string_field(fields: &Vec<(String, String)>, key: &str) -> (r: Option<String>)
    ensures
        opt_string_view(r) == match field_value(pairs_view(fields@), key@) {
            Some(raw) => json_string(raw),
            None => None,
        },
{
    match find_field(fields, key) {
        Some(raw) => parse_string(raw.as_str()),
        None => None,
    }
}

/// Reads the `{from, message}` record that a chat frame's `data` holds.
pub fn decode_message_data(s: &str) -> (r: Result<MessageData, DecodeError>)
    ensures
        match payload_of(s@) {
            Some(p) => r is Ok && r->Ok_0@ == p,
            None => r == Err::<MessageData, DecodeError>(DecodeError::BadPayload),
        },
{
    match parse_raw_fields(s) {
        None => Err(DecodeError::BadPayload),
        Some(fields) => {
            let from = read_string_field(&fields, "from");
            let message = read_string_field(&fields, "message");
            match (from, message) {
                (Some(from), Some(message)) => Ok(MessageData { from, message }),
                _ => Err(DecodeError::BadPayload),
            }
        },
    }
}

/// Decodes an inbound frame's text into an envelope.
pub fn decode(s: &str) -> (r: Result<WebSocketMessage, DecodeError>)
    ensures
        frame_result_view(r) == frame_of_text(s@),
{
    let fields = match parse_raw_fields(s) {
        None => return Err(DecodeError::Malformed),
        Some(f) => f,
    };
    let name = match find_field(&fields, "messageType") {
        None => return Err(DecodeError::Malformed),
        Some(raw) => raw,
    };
    let data_array = match find_field(&fields, "dataArray") {
        None => None,
        Some(raw) => match parse_opt_strings(raw.as_str()) {
            None => return Err(DecodeError::Malformed),
            Some(a) => a,
        },
    };
    let data = match find_field(&fields, "data") {
        None => None,
        Some(raw) => match parse_opt_string(raw.as_str()) {
            None => return Err(DecodeError::Malformed),
            Some(d) => d,
        },
    };
    match parse_string(name.as_str()) {
        None => Err(DecodeError::Malformed),
        Some(t) => decode_fields(t.as_str(), data_array, data),
    }
}

} // verus!
