//! The chat surface's state: the roster, the transcript and the frames sent,
//! and the rules that move it on each inbound frame and each user action.
use vstd::prelude::*;
use vstd::string::StringExecFns;
use crate::protocol::{
    build_chat_message, build_register, decode, decode_message_data, encode, encoded, field_value,
    frame_of_text, frame_result_view, payload_of, DecodeError, FrameView, MessageData, MsgTypes,
    WebSocketMessage,
};

verus! {

/// The avatar that every roster entry is given.
pub open spec fn placeholder_avatar() -> Seq<char> {
    "https://www.svgrepo.com/show/71148/avatar.svg"@
}

/// A user who is present, and the picture shown beside them.
pub struct UserProfile {
    pub name: String,
    pub avatar: String,
}

impl View for UserProfile {
    type V = (Seq<char>, Seq<char>);

    open spec fn view(&self) -> (Seq<char>, Seq<char>) {
        (self.name@, self.avatar@)
    }
}

/// What an inbound frame asks of the state.
pub enum Outcome {
    /// Replace the roster by these names, in this order.
    Roster(Seq<Seq<char>>),
    /// Append this `(from, message)` record to the transcript.
    Append((Seq<char>, Seq<char>)),
    /// Nothing to do.
    Ignore,
    /// Drop the frame and report the error.
    Reject(DecodeError),
}

pub open spec fn users_of(f: FrameView) -> Seq<Seq<char>> {
    match f.data_array {
        Some(a) => a,
        None => Seq::empty(),
    }
}

/// The effect that an inbound frame, or the failure to decode one, has.
pub open spec fn outcome(frame: Result<FrameView, DecodeError>) -> Outcome {
    match frame {
        Err(e) => Outcome::Reject(e),
        Ok(f) => match f.kind {
            MsgTypes::Users => Outcome::Roster(users_of(f)),
            MsgTypes::Register => Outcome::Ignore,
            MsgTypes::Message => match f.data {
                None => Outcome::Reject(DecodeError::BadPayload),
                Some(d) => match payload_of(d) {
                    Some(p) => Outcome::Append(p),
                    None => Outcome::Reject(DecodeError::BadPayload),
                },
            },
        },
    }
}

/// The roster and transcript after one inbound frame.
pub open spec fn step(
    state: (Seq<Seq<char>>, Seq<(Seq<char>, Seq<char>)>),
    frame: Result<FrameView, DecodeError>,
) -> (Seq<Seq<char>>, Seq<(Seq<char>, Seq<char>)>) {
    match outcome(frame) {
        Outcome::Roster(names) => (names, state.1),
        Outcome::Append(p) => (state.0, state.1.push(p)),
        _ => state,
    }
}

/// The roster and transcript after a run of inbound frames, in order.
pub open spec fn run(
    state: (Seq<Seq<char>>, Seq<(Seq<char>, Seq<char>)>),
    frames: Seq<Result<FrameView, DecodeError>>,
) -> (Seq<Seq<char>>, Seq<(Seq<char>, Seq<char>)>)
    decreases frames.len(),
{
    if frames.len() == 0 {
        state
    } else {
        step(run(state, frames.drop_last()), frames.last())
    }
}

/// Whatever the roster was and whatever roster frames came before, after a
/// run of roster frames the roster is the list that the last one carried.
pub proof fn lemma_roster_is_last_users_frame(
    state: (Seq<Seq<char>>, Seq<(Seq<char>, Seq<char>)>),
    frames: Seq<Result<FrameView, DecodeError>>,
)
    requires
        frames.len() > 0,
        forall|i: int| 0 <= i < frames.len() ==> (#[trigger] frames[i]) is Ok && frames[i]->Ok_0.kind == MsgTypes::Users,
    ensures
        run(state, frames).0 == users_of(frames.last()->Ok_0),
{
    assert(frames.last() == frames[frames.len() - 1]);
}

/// A chat frame with a readable payload adds exactly one line to the
/// transcript, the decoded record, and leaves the roster as it was.
pub proof fn lemma_message_appends_one(
    state: (Seq<Seq<char>>, Seq<(Seq<char>, Seq<char>)>),
    f: FrameView,
)
    requires
        f.kind == MsgTypes::Message,
        f.data is Some,
        payload_of(f.data->0) is Some,
    ensures
        step(state, Ok(f)).1.len() == state.1.len() + 1,
        step(state, Ok(f)).1.last() == payload_of(f.data->0)->0,
        step(state, Ok(f)).0 == state.0,
{
}

/// A frame that failed to decode, or whose payload cannot be read, leaves
/// the roster and transcript as they were.
pub proof fn lemma_rejected_frame_changes_nothing(
    state: (Seq<Seq<char>>, Seq<(Seq<char>, Seq<char>)>),
    frame: Result<FrameView, DecodeError>,
)
    requires
        outcome(frame) is Reject,
    ensures
        step(state, frame) == state,
{
}

/// What the host is to do after one step: redraw, send a frame, log an error.
pub struct Effect {
    pub refresh: bool,
    pub outbound: Option<String>,
    pub error: Option<DecodeError>,
}

/// How one inbound frame moved the state from `before` to `after`, and what
/// it asks of the host: roster and transcript move by `step`, nothing is
/// sent, a redraw follows a roster or transcript change, and a dropped frame
/// reports exactly one error.
pub open spec fn reconciled(before: Chat, after: Chat, r: Effect, frame: Result<FrameView, DecodeError>) -> bool {
    &&& after.sent() == before.sent()
    &&& r.outbound is None
    &&& (after.roster(), after.transcript()) == step((before.roster(), before.transcript()), frame)
    &&& match outcome(frame) {
        Outcome::Roster(names) => {
            &&& after.roster() == names
            &&& after.transcript() == before.transcript()
            &&& r.refresh && r.error is None
        },
        Outcome::Append(p) => {
            &&& after.transcript() == before.transcript().push(p)
            &&& after.profiles() == before.profiles()
            &&& r.refresh && r.error is None
        },
        Outcome::Ignore => {
            &&& after.transcript() == before.transcript()
            &&& after.profiles() == before.profiles()
            &&& !r.refresh && r.error is None
        },
        Outcome::Reject(e) => {
            &&& after.transcript() == before.transcript()
            &&& after.profiles() == before.profiles()
            &&& !r.refresh && r.error == Some(e)
        },
    }
}

/// The events that drive the chat surface.
pub enum Msg {
    /// An inbound frame's text, as it came from the socket.
    HandleMsg(String),
    /// The user sends this text.
    SubmitMessage(String),
}

/// The state of one chat session.
pub struct Chat {
    users: Vec<UserProfile>,
    messages: Vec<MessageData>,
    sent: Ghost<Seq<FrameView>>,
}

pub open spec fn register_frame(name: Seq<char>) -> FrameView {
    FrameView { kind: MsgTypes::Register, data_array: None, data: Some(name) }
}

pub open spec fn chat_frame(text: Seq<char>) -> FrameView {
    FrameView { kind: MsgTypes::Message, data_array: None, data: Some(text) }
}

impl Chat {
    /// The roster as `(name, avatar)` pairs, in display order.
    pub closed spec fn profiles(&self) -> Seq<(Seq<char>, Seq<char>)> {
        self.users@.map_values(|u: UserProfile| u@)
    }

    /// The names on the roster, in display order.
    pub open spec fn roster(&self) -> Seq<Seq<char>> {
        self.profiles().map_values(|p: (Seq<char>, Seq<char>)| p.0)
    }

    /// The transcript as `(from, message)` records, in order of receipt.
    pub closed spec fn transcript(&self) -> Seq<(Seq<char>, Seq<char>)> {
        self.messages@.map_values(|m: MessageData| m@)
    }

    /// Every frame this session has handed out to send, in order.
    pub closed spec fn sent(&self) -> Seq<FrameView> {
        self.sent@
    }

    /// Every roster entry carries the placeholder avatar, and the session
    /// announced itself first and only then sent chat lines.
    pub open spec fn wf(&self) -> bool {
        &&& forall|i: int| 0 <= i < self.profiles().len() ==> #[trigger] self.profiles()[i].1 == placeholder_avatar()
        &&& self.sent().len() >= 1
        &&& self.sent()[0].kind == MsgTypes::Register
        &&& forall|i: int| 1 <= i < self.sent().len() ==> #[trigger] self.sent()[i].kind == MsgTypes::Message
    }

    /// Opens a session for `username`: empty roster and transcript, and the
    /// register frame, which is the first and only one the session sends.
    pub fn create(username: &str) -> (r: (Chat, String))
        ensures
            r.0.wf(),
            r.0.roster() == Seq::<Seq<char>>::empty(),
            r.0.transcript() == Seq::<(Seq<char>, Seq<char>)>::empty(),
            r.0.sent() == seq![register_frame(username@)],
            r.1@ == encoded(register_frame(username@)),
    {
        let m = build_register(username);
        let text = encode(&m);
        let ghost first = seq![m@];
        let c = Chat { users: Vec::new(), messages: Vec::new(), sent: Ghost(first) };
        proof {
            assert(c.profiles() =~= Seq::<(Seq<char>, Seq<char>)>::empty());
            assert(c.roster() =~= Seq::<Seq<char>>::empty());
            assert(c.transcript() =~= Seq::<(Seq<char>, Seq<char>)>::empty());
        }
        (c, text)
    }

    /// Applies one inbound frame, or the failure to decode one. A roster
    /// frame replaces the roster wholesale; a chat frame whose payload reads
    /// as a record appends it; a register frame changes nothing; anything
    /// else leaves the state as it was and reports one error.
    pub fn handle_frame(&mut self, frame: Result<WebSocketMessage, DecodeError>) -> (r: Effect)
        requires
            old(self).wf(),
        ensures
            final(self).wf(),
            reconciled(*old(self), *final(self), r, frame_result_view(frame)),
    {
        match frame {
            Err(e) => Effect { refresh: false, outbound: None, error: Some(e) },
            Ok(m) => match m.message_type {
                MsgTypes::Register => Effect { refresh: false, outbound: None, error: None },
                MsgTypes::Users => {
                    let ghost f = m@;
                    let names = match m.data_array {
                        Some(a) => a,
                        None => Vec::new(),
                    };
                    assert(crate::protocol::strings_view(names@) =~= users_of(f));
                    self.replace_roster(&names);
                    Effect { refresh: true, outbound: None, error: None }
                },
                MsgTypes::Message => match m.data {
                    None => Effect { refresh: false, outbound: None, error: Some(DecodeError::BadPayload) },
                    Some(d) => match decode_message_data(d.as_str()) {
                        Ok(md) => {
                            self.messages.push(md);
                            proof {
                                assert(self.transcript() =~= old(self).transcript().push(md@));
                                assert(self.profiles() == old(self).profiles());
                                assert(self.sent() == old(self).sent());
                            }
                            Effect { refresh: true, outbound: None, error: None }
                        },
                        Err(e) => Effect { refresh: false, outbound: None, error: Some(e) },
                    },
                },
            },
        }
    }

    fn replace_roster(&mut self, names: &Vec<String>)
        requires
            old(self).wf(),
        ensures
            final(self).wf(),
            final(self).sent() == old(self).sent(),
            final(self).transcript() == old(self).transcript(),
            final(self).roster() == crate::protocol::strings_view(names@),
    {
        let mut users: Vec<UserProfile> = Vec::new();
        let mut i: usize = 0;
        while i < names.len()
            invariant
                i <= names.len(),
                users@.len() == i,
                forall|j: int| 0 <= j < i ==> #[trigger] users@[j]@ == (names@[j]@, placeholder_avatar()),
            decreases names.len() - i,
        {
            let avatar = String::from_str("https://www.svgrepo.com/show/71148/avatar.svg");
            users.push(UserProfile { name: names[i].clone(), avatar });
            i = i + 1;
        }
        self.users = users;
        proof {
            assert(self.roster() =~= crate::protocol::strings_view(names@));
        }
    }

    /// Hands out the chat frame for `text`, any text, the empty one too; the
    /// roster and transcript stay as they are.
    pub fn submit_message(&mut self, text: &str) -> (r: String)
        requires
            old(self).wf(),
        ensures
            final(self).wf(),
            final(self).sent() == old(self).sent().push(chat_frame(text@)),
            final(self).profiles() == old(self).profiles(),
            final(self).transcript() == old(self).transcript(),
            r@ == encoded(chat_frame(text@)),
    {
        let m = build_chat_message(text);
        let ghost next = self.sent@.push(m@);
        self.sent = Ghost(next);
        proof {
            assert(self.sent() == old(self).sent().push(m@));
            assert(self.sent()[0] == old(self).sent()[0]);
            assert(self.profiles() == old(self).profiles());
            assert forall|i: int| 1 <= i < self.sent().len() implies #[trigger] self.sent()[i].kind == MsgTypes::Message by {
                if i < old(self).sent().len() {
                    assert(self.sent()[i] == old(self).sent()[i]);
                }
            }
        }
        encode(&m)
    }

    /// One step of the session: an inbound frame is reconciled, a user's text
    /// is turned into a frame to send, which needs no redraw.
    pub fn update(&mut self, msg: Msg) -> (r: Effect)
        requires
            old(self).wf(),
        ensures
            final(self).wf(),
            match msg {
                Msg::HandleMsg(text) => reconciled(*old(self), *final(self), r, frame_of_text(text@)),
                Msg::SubmitMessage(text) => {
                    &&& final(self).sent() == old(self).sent().push(chat_frame(text@))
                    &&& final(self).profiles() == old(self).profiles()
                    &&& final(self).transcript() == old(self).transcript()
                    &&& r.outbound is Some && r.outbound->0@ == encoded(chat_frame(text@))
                    &&& !r.refresh && r.error is None
                },
            },
    {
        match msg {
            Msg::HandleMsg(text) => self.handle_frame(decode(text.as_str())),
            Msg::SubmitMessage(text) => {
                let out = self.submit_message(text.as_str());
                Effect { refresh: false, outbound: Some(out), error: None }
            },
        }
    }

    /// The avatar of the first roster entry named `from`, or `None` where no
    /// entry has that name: a sender who is not present is a miss, not a fault.
    pub fn avatar_of(&self, from: &str) -> (r: Option<String>)
        ensures
            crate::protocol::opt_string_view(r) == field_value(self.profiles(), from@),
    {
        let ghost pv = self.profiles();
        let k = String::from_str(from);
        let mut i: usize = 0;
        assert(pv.subrange(0, pv.len() as int) =~= pv);
        while i < self.users.len()
            invariant
                i <= self.users.len(),
                pv == self.profiles(),
                k@ == from@,
                field_value(pv, from@) == field_value(pv.subrange(i as int, pv.len() as int), from@),
            decreases self.users.len() - i,
        {
            assert(pv.subrange(i as int, pv.len() as int).drop_first() =~= pv.subrange(i + 1, pv.len() as int));
            if self.users[i].name == k {
                return Some(self.users[i].avatar.clone());
            }
            i = i + 1;
        }
        None
    }

    /// The transcript as it is shown: each line with its sender's avatar, if
    /// the sender is on the roster, and whether the line is a picture link.
    pub fn message_rows(&self) -> (r: Vec<MessageRow>)
        ensures
            r@.len() == self.transcript().len(),
            forall|i: int| 0 <= i < r@.len() ==> {
                &&& (#[trigger] r@[i]).from@ == self.transcript()[i].0
                &&& r@[i].message@ == self.transcript()[i].1
                &&& crate::protocol::opt_string_view(r@[i].avatar) == field_value(self.profiles(), self.transcript()[i].0)
                &&& r@[i].is_image == is_image_link(self.transcript()[i].1)
            },
    {
        let mut rows: Vec<MessageRow> = Vec::new();
        let mut i: usize = 0;
        while i < self.messages.len()
            invariant
                i <= self.messages.len(),
                rows@.len() == i,
                forall|j: int| 0 <= j < i ==> {
                    &&& (#[trigger] rows@[j]).from@ == self.transcript()[j].0
                    &&& rows@[j].message@ == self.transcript()[j].1
                    &&& crate::protocol::opt_string_view(rows@[j].avatar) == field_value(self.profiles(), self.transcript()[j].0)
                    &&& rows@[j].is_image == is_image_link(self.transcript()[j].1)
                },
            decreases self.messages.len() - i,
        {
            let m = &self.messages[i];
            let avatar = self.avatar_of(m.from.as_str());
            let is_image = ends_with(m.message.as_str(), ".gif");
            rows.push(MessageRow { from: m.from.clone(), message: m.message.clone(), avatar, is_image });
            i = i + 1;
        }
        rows
    }

    /// The roster, in display order.
    pub fn users(&self) -> (r: &Vec<UserProfile>)
        ensures
            r@.map_values(|u: UserProfile| u@) == self.profiles(),
    {
        &self.users
    }

    /// The transcript, in order of receipt.
    pub fn messages(&self) -> (r: &Vec<MessageData>)
        ensures
            r@.map_values(|m: MessageData| m@) == self.transcript(),
    {
        &self.messages
    }
}

/// A transcript line ready to be drawn.
pub struct MessageRow {
    pub from: String,
    pub message: String,
    /// `None` where the sender is not on the roster.
    pub avatar: Option<String>,
    pub is_image: bool,
}

pub open spec fn has_suffix(s: Seq<char>, suffix: Seq<char>) -> bool {
    suffix.len() <= s.len() && s.subrange(s.len() - suffix.len(), s.len() as int) == suffix
}

/// A line that is a link to a GIF is shown as a picture.
pub open spec fn is_image_link(m: Seq<char>) -> bool {
    has_suffix(m, ".gif"@)
}

/// Whether `s` ends with `suffix`.
pub fn ends_with(s: &str, suffix: &str) -> (r: bool)
    ensures
        r == has_suffix(s@, suffix@),
{
    let n = s.unicode_len();
    let k = suffix.unicode_len();
    if k > n {
        return false;
    }
    let mut i: usize = 0;
    while i < k
        invariant
            n == s@.len(),
            k == suffix@.len(),
            k <= n,
            i <= k,
            forall|j: int| 0 <= j < i ==> s@[n - k + j] == suffix@[j],
        decreases k - i,
    {
        if s.get_char(n - k + i) != suffix.get_char(i) {
            assert(s@.subrange(n - k, n as int)[i as int] != suffix@[i as int]);
            return false;
        }
        i = i + 1;
    }
    assert(s@.subrange(n - k, n as int) =~= suffix@);
    true
}

/// A session sends its register frame exactly once: it is the first frame
/// handed out, and no later one is a register frame.
pub proof fn lemma_register_sent_once(c: &Chat)
    requires
        c.wf(),
    ensures
        c.sent().len() >= 1,
        c.sent()[0].kind == MsgTypes::Register,
        forall|i: int| 1 <= i < c.sent().len() ==> #[trigger] c.sent()[i].kind != MsgTypes::Register,
{
    assert forall|i: int| 1 <= i < c.sent().len() implies #[trigger] c.sent()[i].kind != MsgTypes::Register by {
        assert(c.sent()[i].kind == MsgTypes::Message);
    }
}

proof fn lemma_field_value_some(fields: Seq<(Seq<char>, Seq<char>)>, key: Seq<char>)
    ensures
        field_value(fields, key) is Some <==> exists|i: int| 0 <= i < fields.len() && #[trigger] fields[i].0 == key,
    decreases fields.len(),
{
    if fields.len() > 0 {
        lemma_field_value_some(fields.drop_first(), key);
        if fields[0].0 != key {
            if exists|i: int| 0 <= i < fields.len() && #[trigger] fields[i].0 == key {
                let i = choose|i: int| 0 <= i < fields.len() && #[trigger] fields[i].0 == key;
                assert(fields.drop_first()[i - 1].0 == key);
            }
            if field_value(fields, key) is Some {
                let j = choose|j: int| 0 <= j < fields.len() - 1 && #[trigger] fields.drop_first()[j].0 == key;
                assert(fields[j + 1].0 == key);
            }
        }
    }
}

/// The avatar lookup for a sender misses exactly when the sender is not on
/// the roster; a miss is an answer of its own, not a fault.
pub proof fn lemma_lookup_misses_absent_sender(c: &Chat, from: Seq<char>)
    ensures
        field_value(c.profiles(), from) is None <==> !c.roster().contains(from),
{
    lemma_field_value_some(c.profiles(), from);
    if c.roster().contains(from) {
        let i = choose|i: int| 0 <= i < c.roster().len() && c.roster()[i] == from;
        assert(c.profiles()[i].0 == from);
    }
    if exists|i: int| 0 <= i < c.profiles().len() && #[trigger] c.profiles()[i].0 == from {
        let i = choose|i: int| 0 <= i < c.profiles().len() && #[trigger] c.profiles()[i].0 == from;
        assert(c.roster()[i] == from);
    }
}

} // verus!
