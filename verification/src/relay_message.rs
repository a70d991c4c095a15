//! The messages that a peer and the relay exchange, and their framing as
//! JSON objects. A frame is checked whole before a message comes out of it:
//! its type must be known, it must hold the members that the type requires
//! and no others, and what it carries must be well formed.

use vstd::prelude::*;
use crate::compare::text_equal;
use crate::encoding::{
    base64_bytes,
    base64_decode,
    base64_encode,
    base64_text,
    field_value,
    json_object_decode,
    json_object_encode,
    json_object_parsed,
    json_object_text,
    names_are_distinct,
};
use crate::error::{ErrorKind, RemoteSignError};
use crate::public_key::{spki_is_well_formed, PeerPublicKey};

verus! {

/// The kind of a relay message.
#[derive(Clone, Copy, Debug, PartialEq, Eq, Structural)]
pub enum MessageKind {
    /// A peer asks the relay for a new session.
    CreateSession,
    /// A peer asks the relay to join a session, and gives its public key.
    JoinSession,
    /// The relay tells a peer that its counterpart is there, with the
    /// counterpart's public key.
    PeerJoined,
    /// Bytes from one peer for the other.
    RelayPayload,
    /// The relay reports an error.
    Error,
}

/// A message exchanged with the relay.
#[derive(Debug)]
pub enum RelayMessage {
    CreateSession,
    JoinSession { public_key: PeerPublicKey },
    PeerJoined { public_key: PeerPublicKey },
    RelayPayload { data: Vec<u8> },
    Error { message: String },
}

/// A relay message as a mathematical value.
pub ghost enum MessageView {
    CreateSession,
    JoinSession { public_key: Seq<u8> },
    PeerJoined { public_key: Seq<u8> },
    RelayPayload { data: Seq<u8> },
    Error { message: Seq<char> },
}

impl View for RelayMessage {
    type V = MessageView;

    open spec fn view(&self) -> MessageView {
        match self {
            RelayMessage::CreateSession => MessageView::CreateSession,
            RelayMessage::JoinSession { public_key } => MessageView::JoinSession {
                public_key: public_key@,
            },
            RelayMessage::PeerJoined { public_key } => MessageView::PeerJoined {
                public_key: public_key@,
            },
            RelayMessage::RelayPayload { data } => MessageView::RelayPayload { data: data@ },
            RelayMessage::Error { message } => MessageView::Error { message: message@ },
        }
    }
}

impl MessageView {
    /// The kind of the message.
    pub open spec fn kind(self) -> MessageKind {
        match self {
            MessageView::CreateSession => MessageKind::CreateSession,
            MessageView::JoinSession { .. } => MessageKind::JoinSession,
            MessageView::PeerJoined { .. } => MessageKind::PeerJoined,
            MessageView::RelayPayload { .. } => MessageKind::RelayPayload,
            MessageView::Error { .. } => MessageKind::Error,
        }
    }
}

/// The name of the member that holds the type of a message.
pub open spec fn type_member() -> Seq<char> {
    "type"@
}

impl MessageKind {
    /// The name of the kind on the wire.
    pub open spec fn spec_wire_name(self) -> Seq<char> {
        match self {
            MessageKind::CreateSession => "create-session"@,
            MessageKind::JoinSession => "join-session"@,
            MessageKind::PeerJoined => "peer-joined"@,
            MessageKind::RelayPayload => "relay-payload"@,
            MessageKind::Error => "error"@,
        }
    }

    /// The kind that a name on the wire stands for, if it stands for one.
    pub open spec fn named(name: Seq<char>) -> Option<MessageKind> {
        if name == "create-session"@ {
            Some(MessageKind::CreateSession)
        } else if name == "join-session"@ {
            Some(MessageKind::JoinSession)
        } else if name == "peer-joined"@ {
            Some(MessageKind::PeerJoined)
        } else if name == "relay-payload"@ {
            Some(MessageKind::RelayPayload)
        } else if name == "error"@ {
            Some(MessageKind::Error)
        } else {
            None
        }
    }

    /// The member that a message of this kind carries beside its type, if
    /// it carries one.
    pub open spec fn spec_carried_member(self) -> Option<Seq<char>> {
        match self {
            MessageKind::CreateSession => None,
            MessageKind::JoinSession => Some("public_key"@),
            MessageKind::PeerJoined => Some("public_key"@),
            MessageKind::RelayPayload => Some("data"@),
            MessageKind::Error => Some("message"@),
        }
    }

    /// How many members a frame of this kind has.
    pub open spec fn member_count(self) -> nat {
        if self.spec_carried_member() is Some {
            2
        } else {
            1
        }
    }

    /// The name of the kind on the wire.
    pub fn wire_name(self) -> (name: &'static str)
        ensures
            name@ == self.spec_wire_name(),
    {
        match self {
            MessageKind::CreateSession => "create-session",
            MessageKind::JoinSession => "join-session",
            MessageKind::PeerJoined => "peer-joined",
            MessageKind::RelayPayload => "relay-payload",
            MessageKind::Error => "error",
        }
    }

    /// The kind that a name on the wire stands for, if it stands for one.
    pub fn from_wire_name(name: &str) -> (kind: Option<MessageKind>)
        ensures
            kind == MessageKind::named(name@),
    {
        if text_equal(name, "create-session") {
            Some(MessageKind::CreateSession)
        } else if text_equal(name, "join-session") {
            Some(MessageKind::JoinSession)
        } else if text_equal(name, "peer-joined") {
            Some(MessageKind::PeerJoined)
        } else if text_equal(name, "relay-payload") {
            Some(MessageKind::RelayPayload)
        } else if text_equal(name, "error") {
            Some(MessageKind::Error)
        } else {
            None
        }
    }

    /// The member that a message of this kind carries beside its type, if
    /// it carries one.
    pub fn carried_member(self) -> (member: Option<&'static str>)
        ensures
            match member {
                Some(name) => self.spec_carried_member() == Some(name@),
                None => self.spec_carried_member() is None,
            },
    {
        match self {
            MessageKind::CreateSession => None,
            MessageKind::JoinSession => Some("public_key"),
            MessageKind::PeerJoined => Some("public_key"),
            MessageKind::RelayPayload => Some("data"),
            MessageKind::Error => Some("message"),
        }
    }
}

/// Every kind is found again under its name on the wire.
pub proof fn wire_names_are_distinct(kind: MessageKind)
    ensures
        MessageKind::named(kind.spec_wire_name()) == Some(kind),
{
    reveal_strlit("create-session");
    reveal_strlit("join-session");
    reveal_strlit("peer-joined");
    reveal_strlit("relay-payload");
    reveal_strlit("error");
    assert("create-session"@.len() == 14);
    assert("join-session"@.len() == 12);
    assert("peer-joined"@.len() == 11);
    assert("relay-payload"@.len() == 13);
    assert("error"@.len() == 5);
}

/// No carried member is called like the member that holds the type.
pub proof fn carried_member_is_not_the_type(kind: MessageKind)
    ensures
        kind.spec_carried_member() matches Some(name) ==> name != type_member(),
{
    reveal_strlit("type");
    reveal_strlit("public_key");
    reveal_strlit("data");
    reveal_strlit("message");
    assert("type"@[0] == 't');
    assert("data"@[0] == 'd');
}

/// The text that a message carries in its member, where it carries one.
pub open spec fn carried_text(message: MessageView) -> Seq<char> {
    match message {
        MessageView::CreateSession => Seq::empty(),
        MessageView::JoinSession { public_key } => base64_text(public_key),
        MessageView::PeerJoined { public_key } => base64_text(public_key),
        MessageView::RelayPayload { data } => base64_text(data),
        MessageView::Error { message } => message,
    }
}

/// The members of the frame of a message: its type, then what it carries.
pub open spec fn members_of(message: MessageView) -> Seq<(Seq<char>, Seq<char>)> {
    match message.kind().spec_carried_member() {
        None => seq![(type_member(), message.kind().spec_wire_name())],
        Some(name) => seq![
            (type_member(), message.kind().spec_wire_name()),
            (name, carried_text(message)),
        ],
    }
}

/// The frame of a message.
pub open spec fn frame_of(message: MessageView) -> Seq<u8> {
    json_object_text(members_of(message))
}

/// The message of the given kind that carries the given text, or the reason
/// why there is none.
pub open spec fn message_carrying(kind: MessageKind, text: Seq<char>) -> Result<
    MessageView,
    ErrorKind,
> {
    match kind {
        MessageKind::CreateSession => Ok(MessageView::CreateSession),
        MessageKind::Error => Ok(MessageView::Error { message: text }),
        MessageKind::RelayPayload => match base64_bytes(text) {
            None => Err(ErrorKind::Base64),
            Some(data) => Ok(MessageView::RelayPayload { data }),
        },
        _ => match base64_bytes(text) {
            None => Err(ErrorKind::Base64),
            Some(der) => if !spki_is_well_formed(der) {
                Err(ErrorKind::Spki)
            } else if kind == MessageKind::JoinSession {
                Ok(MessageView::JoinSession { public_key: der })
            } else {
                Ok(MessageView::PeerJoined { public_key: der })
            },
        },
    }
}

/// The message that the members of a frame stand for, or the reason why
/// they stand for none. A frame without a type, of an unknown type, with a
/// member too many or without the member that its type requires is an
/// unexpected message.
pub open spec fn message_of_members(members: Seq<(Seq<char>, Seq<char>)>) -> Result<
    MessageView,
    ErrorKind,
> {
    match field_value(members, type_member()) {
        None => Err(ErrorKind::ServerUnexpectedMessage),
        Some(name) => match MessageKind::named(name) {
            None => Err(ErrorKind::ServerUnexpectedMessage),
            Some(kind) => if members.len() != kind.member_count() {
                Err(ErrorKind::ServerUnexpectedMessage)
            } else {
                match kind.spec_carried_member() {
                    None => message_carrying(kind, Seq::empty()),
                    Some(member) => match field_value(members, member) {
                        None => Err(ErrorKind::ServerUnexpectedMessage),
                        Some(text) => message_carrying(kind, text),
                    },
                }
            },
        },
    }
}

/// What the detail of an unexpected message says: the type that the frame
/// names, where it names one.
pub open spec fn unexpected_detail(members: Seq<(Seq<char>, Seq<char>)>) -> Seq<char> {
    match field_value(members, type_member()) {
        None => "message without a type"@,
        Some(name) => name,
    }
}

/// The message that a frame stands for, or the reason why it stands for
/// none.
pub open spec fn message_decoded(frame: Seq<u8>) -> Result<MessageView, ErrorKind> {
    match json_object_parsed(frame) {
        None => Err(ErrorKind::SerdeJson),
        Some(members) => message_of_members(members),
    }
}

/// Whether the outcome of reading a message is the expected one.
pub open spec fn message_outcome_is(
    outcome: Result<RelayMessage, RemoteSignError>,
    expected: Result<MessageView, ErrorKind>,
) -> bool {
    match outcome {
        Ok(message) => expected == Ok::<MessageView, ErrorKind>(message@),
        Err(error) => expected == Err::<MessageView, ErrorKind>(error.spec_kind()),
    }
}

/// What a frame stands for depends only on how many members it has and on
/// the value under each name.
pub proof fn message_depends_on_values(
    left: Seq<(Seq<char>, Seq<char>)>,
    right: Seq<(Seq<char>, Seq<char>)>,
)
    requires
        left.len() == right.len(),
        forall|name: Seq<char>| field_value(left, name) == field_value(right, name),
    ensures
        message_of_members(left) == message_of_members(right),
        unexpected_detail(left) == unexpected_detail(right),
{
    assert(field_value(left, type_member()) == field_value(right, type_member()));
    assert(field_value(left, "public_key"@) == field_value(right, "public_key"@));
    assert(field_value(left, "data"@) == field_value(right, "data"@));
    assert(field_value(left, "message"@) == field_value(right, "message"@));
}

/// The value of the last member called `name`, if there is one.
pub fn find_member<'a>(members: &'a Vec<(String, String)>, name: &str) -> (found: Option<
    &'a String,
>)
    ensures
        match found {
            Some(value) => field_value(members.deep_view(), name@) == Some(value@),
            None => field_value(members.deep_view(), name@) is None,
        },
{
    let ghost all = members.deep_view();
    let mut index = members.len();
    assert(all.take(index as int) =~= all);
    while index > 0
        invariant
            all == members.deep_view(),
            index <= members.len(),
            field_value(all, name@) == field_value(all.take(index as int), name@),
        decreases index,
    {
        index -= 1;
        proof {
            let shorter = all.take(index as int + 1);
            assert(shorter.last() == all[index as int]);
            assert(shorter.drop_last() =~= all.take(index as int));
            assert(all[index as int] == (members@[index as int].0@, members@[index as int].1@));
        }
        if text_equal(members[index].0.as_str(), name) {
            return Some(&members[index].1);
        }
    }
    None
}

impl RelayMessage {
    /// The kind of the message.
    pub fn kind(&self) -> (kind: MessageKind)
        ensures
            kind == self@.kind(),
    {
        match self {
            RelayMessage::CreateSession => MessageKind::CreateSession,
            RelayMessage::JoinSession { .. } => MessageKind::JoinSession,
            RelayMessage::PeerJoined { .. } => MessageKind::PeerJoined,
            RelayMessage::RelayPayload { .. } => MessageKind::RelayPayload,
            RelayMessage::Error { .. } => MessageKind::Error,
        }
    }

    /// The message of the given kind that carries the given text.
    pub fn carrying(kind: MessageKind, text: &str) -> (outcome: Result<
        RelayMessage,
        RemoteSignError,
    >)
        ensures
            message_outcome_is(outcome, message_carrying(kind, text@)),
    {
        match kind {
            MessageKind::CreateSession => Ok(RelayMessage::CreateSession),
            MessageKind::Error => Ok(RelayMessage::Error { message: String::from_str(text) }),
            MessageKind::RelayPayload => match base64_decode(text) {
                Err(cause) => Err(RemoteSignError::Base64(cause)),
                Ok(data) => Ok(RelayMessage::RelayPayload { data }),
            },
            MessageKind::JoinSession => match PeerPublicKey::from_base64(text) {
                Err(error) => Err(error),
                Ok(public_key) => Ok(RelayMessage::JoinSession { public_key }),
            },
            MessageKind::PeerJoined => match PeerPublicKey::from_base64(text) {
                Err(error) => Err(error),
                Ok(public_key) => Ok(RelayMessage::PeerJoined { public_key }),
            },
        }
    }

    /// The message that the members of a frame stand for.
    pub fn from_members(members: &Vec<(String, String)>) -> (outcome: Result<
        RelayMessage,
        RemoteSignError,
    >)
        ensures
            message_outcome_is(outcome, message_of_members(members.deep_view())),
            outcome matches Err(error) ==> (error.spec_kind() == ErrorKind::ServerUnexpectedMessage
                ==> error.detail() == unexpected_detail(members.deep_view())),
    {
        let name = match find_member(members, "type") {
            None => {
                return Err(
                    RemoteSignError::ServerUnexpectedMessage(
                        String::from_str("message without a type"),
                    ),
                );
            },
            Some(name) => name,
        };
        let kind = match MessageKind::from_wire_name(name.as_str()) {
            None => {
                return Err(RemoteSignError::ServerUnexpectedMessage(name.clone()));
            },
            Some(kind) => kind,
        };
        match kind.carried_member() {
            None => {
                if members.len() != 1 {
                    return Err(RemoteSignError::ServerUnexpectedMessage(name.clone()));
                }
                let outcome = Self::carrying(kind, "");
                proof {
                    reveal_strlit("");
                    assert(""@ =~= Seq::<char>::empty());
                }
                outcome
            },
            Some(member) => {
                if members.len() != 2 {
                    return Err(RemoteSignError::ServerUnexpectedMessage(name.clone()));
                }
                match find_member(members, member) {
                    None => Err(RemoteSignError::ServerUnexpectedMessage(name.clone())),
                    Some(text) => Self::carrying(kind, text.as_str()),
                }
            },
        }
    }

    /// Reads a message from its frame. A frame that is not JSON of the
    /// expected shape is a JSON error; what its members lack or hold wrongly
    /// is told as [`RelayMessage::from_members`] tells it, the detail of an
    /// unexpected message included.
    pub fn decode(frame: &[u8]) -> (outcome: Result<RelayMessage, RemoteSignError>)
        ensures
            message_outcome_is(outcome, message_decoded(frame@)),
            outcome matches Err(error) ==> (error.spec_kind() == ErrorKind::ServerUnexpectedMessage
                ==> (json_object_parsed(frame@) matches Some(members) && error.detail()
                == unexpected_detail(members))),
    {
        match json_object_decode(frame) {
            Err(cause) => Err(RemoteSignError::SerdeJson(cause)),
            Ok(members) => Self::from_members(&members),
        }
    }

    /// The members of the frame of the message. Read again, they stand for
    /// the message.
    pub fn to_members(&self) -> (members: Vec<(String, String)>)
        ensures
            members.deep_view() == members_of(self@),
            names_are_distinct(members.deep_view()),
            message_of_members(members.deep_view()) == Ok::<MessageView, ErrorKind>(self@),
    {
        let kind = self.kind();
        let mut members: Vec<(String, String)> = Vec::new();
        members.push((String::from_str("type"), String::from_str(kind.wire_name())));
        match self {
            RelayMessage::CreateSession => {},
            RelayMessage::JoinSession { public_key } => {
                proof {
                    use_type_invariant(public_key);
                }
                members.push((String::from_str("public_key"), public_key.to_base64()));
            },
            RelayMessage::PeerJoined { public_key } => {
                proof {
                    use_type_invariant(public_key);
                }
                members.push((String::from_str("public_key"), public_key.to_base64()));
            },
            RelayMessage::RelayPayload { data } => {
                members.push((String::from_str("data"), base64_encode(data.as_slice())));
            },
            RelayMessage::Error { message } => {
                members.push((String::from_str("message"), message.clone()));
            },
        }
        proof {
            let listed = members.deep_view();
            assert(listed =~= members_of(self@));
            wire_names_are_distinct(kind);
            carried_member_is_not_the_type(kind);
            reveal_with_fuel(field_value, 3);
            if listed.len() == 2 {
                assert(listed.last() == listed[1]);
                assert(listed.drop_last() =~= seq![listed[0]]);
                assert(listed.drop_last().last() == listed[0]);
            } else {
                assert(listed.last() == listed[0]);
            }
        }
        members
    }

    /// The frame of the message. Framing always succeeds, and reading the
    /// frame gives the message back.
    pub fn encode(&self) -> (frame: Result<Vec<u8>, RemoteSignError>)
        ensures
            frame matches Ok(bytes) && bytes@ == frame_of(self@) && message_decoded(bytes@) == Ok::<
                MessageView,
                ErrorKind,
            >(self@),
    {
        let members = self.to_members();
        match json_object_encode(&members) {
            Err(cause) => Err(RemoteSignError::SerdeJson(cause)),
            Ok(bytes) => {
                proof {
                    let parsed = json_object_parsed(bytes@).unwrap();
                    message_depends_on_values(parsed, members.deep_view());
                }
                Ok(bytes)
            },
        }
    }
}

} // verus!
