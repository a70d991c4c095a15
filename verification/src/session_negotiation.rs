//! Session establishment between the two peers of a remote signing session.
//!
//! Two peers meet on a relay that neither of them trusts. The initiator
//! (role `A`) asks the relay for a session and hands the joiner, out of band,
//! a session join string with the relay's URL, the session's identifier and
//! its own public key. The joiner (role `B`) reads the string and asks the
//! relay to join, with its own public key. The relay tells each peer of the
//! other with a `peer-joined` message that carries the other's public key.
//! Once the keys are confirmed the session is established, and payloads, each
//! encrypted to the receiver's public key, go through the relay.
//!
//! A [`Session`] is one peer's end of this. It does no I/O: the caller sends
//! what the session gives it and hands the session what the relay sent. The
//! session decides. Its states are passed in this order:
//!
//! | role | states |
//! |------|--------|
//! | `A`  | `Idle`, `SessionCreated`, `AwaitingJoin`, `PeerJoined`, `KeyExchanged`, `Established`, `Closed` |
//! | `B`  | `Idle`, `Joining`, `PeerJoined`, `KeyExchanged`, `Established`, `Closed` |
//!
//! From the relay a session expects `peer-joined` while it waits for its
//! peer (`AwaitingJoin`, `Joining`), `relay-payload` once it is established,
//! and `error` as long as it has not ended. Everything else is a violation, as
//! is an operation asked for in a state that does not allow it. A violation
//! fails the session for good; nothing is tried again. Two cases are spared:
//! a session that has ended stays as it ended, and an established session is
//! not brought down by a late attempt to join.

use vstd::prelude::*;
use crate::error::{ErrorCategory, ErrorKind, RemoteSignError};
use crate::public_key::PeerPublicKey;
use crate::relay_message::{MessageKind, MessageView, RelayMessage};
use crate::session_join_string::{
    compact_rendering,
    decoded,
    pem_rendering,
    DescriptorView,
    SessionDescriptor,
    PROTOCOL_VERSION,
};

verus! {

/// The role being assumed by a peer.
#[derive(Clone, Copy, Debug, PartialEq, Eq, Structural)]
pub enum Role {
    /// Peer who initiated the session.
    A,
    /// Peer who joined the session.
    B,
}

impl Role {
    /// The one-letter name of the role.
    pub open spec fn label(self) -> Seq<char> {
        match self {
            Role::A => seq!['A'],
            Role::B => seq!['B'],
        }
    }

    /// The role's name: `"A"` for the initiator, `"B"` for the joiner.
    pub fn as_str(&self) -> (name: &'static str)
        ensures
            name@ == self.label(),
    {
        match self {
            Role::A => {
                proof {
                    reveal_strlit("A");
                }
                assert("A"@ =~= seq!['A']);
                "A"
            },
            Role::B => {
                proof {
                    reveal_strlit("B");
                }
                assert("B"@ =~= seq!['B']);
                "B"
            },
        }
    }

    /// The role's name as an owned text.
    pub fn to_string(&self) -> (name: String)
        ensures
            name@ == self.label(),
    {
        String::from_str(self.as_str())
    }
}

/// Describes a type that is capable of decrypting messages used during public key negotiation.
///
/// The key may live in memory, on a hardware token or behind a remote
/// signer: the session never learns which. An implementation is to give the
/// whole plaintext or to fail with a cryptography error, and never part of a
/// plaintext. Nothing here relies on that: a session hands on what it gets.
pub trait PublicKeyPeerDecrypt {
    /// Decrypt an encrypted message.
    fn decrypt(&self, ciphertext: &[u8]) -> Result<Vec<u8>, RemoteSignError>;
}

/// How far a session has come.
#[derive(Clone, Copy, Debug, PartialEq, Eq, Structural)]
pub enum SessionState {
    /// Nothing has been sent yet.
    Idle,
    /// The initiator has asked the relay for the session.
    SessionCreated,
    /// The initiator has handed out the session join string and waits for
    /// the joiner.
    AwaitingJoin,
    /// The joiner has asked the relay to join and waits for its answer.
    Joining,
    /// Both peers are on the session and know each other's public key.
    PeerJoined,
    /// The keys have been confirmed.
    KeyExchanged,
    /// Payloads may flow.
    Established,
    /// The session was closed in good order.
    Closed,
    /// The session failed.
    Failed,
}

impl SessionState {
    /// Whether nothing more happens in this state.
    pub open spec fn spec_is_terminal(self) -> bool {
        self == SessionState::Closed || self == SessionState::Failed
    }

    /// Whether nothing more happens in this state.
    #[verifier::when_used_as_spec(spec_is_terminal)]
    pub fn is_terminal(self) -> (terminal: bool)
        ensures
            terminal == self.spec_is_terminal(),
    {
        match self {
            SessionState::Closed => true,
            SessionState::Failed => true,
            _ => false,
        }
    }

    /// How far along a state is. No step of a session lowers it.
    pub open spec fn rank(self) -> nat {
        match self {
            SessionState::Idle => 0,
            SessionState::SessionCreated => 1,
            SessionState::AwaitingJoin => 2,
            SessionState::Joining => 2,
            SessionState::PeerJoined => 3,
            SessionState::KeyExchanged => 4,
            SessionState::Established => 5,
            SessionState::Closed => 6,
            SessionState::Failed => 6,
        }
    }

    /// Whether a peer of the given role can be in this state.
    pub open spec fn fits(self, role: Role) -> bool {
        match self {
            SessionState::SessionCreated => role == Role::A,
            SessionState::AwaitingJoin => role == Role::A,
            SessionState::Joining => role == Role::B,
            _ => true,
        }
    }

    /// Whether the peers know each other's key in this state.
    pub open spec fn is_joined(self) -> bool {
        self == SessionState::PeerJoined || self == SessionState::KeyExchanged || self
            == SessionState::Established
    }
}

/// The local operations on a session.
#[derive(Clone, Copy, Debug, PartialEq, Eq, Structural)]
pub enum Operation {
    /// Ask the relay for the session, or to join it.
    Begin,
    /// Hand out the session join string.
    SessionInfo,
    /// Confirm the keys.
    ConfirmKeys,
    /// Open the channel for payloads.
    Establish,
    /// Send a payload.
    SendPayload,
    /// Take the plaintext of a payload.
    OpenPayload,
    /// Close the session.
    Close,
}

impl Operation {
    /// What the error says when the operation is refused.
    pub open spec fn refusal(self) -> Seq<char> {
        match self {
            Operation::Begin => "the session has begun already"@,
            Operation::SessionInfo => "only an initiator that has just created its session hands out a join string"@,
            Operation::ConfirmKeys => "keys are confirmed once the peer has joined"@,
            Operation::Establish => "the session is established once keys are confirmed"@,
            Operation::SendPayload => "payloads are sent once the session is established"@,
            Operation::OpenPayload => "payloads are opened once the session is established"@,
            Operation::Close => "only an established session is closed"@,
        }
    }

    /// What the error says when the operation is refused.
    pub fn refusal_text(self) -> (text: &'static str)
        ensures
            text@ == self.refusal(),
    {
        match self {
            Operation::Begin => "the session has begun already",
            Operation::SessionInfo => "only an initiator that has just created its session hands out a join string",
            Operation::ConfirmKeys => "keys are confirmed once the peer has joined",
            Operation::Establish => "the session is established once keys are confirmed",
            Operation::SendPayload => "payloads are sent once the session is established",
            Operation::OpenPayload => "payloads are opened once the session is established",
            Operation::Close => "only an established session is closed",
        }
    }
}

/// Whether a message of this kind is an attempt to join.
pub open spec fn is_join_kind(kind: MessageKind) -> bool {
    kind == MessageKind::PeerJoined || kind == MessageKind::JoinSession
}

/// The kind of error that refuses a message of the given kind: a join that
/// is not wanted, or, for the other kinds, a bad client state.
pub open spec fn violation_kind(kind: MessageKind) -> ErrorKind {
    if is_join_kind(kind) {
        ErrorKind::SessionJoinUnwantedState
    } else {
        ErrorKind::ClientState
    }
}

/// What the error says when the relay shows a joiner another key than the
/// session join string named.
pub open spec fn other_key_detail() -> Seq<char> {
    "the relay names another initiator key than the session join string"@
}

/// A session as a mathematical value.
pub ghost struct SessionView {
    pub role: Role,
    pub state: SessionState,
    pub url: Seq<char>,
    pub session_id: Seq<char>,
    pub local_key: Seq<u8>,
    pub peer_key: Option<Seq<u8>>,
}

impl SessionView {
    /// The same session in another state.
    pub open spec fn in_state(self, state: SessionState) -> SessionView {
        SessionView { state, ..self }
    }

    /// What holds of every session: its state fits its role, a joiner knows
    /// the initiator's key from the start, and an initiator knows the
    /// joiner's key from the moment the joiner is there.
    pub open spec fn is_consistent(self) -> bool {
        &&& self.state.fits(self.role)
        &&& self.role == Role::B ==> self.peer_key is Some
        &&& self.state.is_joined() ==> self.peer_key is Some
    }

    /// The descriptor that the initiator hands out.
    pub open spec fn descriptor(self) -> DescriptorView {
        DescriptorView {
            url: self.url,
            session_id: self.session_id,
            public_key: self.local_key,
            version: PROTOCOL_VERSION,
        }
    }

    /// Whether a message of the given kind is expected from the relay by
    /// this peer in its state.
    pub open spec fn accepts(self, kind: MessageKind) -> bool {
        match kind {
            MessageKind::PeerJoined => (self.role == Role::A && self.state
                == SessionState::AwaitingJoin) || (self.role == Role::B && self.state
                == SessionState::Joining),
            MessageKind::RelayPayload => self.state == SessionState::Established,
            MessageKind::Error => !self.state.spec_is_terminal(),
            MessageKind::CreateSession => false,
            MessageKind::JoinSession => false,
        }
    }

    /// Whether the operation is allowed to this peer in its state.
    pub open spec fn allows(self, operation: Operation) -> bool {
        match operation {
            Operation::Begin => self.state == SessionState::Idle,
            Operation::SessionInfo => self.role == Role::A && self.state
                == SessionState::SessionCreated,
            Operation::ConfirmKeys => self.state == SessionState::PeerJoined,
            Operation::Establish => self.state == SessionState::KeyExchanged,
            Operation::SendPayload => self.state == SessionState::Established,
            Operation::OpenPayload => self.state == SessionState::Established,
            Operation::Close => self.state == SessionState::Established,
        }
    }

    /// The state after a violation. A violation fails the session, with two
    /// exceptions: a session that has ended stays as it ended, and an
    /// established session stays established when what is refused is an
    /// attempt to join or to begin again.
    pub open spec fn state_after_violation(self, is_join_attempt: bool) -> SessionState {
        if self.state.spec_is_terminal() {
            self.state
        } else if self.state == SessionState::Established && is_join_attempt {
            self.state
        } else {
            SessionState::Failed
        }
    }

    /// The session after a failure that is no attempt to join: failed,
    /// unless it had ended.
    pub open spec fn failed(self) -> SessionView {
        self.in_state(self.state_after_violation(false))
    }

    /// The session after it has refused a message of the given kind.
    pub open spec fn after_refusing(self, kind: MessageKind) -> SessionView {
        self.in_state(self.state_after_violation(is_join_kind(kind)))
    }

    /// The session after it has refused an operation.
    pub open spec fn after_forbidding(self, operation: Operation) -> SessionView {
        self.in_state(self.state_after_violation(operation == Operation::Begin))
    }

    /// The session after the operation, where it is allowed.
    pub open spec fn after(self, operation: Operation) -> SessionView {
        match operation {
            Operation::Begin => self.in_state(
                if self.role == Role::A {
                    SessionState::SessionCreated
                } else {
                    SessionState::Joining
                },
            ),
            Operation::SessionInfo => self.in_state(SessionState::AwaitingJoin),
            Operation::ConfirmKeys => self.in_state(SessionState::KeyExchanged),
            Operation::Establish => self.in_state(SessionState::Established),
            Operation::SendPayload => self,
            Operation::OpenPayload => self,
            Operation::Close => self.in_state(SessionState::Closed),
        }
    }

    /// The session after the operation was asked for, allowed or not.
    pub open spec fn performing(self, operation: Operation) -> SessionView {
        if self.allows(operation) {
            self.after(operation)
        } else {
            self.after_forbidding(operation)
        }
    }

    /// The session after a key has answered for a payload, and what the
    /// caller gets: the plaintext, or the kind of the error. `decrypted` is
    /// the key's answer: the plaintext, or the kind of its error. A payload
    /// that did not open fails the session.
    pub open spec fn opening(self, decrypted: Result<Seq<u8>, ErrorKind>) -> (
        SessionView,
        Result<Option<Seq<u8>>, ErrorKind>,
    ) {
        if !self.allows(Operation::OpenPayload) {
            (self.after_forbidding(Operation::OpenPayload), Err(ErrorKind::ClientState))
        } else {
            match decrypted {
                Ok(plaintext) => (self, Ok(Some(plaintext))),
                Err(kind) => (self.in_state(SessionState::Failed), Err(kind)),
            }
        }
    }

    /// Whether the message is a payload that the session expects, which is
    /// when the caller's key is asked.
    pub open spec fn opens(self, message: MessageView) -> bool {
        message is RelayPayload && self.accepts(MessageKind::RelayPayload)
    }

    /// The session after a message from the relay, and what the caller gets:
    /// nothing, a plaintext, or the kind of the error. `decrypted` is what
    /// the caller's key makes of a payload.
    pub open spec fn receiving(self, message: MessageView, decrypted: Result<Seq<u8>, ErrorKind>) -> (
        SessionView,
        Result<Option<Seq<u8>>, ErrorKind>,
    ) {
        if !self.accepts(message.kind()) {
            (self.after_refusing(message.kind()), Err(violation_kind(message.kind())))
        } else {
            match message {
                MessageView::PeerJoined { public_key } => if self.role == Role::A {
                    (
                        SessionView {
                            state: SessionState::PeerJoined,
                            peer_key: Some(public_key),
                            ..self
                        },
                        Ok(None),
                    )
                } else if self.peer_key == Some(public_key) {
                    (self.in_state(SessionState::PeerJoined), Ok(None))
                } else {
                    (
                        self.in_state(SessionState::Failed),
                        Err(ErrorKind::ServerUnexpectedMessage),
                    )
                },
                MessageView::RelayPayload { data } => self.opening(decrypted),
                _ => (self.in_state(SessionState::Failed), Err(ErrorKind::ServerError)),
            }
        }
    }

    /// Whether `next` can come after `self` in the life of one session: the
    /// role, the relay, the identifier and the local key are the same, the
    /// state is no earlier, and nothing at all changes once the session has
    /// ended.
    pub open spec fn may_become(self, next: SessionView) -> bool {
        &&& next.role == self.role
        &&& next.url == self.url
        &&& next.session_id == self.session_id
        &&& next.local_key == self.local_key
        &&& next.state.rank() >= self.state.rank()
        &&& self.state.spec_is_terminal() ==> next == self
    }
}

/// Whether what a caller got is what the model gives.
pub open spec fn reply_is(
    outcome: Result<Option<Vec<u8>>, RemoteSignError>,
    expected: Result<Option<Seq<u8>>, ErrorKind>,
) -> bool {
    match outcome {
        Ok(None) => expected == Ok::<Option<Seq<u8>>, ErrorKind>(None),
        Ok(Some(plaintext)) => expected == Ok::<Option<Seq<u8>>, ErrorKind>(Some(plaintext@)),
        Err(error) => expected == Err::<Option<Seq<u8>>, ErrorKind>(error.spec_kind()),
    }
}

/// A key's answer as a mathematical value.
pub open spec fn answer_view(decrypted: Result<Vec<u8>, RemoteSignError>) -> Result<
    Seq<u8>,
    ErrorKind,
> {
    match decrypted {
        Ok(plaintext) => Ok(plaintext@),
        Err(error) => Err(error.spec_kind()),
    }
}

/// Whether `after` and `outcome` are what becomes of the session `before`
/// and of its caller when `decrypter` is asked to decrypt `data`: the key was
/// handed exactly these bytes, a plaintext that it gave is handed out as it
/// is, and an error that it gave fails the session and is handed on as it
/// is.
pub open spec fn opened_by<D: PublicKeyPeerDecrypt>(
    decrypter: &D,
    before: SessionView,
    data: Seq<u8>,
    after: SessionView,
    outcome: Result<Option<Vec<u8>>, RemoteSignError>,
) -> bool {
    exists|ciphertext: &[u8], answer: Result<Vec<u8>, RemoteSignError>|
        ciphertext@ == data && #[trigger] call_ensures(D::decrypt, (decrypter, ciphertext), answer)
            && after == before.opening(answer_view(answer)).0 && outcome == (match answer {
            Ok(plaintext) => Ok::<Option<Vec<u8>>, RemoteSignError>(Some(plaintext)),
            Err(error) => Err::<Option<Vec<u8>>, RemoteSignError>(error),
        })
}

/// Whether a result of an operation is the expected one: success exactly
/// where the operation was allowed, and a bad client state with the
/// operation's refusal otherwise.
pub open spec fn permitted<T>(
    outcome: Result<T, RemoteSignError>,
    before: SessionView,
    operation: Operation,
) -> bool {
    match outcome {
        Ok(_) => before.allows(operation),
        Err(error) => !before.allows(operation) && error.spec_kind() == ErrorKind::ClientState
            && error.detail() == operation.refusal(),
    }
}

/// Whether `outcome` is what `callback` answered when it was handed the two
/// renderings of the descriptor.
pub open spec fn announced<F: FnOnce(&str, &str) -> Result<(), RemoteSignError>>(
    callback: F,
    descriptor: DescriptorView,
    outcome: Result<(), RemoteSignError>,
) -> bool {
    exists|compact: &str, pem: &str|
        compact@ == compact_rendering(descriptor) && pem@ == pem_rendering(descriptor)
            && #[trigger] call_ensures(callback, (compact, pem), outcome)
}

/// One peer's end of a session.
#[derive(Debug)]
pub struct Session {
    role: Role,
    state: SessionState,
    url: String,
    session_id: String,
    local_key: PeerPublicKey,
    peer_key: Option<PeerPublicKey>,
}

impl View for Session {
    type V = SessionView;

    closed spec fn view(&self) -> SessionView {
        SessionView {
            role: self.role,
            state: self.state,
            url: self.url@,
            session_id: self.session_id@,
            local_key: self.local_key@,
            peer_key: match self.peer_key {
                Some(key) => Some(key@),
                None => None,
            },
        }
    }
}

impl Session {
    /// Every session is consistent.
    #[verifier::type_invariant]
    pub open spec fn consistent(self) -> bool {
        self@.is_consistent()
    }

    /// The initiator's end of a new session on the given relay.
    pub fn initiator(url: String, session_id: String, local_key: PeerPublicKey) -> (session:
        Session)
        ensures
            session@ == (SessionView {
                role: Role::A,
                state: SessionState::Idle,
                url: url@,
                session_id: session_id@,
                local_key: local_key@,
                peer_key: None,
            }),
    {
        Session {
            role: Role::A,
            state: SessionState::Idle,
            url,
            session_id,
            local_key,
            peer_key: None,
        }
    }

    /// The joiner's end of the session that a session join string, in
    /// either rendering, describes. A string of another protocol version is
    /// refused as incompatible; a malformed one with the error of its flaw.
    pub fn joiner(join_string: &str, local_key: PeerPublicKey) -> (outcome: Result<
        Session,
        RemoteSignError,
    >)
        ensures
            match outcome {
                Ok(session) => decoded(join_string@) matches Ok(descriptor) && session@
                    == (SessionView {
                    role: Role::B,
                    state: SessionState::Idle,
                    url: descriptor.url,
                    session_id: descriptor.session_id,
                    local_key: local_key@,
                    peer_key: Some(descriptor.public_key),
                }),
                Err(error) => decoded(join_string@) == Err::<DescriptorView, ErrorKind>(
                    error.spec_kind(),
                ),
            },
    {
        match SessionDescriptor::decode(join_string) {
            Err(error) => Err(error),
            Ok(descriptor) => Ok(
                Session {
                    role: Role::B,
                    state: SessionState::Idle,
                    url: descriptor.url,
                    session_id: descriptor.session_id,
                    local_key,
                    peer_key: Some(descriptor.public_key),
                },
            ),
        }
    }

    /// The role of this peer.
    pub fn role(&self) -> (role: Role)
        ensures
            role == self@.role,
    {
        self.role
    }

    /// The state of the session.
    pub fn state(&self) -> (state: SessionState)
        ensures
            state == self@.state,
    {
        self.state
    }

    /// URL of the relay server.
    pub fn url(&self) -> (url: &str)
        ensures
            url@ == self@.url,
    {
        self.url.as_str()
    }

    /// The session's identifier on the relay.
    pub fn session_id(&self) -> (session_id: &str)
        ensures
            session_id@ == self@.session_id,
    {
        self.session_id.as_str()
    }

    /// This peer's public key.
    pub fn local_key(&self) -> (key: &PeerPublicKey)
        ensures
            key@ == self@.local_key,
    {
        &self.local_key
    }

    /// The other peer's public key, once it is known.
    pub fn peer_key(&self) -> (key: Option<&PeerPublicKey>)
        ensures
            match key {
                Some(key) => self@.peer_key == Some(key@),
                None => self@.peer_key is None,
            },
    {
        match &self.peer_key {
            Some(key) => Some(key),
            None => None,
        }
    }

    /// Whether a message of the given kind is expected in the session's
    /// state.
    pub fn accepts(&self, kind: MessageKind) -> (accepted: bool)
        ensures
            accepted == self@.accepts(kind),
    {
        match kind {
            MessageKind::PeerJoined => (self.role == Role::A && self.state
                == SessionState::AwaitingJoin) || (self.role == Role::B && self.state
                == SessionState::Joining),
            MessageKind::RelayPayload => self.state == SessionState::Established,
            MessageKind::Error => !self.state.is_terminal(),
            MessageKind::CreateSession => false,
            MessageKind::JoinSession => false,
        }
    }

    /// Whether an operation is allowed in the session's state.
    pub fn allows(&self, operation: Operation) -> (allowed: bool)
        ensures
            allowed == self@.allows(operation),
    {
        match operation {
            Operation::Begin => self.state == SessionState::Idle,
            Operation::SessionInfo => self.role == Role::A && self.state
                == SessionState::SessionCreated,
            Operation::ConfirmKeys => self.state == SessionState::PeerJoined,
            Operation::Establish => self.state == SessionState::KeyExchanged,
            Operation::SendPayload => self.state == SessionState::Established,
            Operation::OpenPayload => self.state == SessionState::Established,
            Operation::Close => self.state == SessionState::Established,
        }
    }

    /// Marks the session as failed, unless it has ended already.
    pub fn fail(&mut self)
        ensures
            final(self)@ == old(self)@.failed(),
    {
        proof {
            use_type_invariant(&*self);
        }
        if !self.state.is_terminal() {
            self.state = SessionState::Failed;
        }
    }

    /// Takes note of how work outside the session went: handing the session
    /// join string on, sending to the relay, reading from it. Where it
    /// failed the session fails with it, and the error is handed on as it
    /// came; where it went well nothing changes.
    pub fn settle<T>(&mut self, outside: Result<T, RemoteSignError>) -> (outcome: Result<
        T,
        RemoteSignError,
    >)
        ensures
            outcome == outside,
            final(self)@ == (if outside is Ok {
                old(self)@
            } else {
                old(self)@.failed()
            }),
    {
        if outside.is_err() {
            self.fail();
        }
        outside
    }

    /// Refuses an operation: the error, and the state that the violation
    /// leaves.
    fn forbid(&mut self, operation: Operation) -> (error: RemoteSignError)
        ensures
            final(self)@ == old(self)@.after_forbidding(operation),
            error.spec_kind() == ErrorKind::ClientState,
            error.detail() == operation.refusal(),
    {
        proof {
            use_type_invariant(&*self);
        }
        let stays = self.state.is_terminal() || (self.state == SessionState::Established
            && operation == Operation::Begin);
        if !stays {
            self.state = SessionState::Failed;
        }
        RemoteSignError::ClientState(operation.refusal_text())
    }

    /// Refuses a message of the given kind: the error, and the state that
    /// the violation leaves.
    fn refuse(&mut self, kind: MessageKind) -> (error: RemoteSignError)
        ensures
            final(self)@ == old(self)@.after_refusing(kind),
            error.spec_kind() == violation_kind(kind),
            error.detail() == kind.spec_wire_name(),
    {
        proof {
            use_type_invariant(&*self);
        }
        let is_join = kind == MessageKind::PeerJoined || kind == MessageKind::JoinSession;
        let stays = self.state.is_terminal() || (self.state == SessionState::Established
            && is_join);
        if !stays {
            self.state = SessionState::Failed;
        }
        if is_join {
            RemoteSignError::SessionJoinUnwantedState(String::from_str(kind.wire_name()))
        } else {
            RemoteSignError::ClientState(kind.wire_name())
        }
    }

    /// Starts the session: gives the message to send to the relay, which
    /// asks for a new session (initiator) or to join one, with this peer's
    /// public key (joiner). Refused unless the session is idle.
    pub fn begin(&mut self) -> (outcome: Result<RelayMessage, RemoteSignError>)
        ensures
            final(self)@ == old(self)@.performing(Operation::Begin),
            permitted(outcome, old(self)@, Operation::Begin),
            outcome matches Ok(message) ==> message@ == (if old(self)@.role == Role::A {
                MessageView::CreateSession
            } else {
                MessageView::JoinSession { public_key: old(self)@.local_key }
            }),
    {
        proof {
            use_type_invariant(&*self);
        }
        if !self.allows(Operation::Begin) {
            return Err(self.forbid(Operation::Begin));
        }
        match self.role {
            Role::A => {
                self.state = SessionState::SessionCreated;
                Ok(RelayMessage::CreateSession)
            },
            Role::B => {
                self.state = SessionState::Joining;
                Ok(RelayMessage::JoinSession { public_key: self.local_key.clone() })
            },
        }
    }

    /// Gives both renderings of the session join string, the compact one
    /// first, for the caller to hand to the joiner out of band; from then on
    /// the initiator awaits the joiner. Allowed once, to the initiator, after
    /// `begin`. Either rendering decodes to this session's relay, identifier
    /// and public key.
    pub fn session_info(&mut self) -> (outcome: Result<(String, String), RemoteSignError>)
        ensures
            final(self)@ == old(self)@.performing(Operation::SessionInfo),
            permitted(outcome, old(self)@, Operation::SessionInfo),
            outcome matches Ok(renderings) ==> renderings.0@ == compact_rendering(
                old(self)@.descriptor(),
            ) && renderings.1@ == pem_rendering(old(self)@.descriptor()) && decoded(renderings.0@)
                == Ok::<DescriptorView, ErrorKind>(old(self)@.descriptor()) && decoded(
                renderings.1@,
            ) == Ok::<DescriptorView, ErrorKind>(old(self)@.descriptor()),
    {
        proof {
            use_type_invariant(&*self);
        }
        if !self.allows(Operation::SessionInfo) {
            return Err(self.forbid(Operation::SessionInfo));
        }
        let descriptor = SessionDescriptor::new(
            self.url.clone(),
            self.session_id.clone(),
            self.local_key.clone(),
        );
        self.state = SessionState::AwaitingJoin;
        descriptor.encode()
    }

    /// Hands both renderings of the session join string to `callback`, the
    /// compact one first, as [`Session::session_info`] gives them. The
    /// callback is called once, before the session awaits the joiner, and
    /// not at all where the operation is refused. Where the callback fails,
    /// the session fails and the callback's error is handed on.
    pub fn announce<F: FnOnce(&str, &str) -> Result<(), RemoteSignError>>(
        &mut self,
        callback: F,
    ) -> (outcome: Result<(), RemoteSignError>)
        requires
            forall|compact: &str, pem: &str|
                compact@ == compact_rendering(old(self)@.descriptor()) && pem@ == pem_rendering(
                    old(self)@.descriptor(),
                ) ==> call_requires(callback, (compact, pem)),
        ensures
            !old(self)@.allows(Operation::SessionInfo) ==> final(self)@ == old(
                self,
            )@.after_forbidding(Operation::SessionInfo) && permitted(
                outcome,
                old(self)@,
                Operation::SessionInfo,
            ),
            old(self)@.allows(Operation::SessionInfo) ==> final(self)@ == (if outcome is Ok {
                old(self)@.after(Operation::SessionInfo)
            } else {
                old(self)@.after(Operation::SessionInfo).failed()
            }) && announced(callback, old(self)@.descriptor(), outcome),
    {
        match self.session_info() {
            Err(error) => Err(error),
            Ok(renderings) => {
                let compact = renderings.0.as_str();
                let pem = renderings.1.as_str();
                let delivered = callback(compact, pem);
                assert(call_ensures(callback, (compact, pem), delivered));
                self.settle(delivered)
            },
        }
    }

    /// Confirms the keys of a session that both peers have joined.
    pub fn confirm_keys(&mut self) -> (outcome: Result<(), RemoteSignError>)
        ensures
            final(self)@ == old(self)@.performing(Operation::ConfirmKeys),
            permitted(outcome, old(self)@, Operation::ConfirmKeys),
    {
        proof {
            use_type_invariant(&*self);
        }
        if !self.allows(Operation::ConfirmKeys) {
            return Err(self.forbid(Operation::ConfirmKeys));
        }
        self.state = SessionState::KeyExchanged;
        Ok(())
    }

    /// Opens the channel for payloads, once the keys are confirmed.
    pub fn establish(&mut self) -> (outcome: Result<(), RemoteSignError>)
        ensures
            final(self)@ == old(self)@.performing(Operation::Establish),
            permitted(outcome, old(self)@, Operation::Establish),
    {
        proof {
            use_type_invariant(&*self);
        }
        if !self.allows(Operation::Establish) {
            return Err(self.forbid(Operation::Establish));
        }
        self.state = SessionState::Established;
        Ok(())
    }

    /// Wraps a ciphertext, which the caller has encrypted to the peer's
    /// public key, as a message for the relay. Only an established session
    /// sends payloads.
    pub fn send_payload(&mut self, ciphertext: Vec<u8>) -> (outcome: Result<
        RelayMessage,
        RemoteSignError,
    >)
        ensures
            final(self)@ == old(self)@.performing(Operation::SendPayload),
            permitted(outcome, old(self)@, Operation::SendPayload),
            outcome matches Ok(message) ==> message@ == (MessageView::RelayPayload {
                data: ciphertext@,
            }),
    {
        proof {
            use_type_invariant(&*self);
        }
        if !self.allows(Operation::SendPayload) {
            return Err(self.forbid(Operation::SendPayload));
        }
        Ok(RelayMessage::RelayPayload { data: ciphertext })
    }

    /// Closes an established session.
    pub fn close(&mut self) -> (outcome: Result<(), RemoteSignError>)
        ensures
            final(self)@ == old(self)@.performing(Operation::Close),
            permitted(outcome, old(self)@, Operation::Close),
    {
        proof {
            use_type_invariant(&*self);
        }
        if !self.allows(Operation::Close) {
            return Err(self.forbid(Operation::Close));
        }
        self.state = SessionState::Closed;
        Ok(())
    }

    /// Takes a key's answer for a payload: the plaintext is handed out as it
    /// is; an error ends the session and is handed on as it is. A ciphertext
    /// that does not open is never tried again. Only an established session
    /// opens payloads.
    pub fn accept_plaintext(&mut self, decrypted: Result<Vec<u8>, RemoteSignError>) -> (outcome:
        Result<Option<Vec<u8>>, RemoteSignError>)
        ensures
            final(self)@ == old(self)@.opening(answer_view(decrypted)).0,
            reply_is(outcome, old(self)@.opening(answer_view(decrypted)).1),
            old(self)@.allows(Operation::OpenPayload) ==> (match decrypted {
                Ok(plaintext) => outcome == Ok::<Option<Vec<u8>>, RemoteSignError>(
                    Some(plaintext),
                ),
                Err(error) => outcome == Err::<Option<Vec<u8>>, RemoteSignError>(error),
            }),
            !old(self)@.allows(Operation::OpenPayload) ==> (outcome matches Err(error)
                && error.detail() == Operation::OpenPayload.refusal()),
    {
        proof {
            use_type_invariant(&*self);
        }
        if !self.allows(Operation::OpenPayload) {
            return Err(self.forbid(Operation::OpenPayload));
        }
        match decrypted {
            Ok(plaintext) => Ok(Some(plaintext)),
            Err(error) => {
                self.state = SessionState::Failed;
                Err(error)
            },
        }
    }

    /// Handles a message from the relay.
    ///
    /// A message that is not expected in the session's state is refused with
    /// a state violation and changes nothing but the state. The peer's join
    /// is taken with its key; a joiner whom the relay shows another key than
    /// the session join string named fails the session. A payload is opened
    /// with `decrypter` and its plaintext handed out; one that does not open
    /// fails the session, with the error that `decrypter` gave. An error that
    /// the relay reports fails the session and is handed on with the relay's
    /// words.
    ///
    /// What `decrypter` answers is its own. The contract says that it is
    /// asked, with the bytes of the payload and only for a payload that the
    /// session expects, and that its answer decides as
    /// [`Session::accept_plaintext`] says.
    pub fn receive<D: PublicKeyPeerDecrypt>(&mut self, message: RelayMessage, decrypter: &D) -> (outcome:
        Result<Option<Vec<u8>>, RemoteSignError>)
        ensures
            old(self)@.opens(message@) ==> (message@ matches MessageView::RelayPayload { data }
                && opened_by(decrypter, old(self)@, data, final(self)@, outcome)),
            !old(self)@.opens(message@) ==> (forall|decrypted: Result<Seq<u8>, ErrorKind>|
                final(self)@ == (#[trigger] old(self)@.receiving(message@, decrypted)).0
                    && reply_is(outcome, old(self)@.receiving(message@, decrypted).1)),
            !old(self)@.accepts(message@.kind()) ==> (outcome matches Err(error) && error.detail()
                == message@.kind().spec_wire_name()),
            old(self)@.accepts(message@.kind()) ==> (match message@ {
                MessageView::Error { message: words } => outcome matches Err(error)
                    && error.detail() == words,
                MessageView::PeerJoined { .. } => outcome matches Err(error) ==> error.detail()
                    == other_key_detail(),
                _ => true,
            }),
    {
        proof {
            use_type_invariant(&*self);
        }
        let kind = message.kind();
        if !self.accepts(kind) {
            return Err(self.refuse(kind));
        }
        match message {
            RelayMessage::PeerJoined { public_key } => {
                match self.role {
                    Role::A => {
                        self.peer_key = Some(public_key);
                        self.state = SessionState::PeerJoined;
                        Ok(None)
                    },
                    Role::B => {
                        let known = match &self.peer_key {
                            Some(key) => key.same_key(&public_key),
                            None => false,
                        };
                        if known {
                            self.state = SessionState::PeerJoined;
                            Ok(None)
                        } else {
                            self.state = SessionState::Failed;
                            Err(
                                RemoteSignError::ServerUnexpectedMessage(
                                    String::from_str(
                                        "the relay names another initiator key than the session join string",
                                    ),
                                ),
                            )
                        }
                    },
                }
            },
            RelayMessage::RelayPayload { data } => {
                let ciphertext = data.as_slice();
                let decrypted = decrypter.decrypt(ciphertext);
                let ghost answer = decrypted;
                assert(call_ensures(D::decrypt, (decrypter, ciphertext), answer));
                self.accept_plaintext(decrypted)
            },
            RelayMessage::Error { message } => {
                self.state = SessionState::Failed;
                Err(RemoteSignError::ServerError(message))
            },
            _ => {
                self.state = SessionState::Failed;
                Err(RemoteSignError::ServerError(String::new()))
            },
        }
    }
}

/// State-machine safety: a message that is not expected in the session's
/// state is refused with a state violation, and the session is as it was
/// but for its state, which is unchanged or `Failed`.
pub proof fn unexpected_message_is_refused(
    session: SessionView,
    message: MessageView,
    decrypted: Result<Seq<u8>, ErrorKind>,
)
    requires
        !session.accepts(message.kind()),
    ensures
        session.receiving(message, decrypted).1 matches Err(kind) && kind.spec_category()
            == ErrorCategory::LocalState,
        session.receiving(message, decrypted).0 == session.in_state(
            session.receiving(message, decrypted).0.state,
        ),
        session.receiving(message, decrypted).0.state == session.state || session.receiving(
            message,
            decrypted,
        ).0.state == SessionState::Failed,
{
}

/// The same of operations: one that the session's state does not allow
/// changes nothing but the state, which is unchanged or `Failed`.
pub proof fn forbidden_operation_is_refused(session: SessionView, operation: Operation)
    requires
        !session.allows(operation),
    ensures
        session.performing(operation) == session.in_state(session.performing(operation).state),
        session.performing(operation).state == session.state || session.performing(
            operation,
        ).state == SessionState::Failed,
{
}

/// No payload is accepted before the session is established: whatever is
/// received in another state, and whatever a key is said to have answered,
/// the caller gets no plaintext.
pub proof fn no_plaintext_before_established(
    session: SessionView,
    message: MessageView,
    decrypted: Result<Seq<u8>, ErrorKind>,
)
    requires
        session.state != SessionState::Established,
    ensures
        !(session.receiving(message, decrypted).1 matches Ok(Some(_))),
        !(session.opening(decrypted).1 matches Ok(Some(_))),
        !session.allows(Operation::SendPayload),
{
}

/// A session that has ended stays as it is, whatever it receives and
/// whatever is asked of it.
pub proof fn ended_session_stays(
    session: SessionView,
    message: MessageView,
    decrypted: Result<Seq<u8>, ErrorKind>,
    operation: Operation,
)
    requires
        session.state.spec_is_terminal(),
    ensures
        session.receiving(message, decrypted).0 == session,
        session.receiving(message, decrypted).1 is Err,
        session.opening(decrypted).0 == session,
        session.performing(operation) == session,
        !session.allows(operation),
        session.failed() == session,
{
}

/// No step lowers the state, changes the role, or breaks the consistency
/// of a session.
pub proof fn steps_only_advance(
    session: SessionView,
    message: MessageView,
    decrypted: Result<Seq<u8>, ErrorKind>,
    operation: Operation,
)
    requires
        session.is_consistent(),
    ensures
        session.may_become(session.receiving(message, decrypted).0),
        session.receiving(message, decrypted).0.is_consistent(),
        session.may_become(session.opening(decrypted).0),
        session.opening(decrypted).0.is_consistent(),
        session.may_become(session.performing(operation)),
        session.performing(operation).is_consistent(),
        session.may_become(session.failed()),
        session.failed().is_consistent(),
{
}

/// A join that arrives at an established session is refused, and the
/// session stays established.
pub proof fn late_join_leaves_session_established(
    session: SessionView,
    public_key: Seq<u8>,
    decrypted: Result<Seq<u8>, ErrorKind>,
)
    requires
        session.state == SessionState::Established,
    ensures
        session.receiving(MessageView::PeerJoined { public_key }, decrypted) == (
            session,
            Err::<Option<Seq<u8>>, ErrorKind>(ErrorKind::SessionJoinUnwantedState),
        ),
        session.receiving(MessageView::JoinSession { public_key }, decrypted) == (
            session,
            Err::<Option<Seq<u8>>, ErrorKind>(ErrorKind::SessionJoinUnwantedState),
        ),
        session.performing(Operation::Begin) == session,
{
}

} // verus!
