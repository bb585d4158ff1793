//! The life of one client connection, as step functions from an event to the
//! next state and the effects that the runtime must carry out, in order.
//!
//! The runtime reads the first frame and asks the authenticator, then hands the
//! outcome to [`Connection::authenticate`]; it runs the store batch of a
//! `StorePut` and hands the outcome to [`Connection::on_store_result`]; then, for
//! each inbound frame, it calls [`Connection::on_frame`]. Backend results become
//! frames through [`backend_reply`].

use vstd::prelude::*;
use vstd::string::StringExecFns;
use crate::envelope::{
    encode_error, encode_fatal_error, encode_response, encode_session_info, error_json,
    fatal_error_json, response_json, session_info_json,
};
use crate::request::{CommunicationRequest, ConnectionRequest};
use crate::session::{is_hyphenated_uuid, new_session_id, SessionRecord};

verus! {

/// Where a connection stands.
#[derive(PartialEq, Eq, Structural, Clone, Copy, Debug)]
pub enum Phase {
    /// Waiting for the one authentication frame.
    AwaitingAuth,
    /// Authenticated; the session record is being written.
    Caching,
    /// Session stored and client registered; frames are exchanged.
    Open,
    /// Finished: no later event has an effect.
    Closed,
}

/// What came of the authentication frame.
pub enum FirstFrame {
    /// The channel ended before any frame.
    Missing,
    /// Reading the channel failed.
    ReadFailed { reason: String },
    /// The authenticator refused the frame.
    Rejected { code: u16, message: String },
    /// The authenticator accepted the frame.
    Accepted { user_id: u64, claims: String },
}

/// An inbound event once the connection is open.
pub enum InboundFrame {
    /// A text frame, with what it decodes to in each of the two vocabularies.
    Text { control: Option<ConnectionRequest>, application: Option<CommunicationRequest> },
    /// A close frame.
    Close,
    /// A frame that is not text (binary, ping, pong).
    NonText,
    /// The channel ended or failed.
    Ended,
}

/// Something the runtime must do for a connection.
#[derive(Debug)]
pub enum Effect {
    /// Write a frame straight to the channel.
    Send { text: String },
    /// Write the session record to the store; its outcome comes back through
    /// `on_store_result`.
    StorePut { record: SessionRecord },
    /// Register the connection's outbound queue with the registry.
    Register,
    /// Post a frame through the registry to the connection's outbound queue.
    Enqueue { text: String },
    /// Hand a prompt to the backend, as a task of its own.
    Dispatch { prompt: String },
    /// Delete a session record from the store.
    StoreDelete { session_id: String },
    /// Remove the connection from the registry.
    Deregister,
}

/// An effect, over plain values.
pub enum EffectV {
    Send(Seq<char>),
    StorePut(Seq<char>, u64, Seq<char>),
    Register,
    Enqueue(Seq<char>),
    Dispatch(Seq<char>),
    StoreDelete(Seq<char>),
    Deregister,
}

impl View for Effect {
    type V = EffectV;

    open spec fn view(&self) -> EffectV {
        match self {
            Effect::Send { text } => EffectV::Send(text@),
            Effect::StorePut { record } => EffectV::StorePut(
                record.session_id@,
                record.user_id,
                record.claims@,
            ),
            Effect::Register => EffectV::Register,
            Effect::Enqueue { text } => EffectV::Enqueue(text@),
            Effect::Dispatch { prompt } => EffectV::Dispatch(prompt@),
            Effect::StoreDelete { session_id } => EffectV::StoreDelete(session_id@),
            Effect::Deregister => EffectV::Deregister,
        }
    }
}

/// The views of a list of effects.
pub open spec fn effects_view(es: Seq<Effect>) -> Seq<EffectV> {
    es.map_values(|e: Effect| e@)
}

/// A connection, over plain values.
pub struct ConnV {
    pub client_id: u128,
    pub phase: Phase,
    pub session_id: Seq<char>,
    pub user_id: u64,
}

/// The state of one client connection.
pub struct Connection {
    client_id: u128,
    phase: Phase,
    session_id: String,
    user_id: u64,
}

impl View for Connection {
    type V = ConnV;

    closed spec fn view(&self) -> ConnV {
        ConnV {
            client_id: self.client_id,
            phase: self.phase,
            session_id: self.session_id@,
            user_id: self.user_id,
        }
    }
}

/// `c` with its phase set to `p`.
pub open spec fn with_phase(c: ConnV, p: Phase) -> ConnV {
    ConnV { client_id: c.client_id, phase: p, session_id: c.session_id, user_id: c.user_id }
}

/// The frame that announces a stored session.
pub open spec fn session_created_json(session_id: Seq<char>, user_id: u64) -> Seq<char> {
    response_json("session_created"@, session_info_json(session_id, user_id))
}

/// The frame that confirms a disconnect request.
pub open spec fn disconnected_json() -> Seq<char> {
    response_json("disconnected"@, "Successfully disconnected"@)
}

/// The frame for a connection request on a connection that is already open.
pub open spec fn already_connected_json() -> Seq<char> {
    error_json("invalid_request"@, "Already connected"@)
}

/// The frame for a text frame that neither vocabulary decodes.
pub open spec fn unknown_request_json() -> Seq<char> {
    error_json("invalid_request"@, "Unknown request type"@)
}

/// The frame for a frame that is not text.
pub open spec fn invalid_message_json() -> Seq<char> {
    error_json("invalid_message"@, "Only text messages are supported"@)
}

/// The effects that release a connection's resources: first the registry entry, then
/// the session record.
pub open spec fn teardown(session_id: Seq<char>) -> Seq<EffectV> {
    seq![EffectV::Deregister, EffectV::StoreDelete(session_id)]
}

/// The step on the authentication frame; `session_id` is the id minted for an
/// accepted frame.
pub open spec fn auth_next(c: ConnV, f: FirstFrame, session_id: Seq<char>) -> (ConnV, Seq<EffectV>) {
    if c.phase != Phase::AwaitingAuth {
        (c, Seq::empty())
    } else {
        match f {
            FirstFrame::Missing => (
                with_phase(c, Phase::Closed),
                seq![
                    EffectV::Send(
                        fatal_error_json("no_message"@, "No initial message received"@, 400),
                    ),
                ],
            ),
            FirstFrame::ReadFailed { reason } => (
                with_phase(c, Phase::Closed),
                seq![
                    EffectV::Send(
                        fatal_error_json(
                            "connection_error"@,
                            "Failed to read message: "@ + reason@,
                            400,
                        ),
                    ),
                ],
            ),
            FirstFrame::Rejected { code, message } => (
                with_phase(c, Phase::Closed),
                seq![
                    EffectV::Send(
                        fatal_error_json("authentication_failed"@, message@, code as u64),
                    ),
                ],
            ),
            FirstFrame::Accepted { user_id, claims } => (
                ConnV {
                    client_id: c.client_id,
                    phase: Phase::Caching,
                    session_id: session_id,
                    user_id: user_id,
                },
                seq![EffectV::StorePut(session_id, user_id, claims@)],
            ),
        }
    }
}

/// The step on the outcome of writing the session record.
pub open spec fn store_next(c: ConnV, result: Result<(), String>) -> (ConnV, Seq<EffectV>) {
    if c.phase != Phase::Caching {
        (c, Seq::empty())
    } else {
        match result {
            Ok(_) => (
                with_phase(c, Phase::Open),
                seq![
                    EffectV::Register,
                    EffectV::Send(session_created_json(c.session_id, c.user_id)),
                ],
            ),
            Err(e) => (
                with_phase(c, Phase::Closed),
                seq![
                    EffectV::Send(
                        fatal_error_json("cache_error"@, "Failed to cache user data: "@ + e@, 500),
                    ),
                ],
            ),
        }
    }
}

/// The step on a text frame of an open connection: the connection vocabulary is
/// tried first, then the application one.
pub open spec fn text_next(
    c: ConnV,
    control: Option<ConnectionRequest>,
    application: Option<CommunicationRequest>,
) -> (ConnV, Seq<EffectV>) {
    match control {
        Some(ConnectionRequest::Disconnect { session_id, user_id: _ }) => {
            if session_id@ == c.session_id {
                (
                    with_phase(c, Phase::Closed),
                    seq![
                        EffectV::StoreDelete(c.session_id),
                        EffectV::Enqueue(disconnected_json()),
                    ] + teardown(c.session_id),
                )
            } else {
                (c, Seq::empty())
            }
        },
        Some(ConnectionRequest::StartConnection) => (
            c,
            seq![EffectV::Enqueue(already_connected_json())],
        ),
        None => match application {
            Some(CommunicationRequest::AIRequest { prompt }) => (
                c,
                seq![EffectV::Dispatch(prompt@)],
            ),
            None => (c, seq![EffectV::Enqueue(unknown_request_json())]),
        },
    }
}

/// The step on an inbound frame.
pub open spec fn frame_next(c: ConnV, f: InboundFrame) -> (ConnV, Seq<EffectV>) {
    if c.phase != Phase::Open {
        (c, Seq::empty())
    } else {
        match f {
            InboundFrame::Text { control, application } => text_next(c, control, application),
            InboundFrame::NonText => (c, seq![EffectV::Enqueue(invalid_message_json())]),
            InboundFrame::Close => (with_phase(c, Phase::Closed), teardown(c.session_id)),
            InboundFrame::Ended => (with_phase(c, Phase::Closed), teardown(c.session_id)),
        }
    }
}

/// The frame that reports a backend outcome.
pub open spec fn backend_reply_json(result: Result<String, String>) -> Seq<char> {
    match result {
        Ok(output) => response_json("success"@, output@),
        Err(e) => error_json("ai_error"@, "AI processing failed: "@ + e@),
    }
}

/// Builds the frame that reports what the backend made of a prompt.
pub fn backend_reply(result: &Result<String, String>) -> (r: String)
    ensures
        r@ == backend_reply_json(*result),
{
    match result {
        Ok(output) => encode_response("success", output.as_str()),
        Err(e) => {
            let mut m = String::from_str("AI processing failed: ");
            m.append(e.as_str());
            encode_error("ai_error", m.as_str())
        },
    }
}

impl Connection {
    /// A connection that has just been accepted, under the id `client_id`.
    pub fn new(client_id: u128) -> (r: Connection)
        ensures
            r@ == (ConnV {
                client_id: client_id,
                phase: Phase::AwaitingAuth,
                session_id: Seq::empty(),
                user_id: 0,
            }),
    {
        Connection { client_id, phase: Phase::AwaitingAuth, session_id: String::new(), user_id: 0 }
    }

    /// The id under which the connection was accepted.
    pub fn client_id(&self) -> (r: u128)
        ensures
            r == self@.client_id,
    {
        self.client_id
    }

    /// Where the connection stands.
    pub fn phase(&self) -> (r: Phase)
        ensures
            r == self@.phase,
    {
        self.phase
    }

    /// The id of the connection's session; empty before authentication.
    pub fn session_id(&self) -> (r: &str)
        ensures
            r@ == self@.session_id,
    {
        self.session_id.as_str()
    }

    /// The authenticated user's id; 0 before authentication.
    pub fn user_id(&self) -> (r: u64)
        ensures
            r == self@.user_id,
    {
        self.user_id
    }

    /// Takes the outcome of the authentication frame. An accepted frame gets a fresh
    /// session id, whatever it is; every other step is exact.
    pub fn authenticate(&mut self, first: FirstFrame) -> (r: Vec<Effect>)
        ensures
            (final(self)@, effects_view(r@)) == auth_next(
                old(self)@,
                first,
                final(self)@.session_id,
            ),
            old(self)@.phase == Phase::AwaitingAuth && first is Accepted ==> is_hyphenated_uuid(
                final(self)@.session_id,
            ),
    {
        if self.phase == Phase::AwaitingAuth {
            if let FirstFrame::Accepted { .. } = first {
                let session_id = new_session_id();
                return self.authenticate_with(first, session_id);
            }
        }
        self.authenticate_with(first, String::new())
    }

    /// Takes the outcome of the authentication frame, with `session_id` as the id of
    /// the session that an accepted frame opens.
    pub fn authenticate_with(&mut self, first: FirstFrame, session_id: String) -> (r: Vec<Effect>)
        ensures
            (final(self)@, effects_view(r@)) == auth_next(old(self)@, first, session_id@),
    {
        let mut r: Vec<Effect> = Vec::new();
        if self.phase != Phase::AwaitingAuth {
            assert(effects_view(r@) =~= Seq::empty());
            return r;
        }
        let ghost f = first;
        match first {
            FirstFrame::Missing => {
                self.phase = Phase::Closed;
                r.push(
                    Effect::Send {
                        text: encode_fatal_error("no_message", "No initial message received", 400),
                    },
                );
            },
            FirstFrame::ReadFailed { reason } => {
                self.phase = Phase::Closed;
                let mut m = String::from_str("Failed to read message: ");
                m.append(reason.as_str());
                r.push(
                    Effect::Send { text: encode_fatal_error("connection_error", m.as_str(), 400) },
                );
            },
            FirstFrame::Rejected { code, message } => {
                self.phase = Phase::Closed;
                r.push(
                    Effect::Send {
                        text: encode_fatal_error(
                            "authentication_failed",
                            message.as_str(),
                            code as u64,
                        ),
                    },
                );
            },
            FirstFrame::Accepted { user_id, claims } => {
                self.phase = Phase::Caching;
                self.user_id = user_id;
                self.session_id = session_id.clone();
                r.push(Effect::StorePut { record: SessionRecord { session_id, user_id, claims } });
            },
        }
        assert(effects_view(r@) =~= auth_next(old(self)@, f, session_id@).1);
        r
    }

    /// Takes the outcome of writing the session record.
    pub fn on_store_result(&mut self, result: Result<(), String>) -> (r: Vec<Effect>)
        ensures
            (final(self)@, effects_view(r@)) == store_next(old(self)@, result),
    {
        let mut r: Vec<Effect> = Vec::new();
        if self.phase != Phase::Caching {
            assert(effects_view(r@) =~= Seq::empty());
            return r;
        }
        let ghost res = result;
        match result {
            Ok(_) => {
                self.phase = Phase::Open;
                r.push(Effect::Register);
                let info = encode_session_info(self.session_id.as_str(), self.user_id);
                r.push(Effect::Send { text: encode_response("session_created", info.as_str()) });
            },
            Err(e) => {
                self.phase = Phase::Closed;
                let mut m = String::from_str("Failed to cache user data: ");
                m.append(e.as_str());
                r.push(Effect::Send { text: encode_fatal_error("cache_error", m.as_str(), 500) });
            },
        }
        assert(effects_view(r@) =~= store_next(old(self)@, res).1);
        r
    }

    /// Takes an inbound frame of an open connection.
    pub fn on_frame(&mut self, frame: InboundFrame) -> (r: Vec<Effect>)
        ensures
            (final(self)@, effects_view(r@)) == frame_next(old(self)@, frame),
    {
        let mut r: Vec<Effect> = Vec::new();
        if self.phase != Phase::Open {
            assert(effects_view(r@) =~= Seq::empty());
            return r;
        }
        let ghost f = frame;
        match frame {
            InboundFrame::Text { control, application } => {
                match control {
                    Some(ConnectionRequest::Disconnect { session_id, user_id: _ }) => {
                        if session_id == self.session_id {
                            self.phase = Phase::Closed;
                            r.push(Effect::StoreDelete { session_id: self.session_id.clone() });
                            r.push(
                                Effect::Enqueue {
                                    text: encode_response(
                                        "disconnected",
                                        "Successfully disconnected",
                                    ),
                                },
                            );
                            r.push(Effect::Deregister);
                            r.push(Effect::StoreDelete { session_id: self.session_id.clone() });
                        }
                    },
                    Some(ConnectionRequest::StartConnection) => {
                        r.push(
                            Effect::Enqueue {
                                text: encode_error("invalid_request", "Already connected"),
                            },
                        );
                    },
                    None => match application {
                        Some(CommunicationRequest::AIRequest { prompt }) => {
                            r.push(Effect::Dispatch { prompt });
                        },
                        None => {
                            r.push(
                                Effect::Enqueue {
                                    text: encode_error("invalid_request", "Unknown request type"),
                                },
                            );
                        },
                    },
                }
            },
            InboundFrame::NonText => {
                r.push(
                    Effect::Enqueue {
                        text: encode_error("invalid_message", "Only text messages are supported"),
                    },
                );
            },
            InboundFrame::Close | InboundFrame::Ended => {
                self.phase = Phase::Closed;
                r.push(Effect::Deregister);
                r.push(Effect::StoreDelete { session_id: self.session_id.clone() });
            },
        }
        assert(effects_view(r@) =~= frame_next(old(self)@, f).1);
        r
    }
}

} // verus!
