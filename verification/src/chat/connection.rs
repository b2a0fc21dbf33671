//! The session: the one-shot latch of the public handle, the address of the
//! chat endpoint, and the state machine that drives a connection from its
//! start to its end.
//!
//! The state machine does no I/O. Whoever runs the session owns the socket,
//! the timer and the channels; it tells the machine what happened, and the
//! machine answers with its next state and with what to do, in order.

use crate::chat::commands::{Command, MessageType};
use crate::chat::constants::message_codes;
use crate::chat::constants::{BODY_LIMIT, HEADER_LEN};
use crate::chat::events::{option_view, Event, EventView, Timestamp};
use crate::chat::formatter::{chat_packet, frame_of, ChatFormatter};
use crate::chat::message::{events_view, Dispatch, MessageHandler};
use crate::chat::options::SoopChatOptions;
use crate::chat::parser::raw::{header_code, parse_header};
use crate::error::{Error, ErrorView};
use crate::models::LiveDetail;
use crate::text::{decimal_text, lowercase_text, to_lowercase, u64_to_text};
use vstd::prelude::*;
use vstd::slice::slice_subrange;
use vstd::string::*;
use vstd::utf8::*;

verus! {

/// The address as a URL parser writes it, where it is the address of
/// something: an absolute URL.
pub uninterp spec fn url_text(address: Seq<char>) -> Option<Seq<char>>;

/// `url::Url::parse`: the URL that an address is, written out, or the
/// parser's words on why it is none. Nothing is claimed of the words.
#[verifier::external_body]
fn parsed_url(address: &str) -> (r: Result<String, String>)
    ensures
        match r {
            Ok(url) => url_text(address@) == Some(url@),
            Err(_) => url_text(address@) is None,
        },
{
    match url::Url::parse(address) {
        Ok(url) => Ok(url.into()),
        Err(e) => Err(e.to_string()),
    }
}

/// The address of the chat endpoint of a stream, as it is put together:
/// the host in lower case, the port above the resolved one, and the
/// streamer.
pub open spec fn connection_address(host: Seq<char>, port: u64, streamer_id: Seq<char>) -> Seq<
    char,
> {
    "wss://"@ + lowercase_text(host) + ":"@ + decimal_text((port + 1) as nat) + "/Websocket/"@
        + streamer_id
}

/// The URL of the chat endpoint of a stream, where its address is one and
/// the resolved port has a number above it.
pub open spec fn connection_url(host: Seq<char>, port: u64, streamer_id: Seq<char>) -> Option<
    Seq<char>,
> {
    if port < u64::MAX {
        url_text(connection_address(host, port, streamer_id))
    } else {
        None
    }
}

/// The URL of the chat endpoint of a stream.
///
/// Fails with `UrlParse` exactly where the endpoint has no URL.
pub fn make_connection_url(streamer_id: &str, live_detail: &LiveDetail) -> (r: Result<
    String,
    Error,
>)
    ensures
        match r {
            Ok(url) => connection_url(live_detail.ch_domain@, live_detail.ch_pt, streamer_id@)
                == Some(url@),
            Err(e) => connection_url(live_detail.ch_domain@, live_detail.ch_pt, streamer_id@)
                is None && e is UrlParse,
        },
{
    if live_detail.ch_pt == u64::MAX {
        return Err(Error::UrlParse("invalid port number".to_owned()));
    }
    let mut address: String = "wss://".to_owned();
    address.append(to_lowercase(live_detail.ch_domain.as_str()).as_str());
    address.append(":");
    address.append(u64_to_text(live_detail.ch_pt + 1).as_str());
    address.append("/Websocket/");
    address.append(streamer_id);
    match parsed_url(address.as_str()) {
        Ok(url) => Ok(url),
        Err(reason) => Err(Error::UrlParse(reason)),
    }
}

/// The latch that makes `start` one-shot.
#[derive(Debug, PartialEq, Eq)]
pub struct StartLatch {
    consumed: bool,
}

impl StartLatch {
    /// `start` has been called.
    pub closed spec fn consumed(&self) -> bool {
        self.consumed
    }

    /// A latch that has not been consumed.
    pub fn new() -> (latch: StartLatch)
        ensures
            !latch.consumed(),
    {
        StartLatch { consumed: false }
    }

    /// `start` has been called.
    pub fn is_consumed(&self) -> (r: bool)
        ensures
            r == self.consumed(),
    {
        self.consumed
    }

    /// Consumes the latch. Fails with `AlreadyStarted` exactly where it was
    /// consumed before; it is consumed afterwards either way.
    pub fn consume(&mut self) -> (r: Result<(), Error>)
        ensures
            final(self).consumed(),
            match r {
                Ok(_) => !old(self).consumed(),
                Err(e) => old(self).consumed() && e is AlreadyStarted,
            },
    {
        if self.consumed {
            Err(Error::AlreadyStarted)
        } else {
            self.consumed = true;
            Ok(())
        }
    }
}

/// The states of a session, without what the session holds in each.
#[derive(Debug, Clone, Copy, PartialEq, Eq, Structural)]
pub enum SessionState {
    Idle,
    Resolving,
    Connecting,
    Handshaking,
    Live,
    Draining,
    Terminated,
}

/// A session, in one of its states.
#[derive(Debug, PartialEq, Eq)]
pub enum Session {
    /// Created, not started.
    Idle(SoopChatOptions),
    /// The resolver has been asked about the stream.
    Resolving(SoopChatOptions),
    /// The WebSocket is being opened.
    Connecting(MessageHandler),
    /// CONNECT has been sent; the server's CONNECT is awaited.
    Handshaking(MessageHandler),
    /// The server's CONNECT has arrived and was answered with JOIN.
    Live(MessageHandler),
    /// The socket is being closed, on a failure where one is held.
    Draining(Option<Error>),
    /// The session has ended.
    Terminated,
}

/// What happened, as the runner of a session tells it.
#[derive(Debug, PartialEq, Eq)]
pub enum SessionInput {
    /// The session was started.
    Start,
    /// The resolver answered: whether the stream is live, and its detail.
    Resolved(bool, Option<LiveDetail>),
    /// The resolver could not be asked, or did not answer.
    ResolveFailed(String),
    /// The WebSocket is open.
    Connected,
    /// The WebSocket could not be opened.
    ConnectFailed(String),
    /// The chat server's certificate was refused, or the TLS handshake
    /// failed otherwise.
    TlsFailed(String),
    /// A binary frame arrived at this time.
    Frame(Vec<u8>, Timestamp),
    /// A command was taken from the queue.
    Command(Command),
    /// The heartbeat timer fired.
    Heartbeat,
    /// Reading from or writing to the socket failed.
    SocketFailed(String),
    /// The socket is closed: by the peer, or because the session asked.
    Closed,
}

/// What the runner of a session is to do.
#[derive(Debug, PartialEq, Eq)]
pub enum SessionAction {
    /// Ask the resolver about this streamer.
    Resolve(String),
    /// Open the WebSocket at this address, with the subprotocol `chat`.
    Connect(String),
    /// Send this frame as one binary message.
    Send(Vec<u8>),
    /// Publish this event to the subscribers.
    Publish(Event),
    /// Close the socket.
    Close,
    /// End the session task with this result.
    Finish(Result<(), Error>),
}

/// The mathematical model of a [`SessionAction`].
pub enum SessionActionView {
    Resolve(Seq<char>),
    Connect(Seq<char>),
    Send(Seq<u8>),
    Publish(EventView),
    Close,
    Finish(Option<ErrorView>),
}

impl View for SessionAction {
    type V = SessionActionView;

    open spec fn view(&self) -> SessionActionView {
        match *self {
            SessionAction::Resolve(s) => SessionActionView::Resolve(s@),
            SessionAction::Connect(s) => SessionActionView::Connect(s@),
            SessionAction::Send(f) => SessionActionView::Send(f@),
            SessionAction::Publish(e) => SessionActionView::Publish(e@),
            SessionAction::Close => SessionActionView::Close,
            SessionAction::Finish(r) => SessionActionView::Finish(
                match r {
                    Ok(_) => None,
                    Err(e) => Some(e@),
                },
            ),
        }
    }
}

/// The models of a list of actions.
pub open spec fn actions_view(actions: Seq<SessionAction>) -> Seq<SessionActionView> {
    Seq::new(actions.len(), |i: int| actions[i]@)
}

/// One `Publish` for each event, in order.
pub open spec fn publish_all(events: Seq<EventView>) -> Seq<SessionActionView> {
    Seq::new(events.len(), |i: int| SessionActionView::Publish(events[i]))
}

/// One `Send` for a frame that is there.
pub open spec fn send_if(frame: Option<Seq<u8>>) -> Seq<SessionActionView> {
    match frame {
        Some(f) => seq![SessionActionView::Send(f)],
        None => Seq::<SessionActionView>::empty(),
    }
}

/// The frame that a text and an opcode make, where one can be written.
pub open spec fn frame_if_encodable(opcode: u32, body: Seq<u8>) -> Option<Seq<u8>> {
    if body.len() < BODY_LIMIT {
        Some(frame_of(opcode, body))
    } else {
        None
    }
}

/// What a frame that arrived leads to while the socket is open: its events
/// are published in order, then its reply, if it has one, is sent.
pub open spec fn frame_actions(events: Seq<EventView>, reply: Option<Seq<u8>>) -> Seq<
    SessionActionView,
> {
    publish_all(events) + send_if(reply)
}

/// The frame is the server's CONNECT.
pub open spec fn is_connect_frame(frame: Seq<u8>) -> bool {
    frame.len() >= HEADER_LEN && header_code(frame) == message_codes::CONNECT
}

/// What a frame that arrived at `received_time` leads to, for a session
/// that holds `handler`: what the handler makes of the frame.
pub open spec fn frame_leads_to(
    handler: MessageHandler,
    frame: Seq<u8>,
    received_time: Timestamp,
) -> Seq<SessionActionView> {
    let (events, reply) = handler.dispatch_of(frame, received_time);
    frame_actions(events, reply)
}

impl Session {
    /// The state that the session is in.
    pub open spec fn state(self) -> SessionState {
        match self {
            Session::Idle(_) => SessionState::Idle,
            Session::Resolving(_) => SessionState::Resolving,
            Session::Connecting(_) => SessionState::Connecting,
            Session::Handshaking(_) => SessionState::Handshaking,
            Session::Live(_) => SessionState::Live,
            Session::Draining(_) => SessionState::Draining,
            Session::Terminated => SessionState::Terminated,
        }
    }

    /// What a session in the state Resolving does with the resolver's
    /// answer. A stream that is not live ends the session with
    /// `StreamOffline`, a live one without detail with `InternalChannel`, one
    /// whose endpoint has no URL with `UrlParse`. Otherwise the WebSocket is
    /// opened at the endpoint's URL.
    pub open spec fn resolved(
        options: SoopChatOptions,
        is_live: bool,
        detail: Option<LiveDetail>,
        next: Session,
        actions: Seq<SessionActionView>,
    ) -> bool {
        if !is_live {
            next == Session::Terminated && actions == seq![
                SessionActionView::Finish(Some(ErrorView::StreamOffline)),
            ]
        } else {
            match detail {
                None => next == Session::Terminated && actions.len() == 1 && actions[0] is Finish
                    && actions[0]->Finish_0 matches Some(ErrorView::InternalChannel(_)),
                Some(detail) => match connection_url(
                    detail.ch_domain@,
                    detail.ch_pt,
                    options.streamer_id@,
                ) {
                    None => next == Session::Terminated && actions.len() == 1 && actions[0]
                        is Finish && actions[0]->Finish_0 matches Some(ErrorView::UrlParse(_)),
                    Some(url) => next == Session::Connecting(
                        MessageHandler {
                            formatter: ChatFormatter {
                                live_detail: detail,
                                password: options.password,
                            },
                        },
                    ) && actions == seq![SessionActionView::Connect(url)],
                },
            }
        }
    }

    /// What a session with an open socket does with what happened. A frame
    /// leads to its events and its reply. The server's CONNECT, answered with
    /// JOIN, makes the session live; where no JOIN frame can be written,
    /// because the room and the password are too long for one, the socket is
    /// closed and the session ends with `InvalidFrame`. A heartbeat sends
    /// PING. `SendChat` sends the text in a CHAT frame, where one can be
    /// written. `Shutdown` and a failure of the socket close it; the failure
    /// is held until the session ends. A socket that the peer closed ends the
    /// session at once.
    pub open spec fn open_steps_to(
        handler: MessageHandler,
        live: bool,
        input: SessionInput,
        next: Session,
        actions: Seq<SessionActionView>,
    ) -> bool {
        let same = if live {
            Session::Live(handler)
        } else {
            Session::Handshaking(handler)
        };
        match input {
            SessionInput::Frame(frame, received_time) => if is_connect_frame(frame@) {
                match handler.join_frame() {
                    Some(_) => next == Session::Live(handler) && actions == frame_leads_to(
                        handler,
                        frame@,
                        received_time,
                    ),
                    None => next == Session::Draining(Some(Error::InvalidFrame)) && actions
                        == frame_leads_to(handler, frame@, received_time) + seq![
                        SessionActionView::Close,
                    ],
                }
            } else {
                next == same && actions == frame_leads_to(handler, frame@, received_time)
            },
            SessionInput::Heartbeat => next == same && actions == seq![
                SessionActionView::Send(frame_of(message_codes::PING, Seq::<u8>::empty())),
            ],
            SessionInput::Command(Command::SendChat(text)) => next == same && actions == send_if(
                frame_if_encodable(message_codes::CHAT, encode_utf8(chat_packet(text@))),
            ),
            SessionInput::Command(Command::Shutdown) => next == Session::Draining(None) && actions
                == seq![SessionActionView::Close],
            SessionInput::SocketFailed(reason) => next == Session::Draining(
                Some(Error::WebSocketIo(reason)),
            ) && actions == seq![SessionActionView::Close],
            SessionInput::Closed => next == Session::Terminated && actions == seq![
                SessionActionView::Publish(EventView::Disconnected),
                SessionActionView::Finish(None),
            ],
            _ => next == same && actions == Seq::<SessionActionView>::empty(),
        }
    }

    /// How a session ends once its socket is closed: `Disconnected` is
    /// published, and the task ends with the failure that was held, if any.
    pub open spec fn drained(failure: Option<Error>) -> Seq<SessionActionView> {
        seq![
            SessionActionView::Publish(EventView::Disconnected),
            SessionActionView::Finish(
                match failure {
                    Some(e) => Some(e@),
                    None => None,
                },
            ),
        ]
    }

    /// The session `self`, told `input`, becomes `next` and asks for
    /// `actions`. What no state expects changes nothing and asks for nothing.
    pub open spec fn steps_to(
        self,
        input: SessionInput,
        next: Session,
        actions: Seq<SessionActionView>,
    ) -> bool {
        match self {
            Session::Idle(options) => match input {
                SessionInput::Start => next == Session::Resolving(options) && actions == seq![
                    SessionActionView::Resolve(options.streamer_id@),
                ],
                _ => next == self && actions == Seq::<SessionActionView>::empty(),
            },
            Session::Resolving(options) => match input {
                SessionInput::Resolved(is_live, detail) => Self::resolved(
                    options,
                    is_live,
                    detail,
                    next,
                    actions,
                ),
                SessionInput::ResolveFailed(reason) => next == Session::Terminated && actions
                    == seq![SessionActionView::Finish(Some(ErrorView::ResolveFailed(reason@)))],
                _ => next == self && actions == Seq::<SessionActionView>::empty(),
            },
            Session::Connecting(handler) => match input {
                SessionInput::Connected => next == Session::Handshaking(handler) && actions == seq![
                    SessionActionView::Publish(EventView::Connected),
                ] + send_if(handler.connect_frame()),
                SessionInput::ConnectFailed(reason) => next == Session::Terminated && actions
                    == seq![SessionActionView::Finish(Some(ErrorView::ConnectionFailed(reason@)))],
                SessionInput::TlsFailed(reason) => next == Session::Terminated && actions == seq![
                    SessionActionView::Finish(Some(ErrorView::TlsHandshakeFailed(reason@))),
                ],
                _ => next == self && actions == Seq::<SessionActionView>::empty(),
            },
            Session::Handshaking(handler) => Self::open_steps_to(
                handler,
                false,
                input,
                next,
                actions,
            ),
            Session::Live(handler) => Self::open_steps_to(handler, true, input, next, actions),
            Session::Draining(failure) => match input {
                SessionInput::Closed => next == Session::Terminated && actions == Self::drained(
                    failure,
                ),
                SessionInput::SocketFailed(_) => next == Session::Terminated && actions
                    == Self::drained(failure),
                _ => next == self && actions == Seq::<SessionActionView>::empty(),
            },
            Session::Terminated => next == self && actions == Seq::<SessionActionView>::empty(),
        }
    }

    /// A session that has not been started.
    pub fn new(options: SoopChatOptions) -> (session: Session)
        ensures
            session == Session::Idle(options),
    {
        Session::Idle(options)
    }

    /// The state that the session is in.
    pub fn current_state(&self) -> (state: SessionState)
        ensures
            state == self.state(),
    {
        match self {
            Session::Idle(_) => SessionState::Idle,
            Session::Resolving(_) => SessionState::Resolving,
            Session::Connecting(_) => SessionState::Connecting,
            Session::Handshaking(_) => SessionState::Handshaking,
            Session::Live(_) => SessionState::Live,
            Session::Draining(_) => SessionState::Draining,
            Session::Terminated => SessionState::Terminated,
        }
    }

    /// Tells the session what happened. Returns the session in its next
    /// state, and what is to be done, in order.
    pub fn step(self, input: SessionInput) -> (r: (Session, Vec<SessionAction>))
        ensures
            self.steps_to(input, r.0, actions_view(r.1@)),
    {
        match self {
            Session::Idle(options) => match input {
                SessionInput::Start => {
                    let mut actions: Vec<SessionAction> = Vec::new();
                    actions.push(SessionAction::Resolve(options.streamer_id.clone()));
                    proof {
                        assert(actions_view(actions@) =~= seq![
                            SessionActionView::Resolve(options.streamer_id@),
                        ]);
                    }
                    (Session::Resolving(options), actions)
                },
                _ => Self::unmoved(Session::Idle(options)),
            },
            Session::Resolving(options) => match input {
                SessionInput::Resolved(is_live, detail) => Self::on_resolved(
                    options,
                    is_live,
                    detail,
                ),
                SessionInput::ResolveFailed(reason) => Self::finished(Error::ResolveFailed(reason)),
                _ => Self::unmoved(Session::Resolving(options)),
            },
            Session::Connecting(handler) => match input {
                SessionInput::Connected => {
                    let mut actions: Vec<SessionAction> = Vec::new();
                    actions.push(SessionAction::Publish(Event::Connected));
                    match handler.formatter.format_message(MessageType::Connect) {
                        Ok(frame) => {
                            actions.push(SessionAction::Send(frame));
                        },
                        Err(_) => {},
                    }
                    proof {
                        assert(actions_view(actions@) =~= seq![
                            SessionActionView::Publish(EventView::Connected),
                        ] + send_if(handler.connect_frame()));
                    }
                    (Session::Handshaking(handler), actions)
                },
                SessionInput::ConnectFailed(reason) => Self::finished(
                    Error::ConnectionFailed(reason),
                ),
                SessionInput::TlsFailed(reason) => Self::finished(
                    Error::TlsHandshakeFailed(reason),
                ),
                _ => Self::unmoved(Session::Connecting(handler)),
            },
            Session::Handshaking(handler) => Self::open_step(handler, false, input),
            Session::Live(handler) => Self::open_step(handler, true, input),
            Session::Draining(failure) => match input {
                SessionInput::Closed => Self::on_drained(failure),
                SessionInput::SocketFailed(_) => Self::on_drained(failure),
                _ => Self::unmoved(Session::Draining(failure)),
            },
            Session::Terminated => Self::unmoved(Session::Terminated),
        }
    }

    /// Nothing changes and nothing is to be done.
    fn unmoved(session: Session) -> (r: (Session, Vec<SessionAction>))
        ensures
            r.0 == session,
            actions_view(r.1@) == Seq::<SessionActionView>::empty(),
    {
        let actions: Vec<SessionAction> = Vec::new();
        proof {
            assert(actions_view(actions@) =~= Seq::<SessionActionView>::empty());
        }
        (session, actions)
    }

    /// The session ends on a failure before its socket was open.
    fn finished(error: Error) -> (r: (Session, Vec<SessionAction>))
        ensures
            r.0 == Session::Terminated,
            actions_view(r.1@) == seq![SessionActionView::Finish(Some(error@))],
    {
        let mut actions: Vec<SessionAction> = Vec::new();
        actions.push(SessionAction::Finish(Err(error)));
        proof {
            assert(actions_view(actions@) =~= seq![SessionActionView::Finish(Some(error@))]);
        }
        (Session::Terminated, actions)
    }

    /// The session ends once its socket is closed.
    fn on_drained(failure: Option<Error>) -> (r: (Session, Vec<SessionAction>))
        ensures
            r.0 == Session::Terminated,
            actions_view(r.1@) == Self::drained(failure),
    {
        let mut actions: Vec<SessionAction> = Vec::new();
        actions.push(SessionAction::Publish(Event::Disconnected));
        actions.push(
            SessionAction::Finish(
                match failure {
                    Some(e) => Err(e),
                    None => Ok(()),
                },
            ),
        );
        proof {
            assert(actions_view(actions@) =~= Self::drained(failure));
        }
        (Session::Terminated, actions)
    }

    /// The resolver answered.
    fn on_resolved(options: SoopChatOptions, is_live: bool, detail: Option<LiveDetail>) -> (r: (
        Session,
        Vec<SessionAction>,
    ))
        ensures
            Self::resolved(options, is_live, detail, r.0, actions_view(r.1@)),
    {
        if !is_live {
            return Self::finished(Error::StreamOffline);
        }
        match detail {
            None => Self::finished(Error::InternalChannel("live detail is missing".to_owned())),
            Some(detail) => {
                match make_connection_url(options.streamer_id.as_str(), &detail) {
                    Err(e) => Self::finished(e),
                    Ok(url) => {
                        let mut actions: Vec<SessionAction> = Vec::new();
                        actions.push(SessionAction::Connect(url));
                        proof {
                            assert(actions_view(actions@) =~= seq![
                                SessionActionView::Connect(url@),
                            ]);
                        }
                        (
                            Session::Connecting(
                                MessageHandler {
                                    formatter: ChatFormatter::new(detail, options.password),
                                },
                            ),
                            actions,
                        )
                    },
                }
            },
        }
    }

    /// The frame is the server's CONNECT.
    fn is_connect(frame: &Vec<u8>) -> (r: bool)
        ensures
            r == is_connect_frame(frame@),
    {
        if frame.len() < HEADER_LEN {
            return false;
        }
        let header = slice_subrange(frame.as_slice(), 0, HEADER_LEN);
        proof {
            assert(header@.subrange(2, 6) =~= frame@.subrange(2, 6));
        }
        match parse_header(header) {
            Ok(h) => h.code == message_codes::CONNECT,
            Err(_) => false,
        }
    }

    /// One `Publish` for each event of a dispatch, then one `Send` for its
    /// reply.
    fn dispatch_actions(dispatch: Dispatch) -> (actions: Vec<SessionAction>)
        ensures
            actions_view(actions@) == frame_actions(
                events_view(dispatch.events@),
                option_view(dispatch.reply),
            ),
            actions@.len() == dispatch.events@.len() + if dispatch.reply is Some {
                1int
            } else {
                0int
            },
            forall|i: int|
                0 <= i < dispatch.events@.len() ==> #[trigger] actions@[i]
                    == SessionAction::Publish(dispatch.events@[i]),
    {
        let mut events = dispatch.events;
        let ghost all = events@;
        let mut actions: Vec<SessionAction> = Vec::new();
        while events.len() > 0
            invariant
                actions@.len() + events@.len() == all.len(),
                forall|i: int|
                    0 <= i < actions@.len() ==> #[trigger] actions@[i] == SessionAction::Publish(
                        all[i],
                    ),
                forall|i: int| 0 <= i < events@.len() ==> events@[i] == all[actions@.len() + i],
            decreases events@.len(),
        {
            let event = events.remove(0);
            actions.push(SessionAction::Publish(event));
        }
        match dispatch.reply {
            Some(frame) => {
                actions.push(SessionAction::Send(frame));
            },
            None => {},
        }
        proof {
            assert(actions_view(actions@) =~= frame_actions(
                events_view(all),
                option_view(dispatch.reply),
            ));
        }
        actions
    }

    /// A step of a session whose socket is open.
    fn open_step(handler: MessageHandler, live: bool, input: SessionInput) -> (r: (
        Session,
        Vec<SessionAction>,
    ))
        ensures
            Self::open_steps_to(handler, live, input, r.0, actions_view(r.1@)),
    {
        match input {
            SessionInput::Frame(frame, received_time) => {
                let connect = Self::is_connect(&frame);
                let dispatch = handler.handle_at(frame, received_time);
                let joined = dispatch.reply.is_some();
                let mut actions = Self::dispatch_actions(dispatch);
                if !connect {
                    (Self::same(handler, live), actions)
                } else if joined {
                    (Session::Live(handler), actions)
                } else {
                    let ghost before = actions@;
                    actions.push(SessionAction::Close);
                    proof {
                        assert(actions_view(actions@) =~= actions_view(before) + seq![
                            SessionActionView::Close,
                        ]);
                    }
                    (Session::Draining(Some(Error::InvalidFrame)), actions)
                }
            },
            SessionInput::Heartbeat => {
                let mut actions: Vec<SessionAction> = Vec::new();
                match handler.formatter.format_message(MessageType::Ping) {
                    Ok(frame) => {
                        actions.push(SessionAction::Send(frame));
                    },
                    Err(_) => {},
                }
                proof {
                    assert(encode_utf8(Seq::<char>::empty()) =~= Seq::<u8>::empty());
                    assert(actions_view(actions@) =~= seq![
                        SessionActionView::Send(frame_of(message_codes::PING, Seq::<u8>::empty())),
                    ]);
                }
                (Self::same(handler, live), actions)
            },
            SessionInput::Command(Command::SendChat(text)) => {
                let mut actions: Vec<SessionAction> = Vec::new();
                match handler.formatter.format_chat(text.as_str()) {
                    Ok(frame) => {
                        actions.push(SessionAction::Send(frame));
                    },
                    Err(_) => {},
                }
                proof {
                    assert(actions_view(actions@) =~= send_if(
                        frame_if_encodable(message_codes::CHAT, encode_utf8(chat_packet(text@))),
                    ));
                }
                (Self::same(handler, live), actions)
            },
            SessionInput::Command(Command::Shutdown) => {
                let mut actions: Vec<SessionAction> = Vec::new();
                actions.push(SessionAction::Close);
                proof {
                    assert(actions_view(actions@) =~= seq![SessionActionView::Close]);
                }
                (Session::Draining(None), actions)
            },
            SessionInput::SocketFailed(reason) => {
                let mut actions: Vec<SessionAction> = Vec::new();
                actions.push(SessionAction::Close);
                proof {
                    assert(actions_view(actions@) =~= seq![SessionActionView::Close]);
                }
                (Session::Draining(Some(Error::WebSocketIo(reason))), actions)
            },
            SessionInput::Closed => {
                let r = Self::on_drained(None);
                proof {
                    assert(actions_view(r.1@) =~= seq![
                        SessionActionView::Publish(EventView::Disconnected),
                        SessionActionView::Finish(None),
                    ]);
                }
                r
            },
            _ => Self::unmoved(Self::same(handler, live)),
        }
    }

    /// The session with an open socket, as it was.
    fn same(handler: MessageHandler, live: bool) -> (session: Session)
        ensures
            session == if live {
                Session::Live(handler)
            } else {
                Session::Handshaking(handler)
            },
    {
        if live {
            Session::Live(handler)
        } else {
            Session::Handshaking(handler)
        }
    }
}

} // verus!
