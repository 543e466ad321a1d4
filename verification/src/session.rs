//! The interactive session engine.
//!
//! A [`Session`] decides; its caller acts. The caller hands every outcome of
//! the outside world to [`Session::step`] as an [`Event`] and performs the
//! [`Action`]s that come back, in order. The last action of a step that does
//! not finish the session is a question to the outside world, whose answer is
//! the next event.

use vstd::prelude::*;
use vstd::string::*;
use crate::address::{is_ip_literal, is_numeric_address};
use crate::credential::{
    decode_secret, has_password, home_expansion, identity_path, key_path, secret_of,
    select_credential, Credential,
};
use crate::error::SessionError;
use crate::geometry::Geometry;
use crate::model::{text_of, Server, ServerView};
use crate::terminal::{terminal_type, terminal_type_of, RawModeGuard};
use crate::text::texts;
use crate::trace::law_step_consistent;

verus! {

/// What a session is waiting for.
#[derive(Debug, Clone, Copy, PartialEq, Eq, Structural)]
pub enum Phase {
    /// Nothing has been asked for yet.
    Idle,
    /// The lookup of the host name.
    Resolving,
    /// The transport.
    Connecting,
    /// The private key.
    LoadingKey,
    /// The server's answer to the authentication attempt.
    Authenticating,
    /// Whether the terminal is in raw mode already.
    QueryingRawMode,
    /// The switch to raw mode.
    EnablingRawMode,
    /// The shell channel.
    OpeningChannel,
    /// The size and the type of the local terminal.
    QueryingTerminal,
    /// The remote pseudo-terminal.
    RequestingPty,
    /// The remote shell.
    RequestingShell,
    /// The size of the local terminal, at the start of a round of the pump.
    PollingGeometry,
    /// Local input or a remote event, whichever comes first.
    Waiting,
    /// Nothing: the session is over.
    Finished,
}

/// The life of the shell channel.
#[derive(Debug, Clone, Copy, PartialEq, Eq, Structural)]
pub enum ChannelState {
    Unopened,
    Opened,
    PtyRequested,
    ShellActive,
    EofSent,
    RemoteExited,
    Closed,
}

/// What is done to a shell channel.
#[derive(Debug, Clone, Copy, PartialEq, Eq, Structural)]
pub enum ChannelOp {
    Open,
    RequestPty,
    RequestShell,
    Data,
    Resize,
    Eof,
    /// The remote side reports the exit status of the shell.
    RemoteExit,
    Close,
}

/// The course of a shell channel: it is opened, gets a pseudo-terminal and
/// then a shell; data and sizes are sent while the shell is active; the
/// shell stops being active when the end of input is sent or the remote side
/// reports its exit, and never becomes active again; a channel that was
/// opened can be closed. `None` where `op` is out of place.
pub open spec fn channel_after(c: ChannelState, op: ChannelOp) -> Option<ChannelState> {
    match (c, op) {
        (ChannelState::Unopened, ChannelOp::Open) => Some(ChannelState::Opened),
        (ChannelState::Opened, ChannelOp::RequestPty) => Some(ChannelState::PtyRequested),
        (ChannelState::PtyRequested, ChannelOp::RequestShell) => Some(ChannelState::ShellActive),
        (ChannelState::ShellActive, ChannelOp::Data) => Some(ChannelState::ShellActive),
        (ChannelState::ShellActive, ChannelOp::Resize) => Some(ChannelState::ShellActive),
        (ChannelState::ShellActive, ChannelOp::Eof) => Some(ChannelState::EofSent),
        (ChannelState::ShellActive, ChannelOp::RemoteExit) => Some(ChannelState::RemoteExited),
        (ChannelState::RemoteExited, ChannelOp::Eof) => Some(ChannelState::RemoteExited),
        (ChannelState::Unopened, ChannelOp::Close) => None,
        (ChannelState::Closed, ChannelOp::Close) => None,
        (_, ChannelOp::Close) => Some(ChannelState::Closed),
        _ => None,
    }
}

impl ChannelState {
    /// The state of the channel after `op`, or `None` where `op` is out of
    /// place in this state.
    pub fn after(self, op: ChannelOp) -> (r: Option<ChannelState>)
        ensures
            r == channel_after(self, op),
    {
        match (self, op) {
            (ChannelState::Unopened, ChannelOp::Open) => Some(ChannelState::Opened),
            (ChannelState::Opened, ChannelOp::RequestPty) => Some(ChannelState::PtyRequested),
            (ChannelState::PtyRequested, ChannelOp::RequestShell) => Some(ChannelState::ShellActive),
            (ChannelState::ShellActive, ChannelOp::Data) => Some(ChannelState::ShellActive),
            (ChannelState::ShellActive, ChannelOp::Resize) => Some(ChannelState::ShellActive),
            (ChannelState::ShellActive, ChannelOp::Eof) => Some(ChannelState::EofSent),
            (ChannelState::ShellActive, ChannelOp::RemoteExit) => Some(ChannelState::RemoteExited),
            (ChannelState::RemoteExited, ChannelOp::Eof) => Some(ChannelState::RemoteExited),
            (ChannelState::Unopened, ChannelOp::Close) => None,
            (ChannelState::Closed, ChannelOp::Close) => None,
            (_, ChannelOp::Close) => Some(ChannelState::Closed),
            _ => None,
        }
    }
}

/// What the outside world reports to a session.
#[derive(Debug, PartialEq, Eq)]
pub enum Event {
    /// The session is to start.
    Begin,
    /// The operation that the session waits for failed.
    Failed,
    /// An action of the pump that has no answer failed: sending to the
    /// remote shell, writing local output or flushing it.
    OutputFailed,
    /// The lookup returned these addresses, in this order.
    Addresses(Vec<String>),
    /// The transport is established.
    Connected,
    /// The private key was read and parsed.
    KeyLoaded,
    /// The server answered the authentication attempt; `true` is acceptance.
    Authenticated(bool),
    /// Whether the local terminal is in raw mode.
    RawMode(bool),
    /// The local terminal was switched to raw mode.
    RawModeEnabled,
    /// The shell channel is open.
    ChannelOpened,
    /// The size of the local terminal and the terminal type that the
    /// environment names, if it names one.
    Terminal { size: Geometry, term: Option<String> },
    /// The remote pseudo-terminal is allocated.
    PtyGranted,
    /// The remote shell runs.
    ShellStarted,
    /// The size of the local terminal.
    Size(Geometry),
    /// A read of local input returned these bytes; none at the end of the
    /// stream.
    Input(Vec<u8>),
    /// The remote side sent these bytes.
    RemoteData(Vec<u8>),
    /// The remote side reported the exit status of the shell.
    RemoteExit,
    /// The remote side sent an event of another kind.
    RemoteOther,
    /// The process was asked to terminate.
    Terminate,
}

/// The mathematical value of an [`Event`].
pub enum EventView {
    Begin,
    Failed,
    OutputFailed,
    Addresses(Seq<Seq<char>>),
    Connected,
    KeyLoaded,
    Authenticated(bool),
    RawMode(bool),
    RawModeEnabled,
    ChannelOpened,
    Terminal { size: Geometry, term: Option<Seq<char>> },
    PtyGranted,
    ShellStarted,
    Size(Geometry),
    Input(Seq<u8>),
    RemoteData(Seq<u8>),
    RemoteExit,
    RemoteOther,
    Terminate,
}

impl View for Event {
    type V = EventView;

    open spec fn view(&self) -> EventView {
        match self {
            Event::Begin => EventView::Begin,
            Event::Failed => EventView::Failed,
            Event::OutputFailed => EventView::OutputFailed,
            Event::Addresses(v) => EventView::Addresses(texts(v@)),
            Event::Connected => EventView::Connected,
            Event::KeyLoaded => EventView::KeyLoaded,
            Event::Authenticated(ok) => EventView::Authenticated(*ok),
            Event::RawMode(active) => EventView::RawMode(*active),
            Event::RawModeEnabled => EventView::RawModeEnabled,
            Event::ChannelOpened => EventView::ChannelOpened,
            Event::Terminal { size, term } => EventView::Terminal {
                size: *size,
                term: text_of(*term),
            },
            Event::PtyGranted => EventView::PtyGranted,
            Event::ShellStarted => EventView::ShellStarted,
            Event::Size(g) => EventView::Size(*g),
            Event::Input(b) => EventView::Input(b@),
            Event::RemoteData(b) => EventView::RemoteData(b@),
            Event::RemoteExit => EventView::RemoteExit,
            Event::RemoteOther => EventView::RemoteOther,
            Event::Terminate => EventView::Terminate,
        }
    }
}

/// What a session asks its caller to do.
#[derive(Debug, PartialEq, Eq)]
pub enum Action {
    /// Look the host name up, once. Answer: `Addresses` or `Failed`.
    Lookup(String),
    /// Establish the transport. Answer: `Connected` or `Failed`.
    Connect { address: String, port: u16 },
    /// Attempt password authentication, once. Answer: `Authenticated` or
    /// `Failed`.
    AuthenticatePassword { user: String, secret: String },
    /// Read and parse the private key at `path`. Answer: `KeyLoaded` or
    /// `Failed`.
    LoadKey { path: String },
    /// Attempt public-key authentication with the loaded key, once. Answer:
    /// `Authenticated` or `Failed`.
    AuthenticateKey { user: String },
    /// Ask whether the local terminal is in raw mode. Answer: `RawMode` or
    /// `Failed`.
    QueryRawMode,
    /// Switch the local terminal to raw mode. Answer: `RawModeEnabled` or
    /// `Failed`.
    EnableRawMode,
    /// Switch the local terminal back to cooked mode.
    DisableRawMode,
    /// Open the shell channel. Answer: `ChannelOpened` or `Failed`.
    OpenChannel,
    /// Ask for the size of the local terminal and the terminal type of the
    /// environment. Answer: `Terminal` or `Failed`.
    QueryTerminal,
    /// Request a remote pseudo-terminal. Answer: `PtyGranted` or `Failed`.
    RequestPty { term: String, size: Geometry },
    /// Request the remote shell. Answer: `ShellStarted` or `Failed`.
    RequestShell,
    /// Ask for the size of the local terminal. Answer: `Size` or `Failed`;
    /// `OutputFailed` where an action before it in the same step failed.
    QuerySize,
    /// Tell the remote side the new size. A failure is not reported.
    Resize(Geometry),
    /// Wait for local input or a remote event. Answer: `Input`,
    /// `RemoteData`, `RemoteExit`, `RemoteOther`, `Terminate` or `Failed`.
    Wait,
    /// Send the bytes to the remote shell.
    SendData(Vec<u8>),
    /// Tell the remote side that no more input follows.
    SendEof,
    /// Write the bytes to local output.
    Write(Vec<u8>),
    /// Flush local output.
    Flush,
    /// Write the line to local output and flush.
    Notice(String),
    /// Close the transport. A failure is not reported.
    Disconnect,
    /// Leave the process at once, with status zero.
    Exit,
}

/// The mathematical value of an [`Action`].
pub enum ActionView {
    Lookup(Seq<char>),
    Connect { address: Seq<char>, port: u16 },
    AuthenticatePassword { user: Seq<char>, secret: Seq<char> },
    LoadKey { path: Seq<char> },
    AuthenticateKey { user: Seq<char> },
    QueryRawMode,
    EnableRawMode,
    DisableRawMode,
    OpenChannel,
    QueryTerminal,
    RequestPty { term: Seq<char>, size: Geometry },
    RequestShell,
    QuerySize,
    Resize(Geometry),
    Wait,
    SendData(Seq<u8>),
    SendEof,
    Write(Seq<u8>),
    Flush,
    Notice(Seq<char>),
    Disconnect,
    Exit,
}

impl View for Action {
    type V = ActionView;

    open spec fn view(&self) -> ActionView {
        match self {
            Action::Lookup(h) => ActionView::Lookup(h@),
            Action::Connect { address, port } => ActionView::Connect {
                address: address@,
                port: *port,
            },
            Action::AuthenticatePassword { user, secret } => ActionView::AuthenticatePassword {
                user: user@,
                secret: secret@,
            },
            Action::LoadKey { path } => ActionView::LoadKey { path: path@ },
            Action::AuthenticateKey { user } => ActionView::AuthenticateKey { user: user@ },
            Action::QueryRawMode => ActionView::QueryRawMode,
            Action::EnableRawMode => ActionView::EnableRawMode,
            Action::DisableRawMode => ActionView::DisableRawMode,
            Action::OpenChannel => ActionView::OpenChannel,
            Action::QueryTerminal => ActionView::QueryTerminal,
            Action::RequestPty { term, size } => ActionView::RequestPty { term: term@, size: *size },
            Action::RequestShell => ActionView::RequestShell,
            Action::QuerySize => ActionView::QuerySize,
            Action::Resize(g) => ActionView::Resize(*g),
            Action::Wait => ActionView::Wait,
            Action::SendData(b) => ActionView::SendData(b@),
            Action::SendEof => ActionView::SendEof,
            Action::Write(b) => ActionView::Write(b@),
            Action::Flush => ActionView::Flush,
            Action::Notice(t) => ActionView::Notice(t@),
            Action::Disconnect => ActionView::Disconnect,
            Action::Exit => ActionView::Exit,
        }
    }
}

/// The values of a sequence of actions.
pub open spec fn actions_view(v: Seq<Action>) -> Seq<ActionView> {
    v.map_values(|a: Action| a@)
}

/// One session: the profile it is for and how far it has come.
#[derive(Debug)]
pub struct Session {
    server: Server,
    key_path: String,
    phase: Phase,
    channel: ChannelState,
    guard: Option<RawModeGuard>,
    geometry: Option<Geometry>,
    authenticated: bool,
    error: Option<SessionError>,
}

/// The mathematical value of a [`Session`].
pub struct SessionView {
    /// The profile of the session.
    pub server: ServerView,
    /// The path of the private key file, expanded.
    pub key_path: Seq<char>,
    pub phase: Phase,
    pub channel: ChannelState,
    /// The raw-mode guard, once the terminal's mode is known.
    pub guard: Option<RawModeGuard>,
    /// The size of the local terminal that the remote side was told last.
    pub geometry: Option<Geometry>,
    /// Whether the server accepted the authentication attempt.
    pub authenticated: bool,
    /// The fatal error that ended the session, if one did.
    pub error: Option<SessionError>,
}

impl View for Session {
    type V = SessionView;

    closed spec fn view(&self) -> SessionView {
        SessionView {
            server: self.server@,
            key_path: self.key_path@,
            phase: self.phase,
            channel: self.channel,
            guard: self.guard,
            geometry: self.geometry,
            authenticated: self.authenticated,
            error: self.error,
        }
    }
}

/// The state of a session that has not begun.
pub open spec fn initial(server: ServerView, key_path: Seq<char>) -> SessionView {
    SessionView {
        server,
        key_path,
        phase: Phase::Idle,
        channel: ChannelState::Unopened,
        guard: None,
        geometry: None,
        authenticated: false,
        error: None,
    }
}

/// The line written when the connection closes.
pub open spec fn notice_text(host: Seq<char>) -> Seq<char> {
    "Connection to "@ + host + " closed.\r\n"@
}

/// Whether the session owns raw mode and has not given it back.
pub open spec fn guard_live(s: SessionView) -> bool {
    s.guard matches Some(g) && g.live()
}

/// The guard after a release.
pub open spec fn released(guard: Option<RawModeGuard>) -> Option<RawModeGuard> {
    match guard {
        Some(g) => Some(RawModeGuard { enabled: g.enabled, released: true }),
        None => None,
    }
}

/// The channel after the session is over.
pub open spec fn closed(channel: ChannelState) -> ChannelState {
    if channel == ChannelState::Unopened {
        ChannelState::Unopened
    } else {
        ChannelState::Closed
    }
}

/// The release of raw mode: one action where the session owns it, none
/// otherwise.
pub open spec fn release_actions(s: SessionView) -> Seq<ActionView> {
    if guard_live(s) {
        seq![ActionView::DisableRawMode]
    } else {
        seq![]
    }
}

/// The end of the transport: one action for an authenticated session, none
/// before that.
pub open spec fn disconnect_actions(s: SessionView) -> Seq<ActionView> {
    if s.authenticated {
        seq![ActionView::Disconnect]
    } else {
        seq![]
    }
}

/// The state of a session that is over.
pub open spec fn finished(s: SessionView, error: Option<SessionError>) -> SessionView {
    SessionView {
        phase: Phase::Finished,
        channel: closed(s.channel),
        guard: released(s.guard),
        error,
        ..s
    }
}

/// A step that changes nothing and asks for nothing.
pub open spec fn stay(s: SessionView) -> (SessionView, Seq<ActionView>) {
    (s, seq![])
}

/// A step into another phase.
pub open spec fn enter(s: SessionView, phase: Phase, actions: Seq<ActionView>) -> (
    SessionView,
    Seq<ActionView>,
) {
    (SessionView { phase, ..s }, actions)
}

/// A fatal error: raw mode is given back first, then the transport of an
/// authenticated session is closed.
pub open spec fn fail(s: SessionView, error: SessionError) -> (SessionView, Seq<ActionView>) {
    (finished(s, Some(error)), release_actions(s) + disconnect_actions(s))
}

/// The start of a round of the pump.
pub open spec fn poll(s: SessionView, before: Seq<ActionView>) -> (SessionView, Seq<ActionView>) {
    enter(s, Phase::PollingGeometry, before.push(ActionView::QuerySize))
}

/// The end of local input: the remote side is told, raw mode is given back
/// and the transport is closed.
pub open spec fn end_of_input(s: SessionView) -> (SessionView, Seq<ActionView>) {
    (
        finished(s, None),
        seq![ActionView::SendEof] + release_actions(s) + disconnect_actions(s),
    )
}

/// The exit of the remote shell: raw mode is given back before the notice is
/// written, then the remote side is told that no input follows and the
/// transport is closed.
pub open spec fn remote_exit(s: SessionView) -> (SessionView, Seq<ActionView>) {
    (
        finished(s, None),
        release_actions(s) + seq![
            ActionView::Notice(notice_text(s.server.host)),
            ActionView::SendEof,
        ] + disconnect_actions(s),
    )
}

/// A request to terminate: raw mode is given back before the notice is
/// written, and the process leaves without closing the transport.
pub open spec fn terminate(s: SessionView) -> (SessionView, Seq<ActionView>) {
    (
        finished(s, None),
        release_actions(s) + seq![
            ActionView::Notice(notice_text(s.server.host)),
            ActionView::Exit,
        ],
    )
}

/// The connection request for an address.
pub open spec fn connect_to(s: SessionView, address: Seq<char>) -> (SessionView, Seq<ActionView>) {
    enter(s, Phase::Connecting, seq![ActionView::Connect { address, port: s.server.port }])
}

/// The one authentication attempt of an established transport.
pub open spec fn authenticate(s: SessionView) -> (SessionView, Seq<ActionView>) {
    if has_password(s.server) {
        match secret_of(s.server.password->0) {
            Some(secret) => enter(
                s,
                Phase::Authenticating,
                seq![ActionView::AuthenticatePassword { user: s.server.user, secret }],
            ),
            None => fail(s, SessionError::CredentialDecode),
        }
    } else {
        enter(s, Phase::LoadingKey, seq![ActionView::LoadKey { path: s.key_path }])
    }
}

/// The phase of the pump after a size of the local terminal is known: a size
/// that differs from the last one is stored and sent to the remote side, once.
pub open spec fn size_polled(s: SessionView, size: Geometry) -> (SessionView, Seq<ActionView>) {
    if s.geometry == Some(size) {
        enter(s, Phase::Waiting, seq![ActionView::Wait])
    } else {
        enter(
            SessionView { geometry: Some(size), ..s },
            Phase::Waiting,
            seq![ActionView::Resize(size), ActionView::Wait],
        )
    }
}

/// What a session does on an event: the state after it and the actions it
/// asks for. An event that the session does not wait for changes nothing.
pub open spec fn step_spec(s: SessionView, e: EventView) -> (SessionView, Seq<ActionView>) {
    match s.phase {
        Phase::Idle => match e {
            EventView::Begin => if is_ip_literal(s.server.host) {
                connect_to(s, s.server.host)
            } else {
                enter(s, Phase::Resolving, seq![ActionView::Lookup(s.server.host)])
            },
            _ => stay(s),
        },
        Phase::Resolving => match e {
            EventView::Addresses(found) => if found.len() > 0 {
                connect_to(s, found[0])
            } else {
                fail(s, SessionError::Resolution)
            },
            EventView::Failed => fail(s, SessionError::Resolution),
            _ => stay(s),
        },
        Phase::Connecting => match e {
            EventView::Connected => authenticate(s),
            EventView::Failed => fail(s, SessionError::Connect),
            _ => stay(s),
        },
        Phase::LoadingKey => match e {
            EventView::KeyLoaded => enter(
                s,
                Phase::Authenticating,
                seq![ActionView::AuthenticateKey { user: s.server.user }],
            ),
            EventView::Failed => fail(s, SessionError::KeyLoad),
            _ => stay(s),
        },
        Phase::Authenticating => match e {
            EventView::Authenticated(true) => enter(
                SessionView { authenticated: true, ..s },
                Phase::QueryingRawMode,
                seq![ActionView::QueryRawMode],
            ),
            EventView::Authenticated(false) => fail(s, SessionError::Authentication),
            EventView::Failed => fail(s, SessionError::Authentication),
            _ => stay(s),
        },
        Phase::QueryingRawMode => match e {
            EventView::RawMode(active) => {
                let owned = SessionView {
                    guard: Some(RawModeGuard { enabled: true, released: false }),
                    ..s
                };
                if active {
                    enter(owned, Phase::OpeningChannel, seq![ActionView::OpenChannel])
                } else {
                    enter(owned, Phase::EnablingRawMode, seq![ActionView::EnableRawMode])
                }
            },
            EventView::Failed => fail(s, SessionError::TerminalQuery),
            _ => stay(s),
        },
        Phase::EnablingRawMode => match e {
            EventView::RawModeEnabled => enter(
                s,
                Phase::OpeningChannel,
                seq![ActionView::OpenChannel],
            ),
            EventView::Failed => fail(
                SessionView { guard: None, ..s },
                SessionError::TerminalQuery,
            ),
            _ => stay(s),
        },
        Phase::OpeningChannel => match e {
            EventView::ChannelOpened => enter(
                SessionView { channel: ChannelState::Opened, ..s },
                Phase::QueryingTerminal,
                seq![ActionView::QueryTerminal],
            ),
            EventView::Failed => fail(s, SessionError::ChannelOpen),
            _ => stay(s),
        },
        Phase::QueryingTerminal => match e {
            EventView::Terminal { size, term } => enter(
                SessionView { geometry: Some(size), ..s },
                Phase::RequestingPty,
                seq![ActionView::RequestPty { term: terminal_type_of(term), size }],
            ),
            EventView::Failed => fail(s, SessionError::TerminalQuery),
            _ => stay(s),
        },
        Phase::RequestingPty => match e {
            EventView::PtyGranted => enter(
                SessionView { channel: ChannelState::PtyRequested, ..s },
                Phase::RequestingShell,
                seq![ActionView::RequestShell],
            ),
            EventView::Failed => fail(s, SessionError::PtyRequest),
            _ => stay(s),
        },
        Phase::RequestingShell => match e {
            EventView::ShellStarted => poll(
                SessionView { channel: ChannelState::ShellActive, ..s },
                seq![],
            ),
            EventView::Failed => fail(s, SessionError::ShellRequest),
            _ => stay(s),
        },
        Phase::PollingGeometry => match e {
            EventView::Size(size) => size_polled(s, size),
            EventView::Failed => fail(s, SessionError::TerminalQuery),
            EventView::OutputFailed => fail(s, SessionError::Io),
            EventView::Terminate => terminate(s),
            _ => stay(s),
        },
        Phase::Waiting => match e {
            EventView::Input(bytes) => if bytes.len() == 0 {
                end_of_input(s)
            } else {
                poll(s, seq![ActionView::SendData(bytes)])
            },
            EventView::RemoteData(bytes) => poll(
                s,
                seq![ActionView::Write(bytes), ActionView::Flush],
            ),
            EventView::RemoteExit => remote_exit(s),
            EventView::RemoteOther => poll(s, seq![]),
            EventView::Failed => fail(s, SessionError::Io),
            EventView::Terminate => terminate(s),
            _ => stay(s),
        },
        Phase::Finished => stay(s),
    }
}

/// The place of a phase in the course of a session.
pub open spec fn rank(p: Phase) -> int {
    match p {
        Phase::Idle => 0,
        Phase::Resolving => 1,
        Phase::Connecting => 2,
        Phase::LoadingKey => 3,
        Phase::Authenticating => 4,
        Phase::QueryingRawMode => 5,
        Phase::EnablingRawMode => 6,
        Phase::OpeningChannel => 7,
        Phase::QueryingTerminal => 8,
        Phase::RequestingPty => 9,
        Phase::RequestingShell => 10,
        Phase::PollingGeometry => 11,
        Phase::Waiting => 12,
        Phase::Finished => 13,
    }
}

/// The state of the channel that belongs to a phase of a running session.
pub open spec fn channel_in(p: Phase) -> ChannelState {
    if rank(p) <= 7 {
        ChannelState::Unopened
    } else if rank(p) <= 9 {
        ChannelState::Opened
    } else if rank(p) == 10 {
        ChannelState::PtyRequested
    } else {
        ChannelState::ShellActive
    }
}

/// What holds of every state that a session can be in: the parts of the
/// state agree with the phase.
pub open spec fn consistent(s: SessionView) -> bool {
    &&& s.phase != Phase::Finished ==> {
        &&& s.error is None
        &&& s.channel == channel_in(s.phase)
        &&& s.authenticated == (rank(s.phase) >= 5)
        &&& (s.guard is Some) == (rank(s.phase) >= 6)
        &&& (s.guard is Some ==> guard_live(s))
        &&& (rank(s.phase) >= 9 ==> s.geometry is Some)
    }
    &&& s.phase == Phase::Finished ==> {
        &&& !guard_live(s)
        &&& (s.channel == ChannelState::Unopened || s.channel == ChannelState::Closed)
    }
}

/// How a session that is over ended: `None` while it is not over.
pub open spec fn outcome_of(s: SessionView) -> Option<Result<(), SessionError>> {
    if s.phase == Phase::Finished {
        match s.error {
            Some(e) => Some(Err(e)),
            None => Some(Ok(())),
        }
    } else {
        None
    }
}

fn push_action(out: &mut Vec<Action>, action: Action)
    ensures
        actions_view(final(out)@) == actions_view(old(out)@).push(action@),
{
    out.push(action);
}

fn no_actions() -> (out: Vec<Action>)
    ensures
        actions_view(out@) == Seq::<ActionView>::empty(),
{
    let out: Vec<Action> = Vec::new();
    out
}

impl Session {
    /// A session for `server` whose private key file, should it be needed,
    /// is read from `key_path`.
    pub fn with_key_path(server: Server, key_path: String) -> (s: Session)
        ensures
            s@ == initial(server@, key_path@),
            consistent(s@),
    {
        Session {
            server,
            key_path,
            phase: Phase::Idle,
            channel: ChannelState::Unopened,
            guard: None,
            geometry: None,
            authenticated: false,
            error: None,
        }
    }

    /// A session for `server`. The path of the private key file is that of
    /// the profile, or the default, with a leading home-directory marker
    /// expanded as the environment has it.
    pub fn new(server: Server) -> (s: Session)
        ensures
            s@ == initial(server@, s@.key_path),
            home_expansion(identity_path(server@), s@.key_path),
            consistent(s@),
    {
        let path = key_path(&server);
        Session::with_key_path(server, path)
    }

    /// What the session waits for.
    pub fn phase(&self) -> (p: Phase)
        ensures
            p == self@.phase,
    {
        self.phase
    }

    /// The state of the shell channel.
    pub fn channel(&self) -> (c: ChannelState)
        ensures
            c == self@.channel,
    {
        self.channel
    }

    /// The size of the local terminal that the remote side was told last.
    pub fn geometry(&self) -> (g: Option<Geometry>)
        ensures
            g == self@.geometry,
    {
        self.geometry
    }

    /// The raw-mode guard, once the terminal's mode is known.
    pub fn guard(&self) -> (g: Option<RawModeGuard>)
        ensures
            g == self@.guard,
    {
        self.guard
    }

    /// The profile of the session.
    pub fn server(&self) -> (s: &Server)
        ensures
            s@ == self@.server,
    {
        &self.server
    }

    /// Whether the session is over.
    pub fn is_finished(&self) -> (b: bool)
        ensures
            b == (self@.phase == Phase::Finished),
    {
        match self.phase {
            Phase::Finished => true,
            _ => false,
        }
    }

    /// How the session ended, once it is over.
    pub fn outcome(&self) -> (r: Option<Result<(), SessionError>>)
        ensures
            r == outcome_of(self@),
    {
        match self.phase {
            Phase::Finished => match self.error {
                Some(e) => Some(Err(e)),
                None => Some(Ok(())),
            },
            _ => None,
        }
    }

    /// The line written when the connection closes.
    pub fn notice(&self) -> (r: String)
        ensures
            r@ == notice_text(self@.server.host),
    {
        let mut line = "Connection to ".to_owned();
        line.append(self.server.host.as_str());
        line.append(" closed.\r\n");
        line
    }

    fn release(&mut self, out: &mut Vec<Action>)
        ensures
            final(self)@ == (SessionView { guard: released(old(self)@.guard), ..old(self)@ }),
            actions_view(final(out)@) == actions_view(old(out)@) + release_actions(old(self)@),
    {
        match self.guard {
            Some(g) => {
                let mut g = g;
                let switch_off = g.release();
                self.guard = Some(g);
                if switch_off {
                    push_action(out, Action::DisableRawMode);
                }
            },
            None => {},
        }
    }

    fn disconnect(&self, out: &mut Vec<Action>)
        ensures
            actions_view(final(out)@) == actions_view(old(out)@) + disconnect_actions(self@),
    {
        if self.authenticated {
            push_action(out, Action::Disconnect);
        }
    }

    fn finish(&mut self, error: Option<SessionError>)
        requires
            old(self)@.guard == released(old(self)@.guard),
        ensures
            final(self)@ == finished(old(self)@, error),
    {
        self.phase = Phase::Finished;
        self.channel = match self.channel {
            ChannelState::Unopened => ChannelState::Unopened,
            _ => ChannelState::Closed,
        };
        self.error = error;
    }

    fn fail(&mut self, error: SessionError) -> (out: Vec<Action>)
        ensures
            final(self)@ == fail(old(self)@, error).0,
            actions_view(out@) == fail(old(self)@, error).1,
    {
        let mut out = no_actions();
        self.release(&mut out);
        self.disconnect(&mut out);
        self.finish(Some(error));
        out
    }

    fn enter(&mut self, phase: Phase, action: Action) -> (out: Vec<Action>)
        ensures
            final(self)@ == enter(old(self)@, phase, seq![action@]).0,
            actions_view(out@) == seq![action@],
    {
        self.phase = phase;
        let mut out = no_actions();
        push_action(&mut out, action);
        out
    }

    fn poll(&mut self, before: Vec<Action>) -> (out: Vec<Action>)
        ensures
            final(self)@ == poll(old(self)@, actions_view(before@)).0,
            actions_view(out@) == poll(old(self)@, actions_view(before@)).1,
    {
        self.phase = Phase::PollingGeometry;
        let mut out = before;
        push_action(&mut out, Action::QuerySize);
        out
    }

    fn connect_to(&mut self, address: String) -> (out: Vec<Action>)
        ensures
            final(self)@ == connect_to(old(self)@, address@).0,
            actions_view(out@) == connect_to(old(self)@, address@).1,
    {
        let port = self.server.port;
        self.enter(Phase::Connecting, Action::Connect { address, port })
    }

    fn authenticate(&mut self) -> (out: Vec<Action>)
        ensures
            final(self)@ == authenticate(old(self)@).0,
            actions_view(out@) == authenticate(old(self)@).1,
    {
        match select_credential(&self.server) {
            Credential::Password(stored) => {
                match decode_secret(stored.as_str()) {
                    Ok(secret) => {
                        let user = self.server.user.clone();
                        self.enter(
                            Phase::Authenticating,
                            Action::AuthenticatePassword { user, secret },
                        )
                    },
                    Err(_) => self.fail(SessionError::CredentialDecode),
                }
            },
            Credential::IdentityFile(_) => {
                let path = self.key_path.clone();
                self.enter(Phase::LoadingKey, Action::LoadKey { path })
            },
        }
    }

    fn size_polled(&mut self, size: Geometry) -> (out: Vec<Action>)
        ensures
            final(self)@ == size_polled(old(self)@, size).0,
            actions_view(out@) == size_polled(old(self)@, size).1,
    {
        let same = match self.geometry {
            Some(last) => last.same_as(&size),
            None => false,
        };
        self.phase = Phase::Waiting;
        let mut out = no_actions();
        if !same {
            self.geometry = Some(size);
            push_action(&mut out, Action::Resize(size));
        }
        push_action(&mut out, Action::Wait);
        out
    }

    fn end_of_input(&mut self) -> (out: Vec<Action>)
        ensures
            final(self)@ == end_of_input(old(self)@).0,
            actions_view(out@) == end_of_input(old(self)@).1,
    {
        let mut out = no_actions();
        push_action(&mut out, Action::SendEof);
        self.release(&mut out);
        self.disconnect(&mut out);
        self.finish(None);
        out
    }

    fn remote_exit(&mut self) -> (out: Vec<Action>)
        ensures
            final(self)@ == remote_exit(old(self)@).0,
            actions_view(out@) == remote_exit(old(self)@).1,
    {
        let mut out = no_actions();
        self.release(&mut out);
        push_action(&mut out, Action::Notice(self.notice()));
        push_action(&mut out, Action::SendEof);
        self.disconnect(&mut out);
        self.finish(None);
        out
    }

    fn terminate(&mut self) -> (out: Vec<Action>)
        ensures
            final(self)@ == terminate(old(self)@).0,
            actions_view(out@) == terminate(old(self)@).1,
    {
        let mut out = no_actions();
        self.release(&mut out);
        push_action(&mut out, Action::Notice(self.notice()));
        push_action(&mut out, Action::Exit);
        self.finish(None);
        out
    }

    /// Takes one event and returns the actions to perform, in order. The
    /// state after the step and the actions are those of [`step_spec`].
    pub fn step(&mut self, event: Event) -> (out: Vec<Action>)
        ensures
            final(self)@ == step_spec(old(self)@, event@).0,
            actions_view(out@) == step_spec(old(self)@, event@).1,
            consistent(old(self)@) ==> consistent(final(self)@),
    {
        proof {
            if consistent(self@) {
                law_step_consistent(self@, event@);
            }
        }
        match self.phase {
            Phase::Idle => match event {
                Event::Begin => {
                    if is_numeric_address(self.server.host.as_str()) {
                        let address = self.server.host.clone();
                        self.connect_to(address)
                    } else {
                        let host = self.server.host.clone();
                        self.enter(Phase::Resolving, Action::Lookup(host))
                    }
                },
                _ => no_actions(),
            },
            Phase::Resolving => match event {
                Event::Addresses(found) => {
                    if found.len() > 0 {
                        let address = found[0].clone();
                        self.connect_to(address)
                    } else {
                        self.fail(SessionError::Resolution)
                    }
                },
                Event::Failed => self.fail(SessionError::Resolution),
                _ => no_actions(),
            },
            Phase::Connecting => match event {
                Event::Connected => self.authenticate(),
                Event::Failed => self.fail(SessionError::Connect),
                _ => no_actions(),
            },
            Phase::LoadingKey => match event {
                Event::KeyLoaded => {
                    let user = self.server.user.clone();
                    self.enter(Phase::Authenticating, Action::AuthenticateKey { user })
                },
                Event::Failed => self.fail(SessionError::KeyLoad),
                _ => no_actions(),
            },
            Phase::Authenticating => match event {
                Event::Authenticated(true) => {
                    self.authenticated = true;
                    self.enter(Phase::QueryingRawMode, Action::QueryRawMode)
                },
                Event::Authenticated(false) => self.fail(SessionError::Authentication),
                Event::Failed => self.fail(SessionError::Authentication),
                _ => no_actions(),
            },
            Phase::QueryingRawMode => match event {
                Event::RawMode(active) => {
                    let (guard, switch_on) = RawModeGuard::new(active);
                    self.guard = Some(guard);
                    if switch_on {
                        self.enter(Phase::EnablingRawMode, Action::EnableRawMode)
                    } else {
                        self.enter(Phase::OpeningChannel, Action::OpenChannel)
                    }
                },
                Event::Failed => self.fail(SessionError::TerminalQuery),
                _ => no_actions(),
            },
            Phase::EnablingRawMode => match event {
                Event::RawModeEnabled => self.enter(Phase::OpeningChannel, Action::OpenChannel),
                Event::Failed => {
                    self.guard = None;
                    self.fail(SessionError::TerminalQuery)
                },
                _ => no_actions(),
            },
            Phase::OpeningChannel => match event {
                Event::ChannelOpened => {
                    self.channel = ChannelState::Opened;
                    self.enter(Phase::QueryingTerminal, Action::QueryTerminal)
                },
                Event::Failed => self.fail(SessionError::ChannelOpen),
                _ => no_actions(),
            },
            Phase::QueryingTerminal => match event {
                Event::Terminal { size, term } => {
                    self.geometry = Some(size);
                    let term = terminal_type(term);
                    self.enter(Phase::RequestingPty, Action::RequestPty { term, size })
                },
                Event::Failed => self.fail(SessionError::TerminalQuery),
                _ => no_actions(),
            },
            Phase::RequestingPty => match event {
                Event::PtyGranted => {
                    self.channel = ChannelState::PtyRequested;
                    self.enter(Phase::RequestingShell, Action::RequestShell)
                },
                Event::Failed => self.fail(SessionError::PtyRequest),
                _ => no_actions(),
            },
            Phase::RequestingShell => match event {
                Event::ShellStarted => {
                    self.channel = ChannelState::ShellActive;
                    self.poll(no_actions())
                },
                Event::Failed => self.fail(SessionError::ShellRequest),
                _ => no_actions(),
            },
            Phase::PollingGeometry => match event {
                Event::Size(size) => self.size_polled(size),
                Event::Failed => self.fail(SessionError::TerminalQuery),
                Event::OutputFailed => self.fail(SessionError::Io),
                Event::Terminate => self.terminate(),
                _ => no_actions(),
            },
            Phase::Waiting => match event {
                Event::Input(bytes) => {
                    if bytes.len() == 0 {
                        self.end_of_input()
                    } else {
                        let mut before = no_actions();
                        push_action(&mut before, Action::SendData(bytes));
                        self.poll(before)
                    }
                },
                Event::RemoteData(bytes) => {
                    let mut before = no_actions();
                    push_action(&mut before, Action::Write(bytes));
                    push_action(&mut before, Action::Flush);
                    self.poll(before)
                },
                Event::RemoteExit => self.remote_exit(),
                Event::RemoteOther => self.poll(no_actions()),
                Event::Failed => self.fail(SessionError::Io),
                Event::Terminate => self.terminate(),
                _ => no_actions(),
            },
            Phase::Finished => no_actions(),
        }
    }
}

} // verus!
