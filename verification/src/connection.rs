//! One client connection, from the method negotiation to its end.
//!
//! The connection does no I/O. It is driven by events: the driver performs the
//! action that the connection asks for and reports what came of it. The
//! states are passed in one order, never backwards:
//!
//! ```plain
//! AwaitingAuth -> Authenticated -> AwaitingRequest -> Dispatched
//!                                              -> Relaying | Rejected -> Closed
//! ```

use crate::address::{spec_read_address, Address, AddressView, SocketAddr, SocketAddrView};
use crate::auth::{spec_read_auth, AuthenticationRequest, AuthenticationResponse};
use crate::buf::put_slice;
use crate::command::Command;
use crate::error::{DecodeError, Decoded, Error};
use crate::header::{
    command_message,
    response_wire,
    spec_read_request,
    TcpRequestHeader,
    TcpRequestHeaderView,
};
use crate::method::Method;
use crate::reply::{ConnectError, Replies};
use crate::text::with_hex;
use vstd::prelude::*;

verus! {

/// The destination address families that the server connects to.
#[derive(Clone, Copy, Debug, PartialEq, Eq, Structural)]
pub enum Families {
    Any,
    Ipv4Only,
    Ipv6Only,
}

impl Families {
    /// Whether a destination of this address is served.
    pub open spec fn spec_allows(self, addr: SocketAddrView) -> bool {
        match self {
            Families::Any => true,
            Families::Ipv4Only => addr is V4,
            Families::Ipv6Only => addr is V6,
        }
    }

    /// Whether a destination of this address is served.
    pub fn allows(&self, addr: &SocketAddr) -> (b: bool)
        ensures
            b == self.spec_allows(addr@),
    {
        match self {
            Families::Any => true,
            Families::Ipv4Only => addr.is_ipv4(),
            Families::Ipv6Only => addr.is_ipv6(),
        }
    }
}

/// What the client speaks.
#[derive(Clone, Copy, Debug, PartialEq, Eq, Structural)]
pub enum Protocol {
    /// SOCKS5: a method negotiation, then a request header.
    Socks5,
    /// The address of the destination and nothing else: no negotiation, and
    /// the command is always CONNECT.
    Lite,
}

/// Where a connection stands.
#[derive(Clone, Copy, Debug, PartialEq, Eq, Structural)]
pub enum State {
    /// The authentication request is being read.
    AwaitingAuth,
    /// "No authentication" was chosen; the response is being written.
    Authenticated,
    /// The request header is being read.
    AwaitingRequest,
    /// A CONNECT is under way: the name is resolved, the destination dialled.
    Dispatched,
    /// The destination is connected: the success response is written, then
    /// bytes are relayed.
    Relaying,
    /// The connection was turned down; the response that says so is written.
    Rejected,
    /// Nothing more happens.
    Closed,
}

impl State {
    /// The place of a state in the order in which states are passed.
    pub open spec fn rank(self) -> nat {
        match self {
            State::AwaitingAuth => 0,
            State::Authenticated => 1,
            State::AwaitingRequest => 2,
            State::Dispatched => 3,
            State::Relaying => 4,
            State::Rejected => 4,
            State::Closed => 5,
        }
    }
}

/// What the driver is doing for the connection.
#[derive(Clone, Copy, Debug, PartialEq, Eq, Structural)]
pub enum Pending {
    /// Reading bytes from the client.
    Bytes,
    /// Writing to the client, and flushing.
    Write,
    /// Resolving a domain name.
    Resolution,
    /// Connecting to the destination.
    Connection,
    /// Relaying between client and destination.
    Relay,
    /// Nothing: the connection is closed.
    Nothing,
}

/// What the driver reports.
#[derive(Debug)]
pub enum Event {
    /// Bytes were read from the client.
    Received(Vec<u8>),
    /// Reading from the client failed, or the client sent no more.
    ReadFailed,
    /// What was to be written reached the client.
    Written,
    /// Writing to the client failed.
    WriteFailed,
    /// The name resolved to these addresses, possibly none.
    Resolved(Vec<SocketAddr>),
    /// The destination is connected.
    Connected,
    /// Connecting to the destination failed.
    ConnectFailed(ConnectError),
    /// The relay has ended.
    RelayFinished,
}

/// What the driver is to do next.
#[derive(Debug)]
pub enum Action {
    /// Read exactly so many bytes from the client and report them.
    Read(usize),
    /// Write these bytes to the client and flush.
    Write(Vec<u8>),
    /// Resolve this name for this port.
    Resolve(String, u16),
    /// Connect to this address.
    Connect(SocketAddr),
    /// Relay bytes between client and destination until the relay ends.
    Relay,
    /// Close the connection.
    Close,
}

/// What an `Action` holds.
pub enum ActionView {
    Read(nat),
    Write(Seq<u8>),
    Resolve(Seq<char>, u16),
    Connect(SocketAddrView),
    Relay,
    Close,
}

impl View for Action {
    type V = ActionView;

    open spec fn view(&self) -> ActionView {
        match *self {
            Action::Read(n) => ActionView::Read(n as nat),
            Action::Write(bytes) => ActionView::Write(bytes@),
            Action::Resolve(name, port) => ActionView::Resolve(name@, port),
            Action::Connect(addr) => ActionView::Connect(addr@),
            Action::Relay => ActionView::Relay,
            Action::Close => ActionView::Close,
        }
    }
}

/// The message of the failure when the client offers no method that the
/// server accepts.
pub open spec fn no_method_message() -> Seq<char> {
    "no acceptable authentication method"@
}

/// The message of the failure when the request could not be read.
pub open spec fn read_failed_message() -> Seq<char> {
    "reading the request failed"@
}

/// The message of the failure when the destination's family is not served.
pub open spec fn family_message() -> Seq<char> {
    "address family not allowed"@
}

/// The message of the failure when connecting to the destination failed.
pub open spec fn connect_message() -> Seq<char> {
    "connect error"@
}

/// What a failure holds: the reply owed to the client, and a message.
pub struct Failure {
    pub reply: Replies,
    pub message: Seq<char>,
}

/// What an optional error holds.
pub open spec fn failure_view(failure: Option<Error>) -> Option<Failure> {
    match failure {
        Some(e) => Some(Failure { reply: e.reply, message: e.message@ }),
        None => None,
    }
}

/// What an optional address holds.
pub open spec fn requested_view(requested: Option<Address>) -> Option<AddressView> {
    match requested {
        Some(a) => Some(a@),
        None => None,
    }
}

/// What an optional socket address holds.
pub open spec fn target_view(target: Option<SocketAddr>) -> Option<SocketAddrView> {
    match target {
        Some(a) => Some(a@),
        None => None,
    }
}

/// What decoding a bare address as a request makes of `b`: a CONNECT to the
/// address.
pub open spec fn spec_read_lite(b: Seq<u8>) -> Decoded<TcpRequestHeaderView> {
    match spec_read_address(b) {
        Decoded::Complete(address, n) => Decoded::Complete(
            TcpRequestHeaderView { command: Command::Connect, address },
            n,
        ),
        Decoded::Incomplete(needed) => Decoded::Incomplete(needed),
        Decoded::Rejected(reply, message) => Decoded::Rejected(reply, message),
    }
}

/// The whole of a connection, as values.
pub struct ConnectionView {
    pub protocol: Protocol,
    pub state: State,
    pub pending: Pending,
    /// The client's own address.
    pub peer: SocketAddrView,
    pub families: Families,
    /// Bytes received from the client and not yet made anything of.
    pub buffer: Seq<u8>,
    /// The address that the client asked for.
    pub requested: Option<AddressView>,
    /// The address that is, or was, connected to.
    pub target: Option<SocketAddrView>,
    /// Why the connection was turned down or closed early.
    pub failure: Option<Failure>,
}

impl ConnectionView {
    /// State and pending work go together, and the addresses that a state
    /// relies on are there and well formed.
    pub open spec fn wf(self) -> bool {
        &&& match self.state {
            State::AwaitingAuth => self.pending == Pending::Bytes,
            State::Authenticated => self.pending == Pending::Write,
            State::AwaitingRequest => self.pending == Pending::Bytes,
            State::Dispatched => self.pending == Pending::Resolution || self.pending
                == Pending::Connection,
            State::Relaying => self.pending == Pending::Write || self.pending == Pending::Relay,
            State::Rejected => self.pending == Pending::Write,
            State::Closed => self.pending == Pending::Nothing,
        }
        &&& (self.protocol == Protocol::Lite ==> self.state != State::AwaitingAuth && self.state
            != State::Authenticated)
        &&& self.peer.wf()
        &&& (self.requested matches Some(a) ==> a.wf())
        &&& (self.target matches Some(t) ==> t.wf())
        &&& (self.pending == Pending::Resolution ==> self.requested matches Some(
            AddressView::DomainNameAddress(..),
        ))
        &&& (self.pending == Pending::Connection ==> self.target is Some)
        &&& (self.state == State::Relaying ==> self.target is Some)
    }

    /// The connection of a SOCKS5 client at its start.
    pub open spec fn initial(peer: SocketAddrView, families: Families) -> ConnectionView {
        ConnectionView {
            protocol: Protocol::Socks5,
            state: State::AwaitingAuth,
            pending: Pending::Bytes,
            peer,
            families,
            buffer: Seq::empty(),
            requested: None,
            target: None,
            failure: None,
        }
    }

    /// The connection of a client that sends a bare address, at its start.
    pub open spec fn initial_lite(peer: SocketAddrView, families: Families) -> ConnectionView {
        ConnectionView {
            protocol: Protocol::Lite,
            state: State::AwaitingRequest,
            pending: Pending::Bytes,
            peer,
            families,
            buffer: Seq::empty(),
            requested: None,
            target: None,
            failure: None,
        }
    }

    /// What decoding the request makes of the buffered bytes.
    pub open spec fn request(self) -> Decoded<TcpRequestHeaderView> {
        match self.protocol {
            Protocol::Socks5 => spec_read_request(self.buffer),
            Protocol::Lite => spec_read_lite(self.buffer),
        }
    }

    /// The connection closed, otherwise as it is.
    pub open spec fn close(self) -> (ConnectionView, ActionView) {
        (
            ConnectionView { state: State::Closed, pending: Pending::Nothing, ..self },
            ActionView::Close,
        )
    }

    /// The connection turned down: the failure is kept, and the response
    /// with its reply and `address` is to be written.
    pub open spec fn reject(self, reply: Replies, message: Seq<char>, address: AddressView) -> (
        ConnectionView,
        ActionView,
    ) {
        (
            ConnectionView {
                state: State::Rejected,
                pending: Pending::Write,
                failure: Some(Failure { reply, message }),
                ..self
            },
            ActionView::Write(response_wire(reply, address)),
        )
    }

    /// The destination is known: it is dialled if its family is served,
    /// and the connection is turned down with `NetworkUnreachable` if not.
    pub open spec fn connect_to(self, addr: SocketAddrView) -> (ConnectionView, ActionView) {
        if self.families.spec_allows(addr) {
            (
                ConnectionView {
                    state: State::Dispatched,
                    pending: Pending::Connection,
                    target: Some(addr),
                    ..self
                },
                ActionView::Connect(addr),
            )
        } else {
            self.reject(
                Replies::NetworkUnreachable,
                family_message(),
                AddressView::SocketAddress(addr),
            )
        }
    }

    /// What becomes of the buffered bytes while the authentication request
    /// is awaited.
    pub open spec fn on_auth_bytes(self) -> (ConnectionView, ActionView) {
        match spec_read_auth(self.buffer) {
            Decoded::Incomplete(needed) => (self, ActionView::Read(needed)),
            Decoded::Rejected(reply, message) => (
                ConnectionView {
                    state: State::Closed,
                    pending: Pending::Nothing,
                    failure: Some(Failure { reply, message }),
                    ..self
                },
                ActionView::Close,
            ),
            Decoded::Complete(methods, n) => if methods.contains(Method::NoAuth) {
                (
                    ConnectionView {
                        state: State::Authenticated,
                        pending: Pending::Write,
                        buffer: self.buffer.skip(n as int),
                        ..self
                    },
                    ActionView::Write(AuthenticationResponse::wire(Method::NoAuth)),
                )
            } else {
                (
                    ConnectionView {
                        state: State::Rejected,
                        pending: Pending::Write,
                        buffer: self.buffer.skip(n as int),
                        failure: Some(
                            Failure {
                                reply: Replies::ConnectionNotAllowed,
                                message: no_method_message(),
                            },
                        ),
                        ..self
                    },
                    ActionView::Write(AuthenticationResponse::wire(Method::NotAcceptable)),
                )
            },
        }
    }

    /// What becomes of a decoded request: a CONNECT is dispatched, any
    /// other command is turned down with `CommandNotSupported` and the
    /// address that was asked for.
    pub open spec fn dispatch(self, header: TcpRequestHeaderView) -> (ConnectionView, ActionView) {
        let c = ConnectionView { requested: Some(header.address), ..self };
        match header.command {
            Command::Connect => match header.address {
                AddressView::SocketAddress(addr) => c.connect_to(addr),
                AddressView::DomainNameAddress(name, port) => (
                    ConnectionView {
                        state: State::Dispatched,
                        pending: Pending::Resolution,
                        ..c
                    },
                    ActionView::Resolve(name, port),
                ),
            },
            _ => c.reject(
                Replies::CommandNotSupported,
                command_message(header.command.spec_as_u8()),
                header.address,
            ),
        }
    }

    /// What becomes of the buffered bytes while the request is awaited. A
    /// request that cannot be decoded is answered with the reply that the
    /// failure carries and the client's own address.
    pub open spec fn on_request_bytes(self) -> (ConnectionView, ActionView) {
        match self.request() {
            Decoded::Incomplete(needed) => (self, ActionView::Read(needed)),
            Decoded::Rejected(reply, message) => self.reject(
                reply,
                message,
                AddressView::SocketAddress(self.peer),
            ),
            Decoded::Complete(header, n) => ConnectionView {
                buffer: self.buffer.skip(n as int),
                ..self
            }.dispatch(header),
        }
    }

    /// The connection after an event, and what the driver is to do next. An
    /// event that the pending work cannot end in closes the connection.
    pub open spec fn step(self, event: Event) -> (ConnectionView, ActionView) {
        match event {
            Event::Received(bytes) => {
                let c = ConnectionView { buffer: self.buffer + bytes@, ..self };
                if self.pending != Pending::Bytes {
                    self.close()
                } else if self.state == State::AwaitingAuth {
                    c.on_auth_bytes()
                } else {
                    c.on_request_bytes()
                }
            },
            Event::ReadFailed => if self.pending == Pending::Bytes && self.state
                == State::AwaitingRequest {
                self.reject(
                    Replies::GeneralFailure,
                    read_failed_message(),
                    AddressView::SocketAddress(self.peer),
                )
            } else {
                self.close()
            },
            Event::Written => if self.pending != Pending::Write {
                self.close()
            } else if self.state == State::Authenticated {
                ConnectionView {
                    state: State::AwaitingRequest,
                    pending: Pending::Bytes,
                    ..self
                }.on_request_bytes()
            } else if self.state == State::Relaying {
                (ConnectionView { pending: Pending::Relay, ..self }, ActionView::Relay)
            } else {
                self.close()
            },
            Event::WriteFailed => self.close(),
            Event::Resolved(addrs) => if self.pending != Pending::Resolution {
                self.close()
            } else if addrs@.len() == 0 {
                self.reject(
                    Replies::HostUnreachable,
                    connect_message(),
                    self.requested->0,
                )
            } else {
                self.connect_to(addrs@[0]@)
            },
            Event::Connected => if self.pending != Pending::Connection {
                self.close()
            } else {
                (
                    ConnectionView { state: State::Relaying, pending: Pending::Write, ..self },
                    ActionView::Write(
                        response_wire(
                            Replies::Succeeded,
                            AddressView::SocketAddress(self.target->0),
                        ),
                    ),
                )
            },
            Event::ConnectFailed(e) => if self.pending != Pending::Connection {
                self.close()
            } else {
                self.reject(
                    Replies::spec_from_connect_error(e),
                    connect_message(),
                    AddressView::SocketAddress(self.target->0),
                )
            },
            Event::RelayFinished => self.close(),
        }
    }
}

/// One client connection.
#[derive(Debug)]
pub struct Connection {
    protocol: Protocol,
    state: State,
    pending: Pending,
    peer: SocketAddr,
    families: Families,
    buffer: Vec<u8>,
    requested: Option<Address>,
    target: Option<SocketAddr>,
    failure: Option<Error>,
}

impl View for Connection {
    type V = ConnectionView;

    closed spec fn view(&self) -> ConnectionView {
        ConnectionView {
            protocol: self.protocol,
            state: self.state,
            pending: self.pending,
            peer: self.peer@,
            families: self.families,
            buffer: self.buffer@,
            requested: requested_view(self.requested),
            target: target_view(self.target),
            failure: failure_view(self.failure),
        }
    }
}

impl Connection {
    /// Whether the connection is one that `accept` and `step` give.
    pub open spec fn wf(&self) -> bool {
        self@.wf()
    }

    /// The connection of a client that was just accepted, with the first
    /// thing to do: reading the first byte of its authentication request.
    pub fn accept(peer: SocketAddr, families: Families) -> (r: (Connection, Action))
        ensures
            r.0.wf(),
            r.0@ == ConnectionView::initial(peer@, families),
            (r.0@, r.1@) == ConnectionView::initial(peer@, families).on_auth_bytes(),
            r.1@ == ActionView::Read(1),
    {
        let connection = Connection {
            protocol: Protocol::Socks5,
            state: State::AwaitingAuth,
            pending: Pending::Bytes,
            peer,
            families,
            buffer: Vec::new(),
            requested: None,
            target: None,
            failure: None,
        };
        (connection, Action::Read(1))
    }

    /// The connection of a client that sends only the address of its
    /// destination, with the first thing to do: reading the address's first
    /// byte.
    pub fn accept_lite(peer: SocketAddr, families: Families) -> (r: (Connection, Action))
        ensures
            r.0.wf(),
            r.0@ == ConnectionView::initial_lite(peer@, families),
            (r.0@, r.1@) == ConnectionView::initial_lite(peer@, families).on_request_bytes(),
            r.1@ == ActionView::Read(1),
    {
        let connection = Connection {
            protocol: Protocol::Lite,
            state: State::AwaitingRequest,
            pending: Pending::Bytes,
            peer,
            families,
            buffer: Vec::new(),
            requested: None,
            target: None,
            failure: None,
        };
        (connection, Action::Read(1))
    }

    /// Whether `step` accepts the connection. Every connection that
    /// `accept`, `accept_lite` and `step` give is one.
    pub fn is_wf(&self) -> (b: bool)
        ensures
            b == self.wf(),
    {
        let paired = match self.state {
            State::AwaitingAuth => self.pending == Pending::Bytes,
            State::Authenticated => self.pending == Pending::Write,
            State::AwaitingRequest => self.pending == Pending::Bytes,
            State::Dispatched => self.pending == Pending::Resolution || self.pending
                == Pending::Connection,
            State::Relaying => self.pending == Pending::Write || self.pending == Pending::Relay,
            State::Rejected => self.pending == Pending::Write,
            State::Closed => self.pending == Pending::Nothing,
        };
        let negotiated = self.protocol == Protocol::Socks5 || (self.state != State::AwaitingAuth
            && self.state != State::Authenticated);
        let requested = match &self.requested {
            Some(a) => a.is_wf(),
            None => true,
        };
        let resolving = self.pending != Pending::Resolution || match &self.requested {
            Some(Address::DomainNameAddress(..)) => true,
            _ => false,
        };
        let connecting = self.pending != Pending::Connection || self.target.is_some();
        let relaying = self.state != State::Relaying || self.target.is_some();
        paired && negotiated && requested && resolving && connecting && relaying
    }

    /// What the client speaks.
    pub fn protocol(&self) -> (p: Protocol)
        ensures
            p == self@.protocol,
    {
        self.protocol
    }

    /// Where the connection stands.
    pub fn state(&self) -> (s: State)
        ensures
            s == self@.state,
    {
        self.state
    }

    /// What the driver is doing for the connection.
    pub fn pending(&self) -> (p: Pending)
        ensures
            p == self@.pending,
    {
        self.pending
    }

    /// The client's own address.
    pub fn peer(&self) -> (a: SocketAddr)
        ensures
            a@ == self@.peer,
    {
        self.peer
    }

    /// The address that the client asked for, once its request is decoded.
    pub fn requested(&self) -> (a: Option<&Address>)
        ensures
            match a {
                Some(a) => self@.requested == Some(a@),
                None => self@.requested is None,
            },
    {
        self.requested.as_ref()
    }

    /// The address that is, or was, connected to.
    pub fn target(&self) -> (a: Option<SocketAddr>)
        ensures
            target_view(a) == self@.target,
    {
        self.target
    }

    /// Why the connection was turned down or closed early, if it was.
    pub fn error(&self) -> (e: Option<&Error>)
        ensures
            match e {
                Some(e) => self@.failure == Some(Failure { reply: e.reply, message: e.message@ }),
                None => self@.failure is None,
            },
    {
        self.failure.as_ref()
    }

    /// The bytes that the client sent beyond its request: the first that
    /// the relay owes the destination.
    pub fn buffered(&self) -> (bytes: &[u8])
        ensures
            bytes@ == self@.buffer,
    {
        self.buffer.as_slice()
    }

    fn close(&mut self) -> (action: Action)
        ensures
            (final(self)@, action@) == old(self)@.close(),
    {
        self.state = State::Closed;
        self.pending = Pending::Nothing;
        Action::Close
    }

    fn reject(&mut self, e: Error, address: &Address) -> (action: Action)
        requires
            address.wf(),
        ensures
            (final(self)@, action@) == old(self)@.reject(e.reply, e.message@, address@),
    {
        let response = e.reply.into_response(address.clone());
        let bytes = response.to_bytes();
        self.state = State::Rejected;
        self.pending = Pending::Write;
        self.failure = Some(e);
        Action::Write(bytes)
    }

    fn connect_to(&mut self, addr: SocketAddr) -> (action: Action)
        ensures
            (final(self)@, action@) == old(self)@.connect_to(addr@),
    {
        if self.families.allows(&addr) {
            self.state = State::Dispatched;
            self.pending = Pending::Connection;
            self.target = Some(addr);
            Action::Connect(addr)
        } else {
            let e = Error::new(Replies::NetworkUnreachable, "address family not allowed");
            self.reject(e, &Address::SocketAddress(addr))
        }
    }

    fn on_auth_bytes(&mut self) -> (action: Action)
        ensures
            (final(self)@, action@) == old(self)@.on_auth_bytes(),
    {
        match AuthenticationRequest::read_from(self.buffer.as_slice()) {
            Err(DecodeError::UnexpectedEof { needed }) => Action::Read(needed),
            Err(DecodeError::Protocol(e)) => {
                self.state = State::Closed;
                self.pending = Pending::Nothing;
                self.failure = Some(e);
                Action::Close
            },
            Ok((request, n)) => {
                let rest = self.buffer.split_off(n);
                self.buffer = rest;
                let authentication_response: AuthenticationResponse =
                    if request.required_authentication() {
                    self.state = State::Rejected;
                    self.failure = Some(
                        Error::new(
                            Replies::ConnectionNotAllowed,
                            "no acceptable authentication method",
                        ),
                    );
                    AuthenticationResponse::from(Method::NotAcceptable)
                } else {
                    self.state = State::Authenticated;
                    AuthenticationResponse::from(Method::NoAuth)
                };
                self.pending = Pending::Write;
                Action::Write(authentication_response.to_bytes())
            },
        }
    }

    fn dispatch(&mut self, header: TcpRequestHeader) -> (action: Action)
        requires
            header.address.wf(),
        ensures
            (final(self)@, action@) == old(self)@.dispatch(header@),
    {
        let TcpRequestHeader { command, address } = header;
        match command {
            Command::Connect => match &address {
                Address::SocketAddress(addr) => {
                    let addr = *addr;
                    self.requested = Some(address);
                    self.connect_to(addr)
                },
                Address::DomainNameAddress(name, port) => {
                    let action = Action::Resolve(name.clone(), *port);
                    self.requested = Some(address);
                    self.state = State::Dispatched;
                    self.pending = Pending::Resolution;
                    action
                },
            },
            // Bind and UdpAssociate are not supported
            _ => {
                let message = with_hex("unsupported command ", command.as_u8());
                let e = Error::new(Replies::CommandNotSupported, message.as_str());
                let action = self.reject(e, &address);
                self.requested = Some(address);
                action
            },
        }
    }

    fn on_request_bytes(&mut self) -> (action: Action)
        ensures
            (final(self)@, action@) == old(self)@.on_request_bytes(),
    {
        let decoded = match self.protocol {
            Protocol::Socks5 => TcpRequestHeader::read_from(self.buffer.as_slice()),
            Protocol::Lite => match Address::read_from(self.buffer.as_slice()) {
                Ok((address, n)) => Ok((TcpRequestHeader { command: Command::Connect, address }, n)),
                Err(e) => Err(e),
            },
        };
        match decoded {
            Err(DecodeError::UnexpectedEof { needed }) => Action::Read(needed),
            Err(DecodeError::Protocol(e)) => {
                let peer = Address::SocketAddress(self.peer);
                self.reject(e, &peer)
            },
            Ok((header, n)) => {
                let rest = self.buffer.split_off(n);
                self.buffer = rest;
                self.dispatch(header)
            },
        }
    }

    /// Takes the connection one step on: `event` is what came of the
    /// action that the connection asked for last.
    pub fn step(&mut self, event: Event) -> (action: Action)
        requires
            old(self).wf(),
        ensures
            final(self).wf(),
            (final(self)@, action@) == old(self)@.step(event),
    {
        proof {
            lemma_step_wf(self@, event);
        }
        match event {
            Event::Received(bytes) => {
                if self.pending != Pending::Bytes {
                    self.close()
                } else {
                    put_slice(&mut self.buffer, bytes.as_slice());
                    if self.state == State::AwaitingAuth {
                        self.on_auth_bytes()
                    } else {
                        self.on_request_bytes()
                    }
                }
            },
            Event::ReadFailed => {
                if self.pending == Pending::Bytes && self.state == State::AwaitingRequest {
                    let e = Error::from_io("reading the request failed");
                    let peer = Address::SocketAddress(self.peer);
                    self.reject(e, &peer)
                } else {
                    self.close()
                }
            },
            Event::Written => {
                if self.pending != Pending::Write {
                    self.close()
                } else if self.state == State::Authenticated {
                    self.state = State::AwaitingRequest;
                    self.pending = Pending::Bytes;
                    self.on_request_bytes()
                } else if self.state == State::Relaying {
                    self.pending = Pending::Relay;
                    Action::Relay
                } else {
                    self.close()
                }
            },
            Event::WriteFailed => self.close(),
            Event::Resolved(addrs) => {
                if self.pending != Pending::Resolution {
                    self.close()
                } else {
                    // a connection that resolves holds the name that it asked for
                    let requested = match &self.requested {
                        Some(a) => a.clone(),
                        None => Address::SocketAddress(self.peer),
                    };
                    match requested.to_socket_addrs(addrs.as_slice()) {
                        Ok(addr) => self.connect_to(addr),
                        Err(e) => {
                            let e = Error::new(Replies::from_connect_error(e), "connect error");
                            self.reject(e, &requested)
                        },
                    }
                }
            },
            Event::Connected => {
                match self.target {
                    Some(target) if self.pending == Pending::Connection => {
                        let response = Replies::Succeeded.into_response(
                            Address::SocketAddress(target),
                        );
                        self.state = State::Relaying;
                        self.pending = Pending::Write;
                        Action::Write(response.to_bytes())
                    },
                    _ => self.close(),
                }
            },
            Event::ConnectFailed(e) => {
                match self.target {
                    Some(target) if self.pending == Pending::Connection => {
                        let e = Error::new(Replies::from_connect_error(e), "connect error");
                        self.reject(e, &Address::SocketAddress(target))
                    },
                    _ => self.close(),
                }
            },
            Event::RelayFinished => self.close(),
        }
    }
}

/// A step takes a well-formed connection to a well-formed connection.
pub proof fn lemma_step_wf(c: ConnectionView, event: Event)
    requires
        c.wf(),
    ensures
        c.step(event).0.wf(),
{
    match event {
        Event::Received(bytes) => {
            let b = c.buffer + bytes@;
            crate::address::lemma_decoded_address(b.skip(3));
            crate::address::lemma_decoded_address(b);
        },
        Event::Written => {
            crate::address::lemma_decoded_address(c.buffer.skip(3));
        },
        _ => {},
    }
}

/// States are passed in order: no step leads back to an earlier state.
pub proof fn lemma_step_forward(c: ConnectionView, event: Event)
    requires
        c.wf(),
    ensures
        c.step(event).0.state.rank() >= c.state.rank(),
{
}

/// A closed connection stays as it is, and all it asks for is to be closed.
pub proof fn lemma_closed_is_final(c: ConnectionView, event: Event)
    requires
        c.wf(),
        c.state == State::Closed,
    ensures
        c.step(event) == (c, ActionView::Close),
{
}

/// Whatever is reported of a rejected connection closes it: after the
/// response that turns the client down nothing is read, resolved, dialled or
/// relayed.
pub proof fn lemma_rejected_then_closed(c: ConnectionView, event: Event)
    requires
        c.wf(),
        c.state == State::Rejected,
    ensures
        c.step(event) == c.close(),
        c.step(event).0.state == State::Closed,
        c.step(event).1 == ActionView::Close,
{
}

/// A request for BIND or UDP ASSOCIATE is answered with
/// `CommandNotSupported` and the address that was asked for, and the
/// connection is rejected: whatever is reported next closes it, so no name
/// is resolved and no destination dialled.
pub proof fn lemma_unsupported_command(c: ConnectionView, next: Event)
    requires
        c.wf(),
        c.state == State::AwaitingRequest,
        c.request() matches Decoded::Complete(h, _) && h.command != Command::Connect,
    ensures
        ({
            let address = c.request()->Complete_0.address;
            let (rejected, action) = c.on_request_bytes();
            &&& action == ActionView::Write(response_wire(Replies::CommandNotSupported, address))
            &&& action->Write_0[1] == 7
            &&& rejected.state == State::Rejected
            &&& rejected.wf()
            &&& rejected.step(next).0.state == State::Closed
            &&& rejected.step(next).1 == ActionView::Close
        }),
{
    crate::address::lemma_decoded_address(c.buffer.skip(3));
}

/// The same, told of the bytes on the wire: when the last bytes of such a
/// request arrive, the step that takes them answers `CommandNotSupported`.
pub proof fn lemma_unsupported_command_received(c: ConnectionView, bytes: Vec<u8>)
    requires
        c.wf(),
        c.state == State::AwaitingRequest,
        c.protocol == Protocol::Socks5,
        spec_read_request(c.buffer + bytes@) matches Decoded::Complete(h, _) && h.command
            != Command::Connect,
    ensures
        c.step(Event::Received(bytes)).0.state == State::Rejected,
        c.step(Event::Received(bytes)).1 == ActionView::Write(
            response_wire(
                Replies::CommandNotSupported,
                spec_read_request(c.buffer + bytes@)->Complete_0.address,
            ),
        ),
{
}

/// No decoder rejects a request with the reply `Succeeded`.
pub proof fn lemma_rejection_is_failure(b: Seq<u8>)
    ensures
        spec_read_request(b) matches Decoded::Rejected(reply, _) ==> reply != Replies::Succeeded,
        spec_read_lite(b) matches Decoded::Rejected(reply, _) ==> reply != Replies::Succeeded,
{
}

/// No rejection goes unanswered. A step that rejects the connection keeps
/// the failure and has a response written: at the method negotiation the
/// response that names no acceptable method, later a response header with
/// the failure's reply, which is never `Succeeded`, and a well-formed address.
pub proof fn lemma_rejection_is_answered(c: ConnectionView, event: Event)
    requires
        c.wf(),
        c.step(event).0.state == State::Rejected,
    ensures
        ({
            let (rejected, action) = c.step(event);
            &&& rejected.failure is Some
            &&& action is Write
            &&& c.state == State::AwaitingAuth ==> action->Write_0 == AuthenticationResponse::wire(
                Method::NotAcceptable,
            )
            &&& c.state != State::AwaitingAuth ==> rejected.failure->0.reply != Replies::Succeeded
                && exists|address: AddressView|
                    address.wf() && action->Write_0 == #[trigger] response_wire(
                        rejected.failure->0.reply,
                        address,
                    )
        }),
{
    let (rejected, action) = c.step(event);
    if c.state != State::AwaitingAuth {
        match event {
            Event::Received(bytes) => {
                let b = c.buffer + bytes@;
                lemma_request_rejection(ConnectionView { buffer: b, ..c });
            },
            Event::Written => {
                lemma_request_rejection(
                    ConnectionView {
                        state: State::AwaitingRequest,
                        pending: Pending::Bytes,
                        ..c
                    },
                );
            },
            Event::ReadFailed => {
                assert(action->Write_0 == response_wire(
                    rejected.failure->0.reply,
                    AddressView::SocketAddress(c.peer),
                ));
            },
            Event::Resolved(addrs) => {
                if addrs@.len() == 0 {
                    assert(action->Write_0 == response_wire(
                        rejected.failure->0.reply,
                        c.requested->0,
                    ));
                } else {
                    assert(action->Write_0 == response_wire(
                        rejected.failure->0.reply,
                        AddressView::SocketAddress(addrs@[0]@),
                    ));
                }
            },
            Event::ConnectFailed(e) => {
                assert(action->Write_0 == response_wire(
                    rejected.failure->0.reply,
                    AddressView::SocketAddress(c.target->0),
                ));
            },
            _ => {},
        }
    }
}

/// Where examining the buffered request rejects the connection, the
/// response carries the failure's reply and a well-formed address.
proof fn lemma_request_rejection(c: ConnectionView)
    requires
        c.peer.wf(),
        c.state == State::AwaitingRequest,
        c.on_request_bytes().0.state == State::Rejected,
    ensures
        ({
            let (rejected, action) = c.on_request_bytes();
            &&& rejected.failure is Some
            &&& rejected.failure->0.reply != Replies::Succeeded
            &&& action is Write
            &&& exists|address: AddressView|
                address.wf() && action->Write_0 == #[trigger] response_wire(
                    rejected.failure->0.reply,
                    address,
                )
        }),
{
    let (rejected, action) = c.on_request_bytes();
    crate::address::lemma_decoded_address(c.buffer.skip(3));
    crate::address::lemma_decoded_address(c.buffer);
    match c.request() {
        Decoded::Incomplete(_) => {},
        Decoded::Rejected(reply, message) => {
            assert(action->Write_0 == response_wire(reply, AddressView::SocketAddress(c.peer)));
        },
        Decoded::Complete(header, n) => {
            match header.command {
                Command::Connect => {
                    let addr = header.address->SocketAddress_0;
                    assert(action->Write_0 == response_wire(
                        Replies::NetworkUnreachable,
                        AddressView::SocketAddress(addr),
                    ));
                },
                _ => {
                    assert(action->Write_0 == response_wire(
                        Replies::CommandNotSupported,
                        header.address,
                    ));
                },
            }
        },
    }
}

/// A destination is dialled, or a name resolved, only for a CONNECT: the
/// step that asks for either has just decoded a request with that command,
/// or follows the resolution that such a request began.
pub proof fn lemma_outbound_only_for_connect(c: ConnectionView, event: Event)
    requires
        c.wf(),
        c.step(event).1 is Connect || c.step(event).1 is Resolve,
    ensures
        c.step(event).0.state == State::Dispatched,
        c.state == State::Dispatched || match event {
            Event::Received(bytes) => (ConnectionView {
                buffer: c.buffer + bytes@,
                ..c
            }).request() matches Decoded::Complete(h, _) && h.command == Command::Connect,
            _ => c.request() matches Decoded::Complete(h, _) && h.command == Command::Connect,
        },
{
}

/// The success response is written for a connected destination only, and
/// bytes are relayed only once it has reached the client.
pub proof fn lemma_success_only_when_connected(c: ConnectionView, event: Event)
    requires
        c.wf(),
    ensures
        c.step(event).0.state == State::Relaying && c.state != State::Relaying ==> event
            is Connected && c.step(event).1 == ActionView::Write(
            response_wire(Replies::Succeeded, AddressView::SocketAddress(c.target->0)),
        ),
        c.step(event).1 is Relay ==> c.state == State::Relaying && event is Written,
{
}

/// A step that asks for bytes asks for at least one, and for no more than
/// the frame that is being read can still need.
pub proof fn lemma_read_asks_for_bytes(c: ConnectionView, event: Event)
    requires
        c.wf(),
    ensures
        c.step(event).1 matches ActionView::Read(needed) ==> 1 <= needed <= 262 && (
        c.step(event).0.state == State::AwaitingAuth || c.step(event).0.state
            == State::AwaitingRequest),
{
    match event {
        Event::Received(bytes) => {
            let b = c.buffer + bytes@;
            crate::auth::lemma_auth_bounds(b);
            crate::header::lemma_request_bounds(b);
            crate::address::lemma_address_needed_bounds(b);
        },
        Event::Written => {
            crate::header::lemma_request_bounds(c.buffer);
        },
        _ => {},
    }
}

} // verus!
