//! Connections: one transport session.
//!
//! A connection is opened in a registration and started with a configuration,
//! or it is created by the engine for a peer and announced by a listener. From
//! then on the engine drives it until it delivers `ShutdownComplete`. What may
//! happen to a connection, and when, is written down once, in [`step`].

use crate::buffer::BufferRef;
use crate::config::{CredentialConfig, CredentialFlags};
use crate::configuration::{load_outcome, Configuration, ConfigurationModel};
use crate::handle::{CallbackHandler, Detached, Native, Owned, RawHandle};
use crate::registration::Registration;
use crate::status::{outcome_of, CallbackOutcome, Error, Status};
use crate::stream::{StreamModel, StreamOpenFlags, StreamPhase, StreamRef};
use vstd::prelude::*;

verus! {

/// Flags of `shutdown`.
#[derive(Clone, Copy, Debug, PartialEq, Eq, Structural)]
pub struct ConnectionShutdownFlags {
    /// Do not tell the peer.
    pub silent: bool,
}

impl ConnectionShutdownFlags {
    /// No flag set.
    pub fn none() -> (flags: Self)
        ensures
            flags == (ConnectionShutdownFlags { silent: false }),
    {
        ConnectionShutdownFlags { silent: false }
    }
}

/// Where a connection is in its life.
#[derive(Clone, Copy, Debug, PartialEq, Eq, Structural)]
pub enum ConnectionPhase {
    /// Opened, not started: the engine does not drive it yet.
    Created,
    /// The handshake is under way.
    Connecting,
    /// The handshake is complete: streams can be opened.
    Connected,
    /// `ShutdownComplete` was delivered: no event follows.
    Closed,
}

/// What a connection is, to the contracts.
pub struct ConnectionModel {
    /// The engine's name for the connection.
    pub raw: RawHandle,
    /// The registration that it belongs to.
    pub registration: RawHandle,
    /// The handler bound to the connection, if any.
    pub handler: Option<CallbackHandler>,
    /// The configuration that it uses, if one is set.
    pub configuration: Option<RawHandle>,
    /// Where the connection is in its life.
    pub phase: ConnectionPhase,
    /// A shutdown has been asked for.
    pub shutdown_requested: bool,
    /// A handler failed: the connection is to be torn down.
    pub broken: bool,
}

/// One thing that happens to a connection: a call of the wrapper that took
/// effect, or an event of the engine.
pub enum ConnectionStep {
    /// A handler was bound.
    Bind { handler: CallbackHandler },
    /// A configuration was set on a connection that the engine created.
    Configure { configuration: RawHandle },
    /// `start` was accepted.
    Start { configuration: RawHandle },
    /// `shutdown` was called.
    Shutdown,
    /// A handler returned a failure.
    Break,
    /// Event: the handshake is complete.
    Connected,
    /// Event: the peer has opened a stream.
    PeerStreamStarted,
    /// Event: the connection is shut down.
    ShutdownComplete,
}

/// The engine drives the connection: events are owed.
pub open spec fn driven(m: ConnectionModel) -> bool {
    m.phase is Connecting || m.phase is Connected
}

/// The connection after `s`, or `None` where `s` cannot happen to `m`.
pub open spec fn step(m: ConnectionModel, s: ConnectionStep) -> Option<ConnectionModel> {
    match s {
        ConnectionStep::Bind { handler } => Some(ConnectionModel { handler: Some(handler), ..m }),
        ConnectionStep::Configure { configuration } => if m.phase is Connecting
            && m.configuration is None {
            Some(ConnectionModel { configuration: Some(configuration), ..m })
        } else {
            None
        },
        ConnectionStep::Start { configuration } => if m.phase is Created {
            Some(
                ConnectionModel {
                    phase: ConnectionPhase::Connecting,
                    configuration: Some(configuration),
                    ..m
                },
            )
        } else {
            None
        },
        ConnectionStep::Shutdown => Some(
            ConnectionModel { shutdown_requested: m.shutdown_requested || driven(m), ..m },
        ),
        ConnectionStep::Break => Some(ConnectionModel { broken: true, ..m }),
        ConnectionStep::Connected => if m.handler is Some && m.phase is Connecting
            && m.configuration is Some {
            Some(ConnectionModel { phase: ConnectionPhase::Connected, ..m })
        } else {
            None
        },
        ConnectionStep::PeerStreamStarted => if m.handler is Some && m.phase is Connected {
            Some(m)
        } else {
            None
        },
        ConnectionStep::ShutdownComplete => if m.handler is Some && driven(m) {
            Some(ConnectionModel { phase: ConnectionPhase::Closed, ..m })
        } else {
            None
        },
    }
}

/// An event as the engine delivers it.
#[derive(Debug)]
pub enum ConnectionSignal<'a> {
    /// The handshake is complete.
    Connected { session_resumed: bool, negotiated_alpn: BufferRef<'a> },
    /// The peer has opened the stream `stream`, whose id is `id`.
    PeerStreamStarted { stream: RawHandle, id: u64, flags: StreamOpenFlags },
    /// The connection is shut down.
    ShutdownComplete {
        handshake_completed: bool,
        peer_acknowledged_shutdown: bool,
        app_close_in_progress: bool,
    },
}

/// An event as a handler sees it.
#[derive(Debug)]
pub enum ConnectionEvent<'a> {
    /// The handshake is complete: streams can be opened.
    Connected { session_resumed: bool, negotiated_alpn: BufferRef<'a> },
    /// The peer has opened a stream. It has no handler: the handler of the
    /// connection binds one before it returns, or the stream is dropped.
    PeerStreamStarted { stream: StreamRef, flags: StreamOpenFlags },
    /// The connection is shut down. It can now be attached and closed.
    ShutdownComplete {
        handshake_completed: bool,
        peer_acknowledged_shutdown: bool,
        app_close_in_progress: bool,
    },
}

/// The step that a signal stands for.
pub open spec fn signal_step(signal: ConnectionSignal<'_>) -> ConnectionStep {
    match signal {
        ConnectionSignal::Connected { .. } => ConnectionStep::Connected,
        ConnectionSignal::PeerStreamStarted { .. } => ConnectionStep::PeerStreamStarted,
        ConnectionSignal::ShutdownComplete { .. } => ConnectionStep::ShutdownComplete,
    }
}

/// `event` is what a handler is shown for `signal` on a connection that was
/// `m`.
pub open spec fn delivers(
    m: ConnectionModel,
    signal: ConnectionSignal<'_>,
    event: ConnectionEvent<'_>,
) -> bool {
    match signal {
        ConnectionSignal::Connected { session_resumed, negotiated_alpn } => {
            &&& event matches ConnectionEvent::Connected {
                session_resumed: event_resumed,
                negotiated_alpn: event_alpn,
            }
            &&& event_resumed == session_resumed
            &&& event_alpn@ == negotiated_alpn@
        },
        ConnectionSignal::PeerStreamStarted { stream, id, flags } => {
            &&& event matches ConnectionEvent::PeerStreamStarted {
                stream: announced,
                flags: event_flags,
            }
            &&& event_flags == flags
            &&& announced.wf()
            &&& announced.spare() > 0
            &&& announced@ == (StreamModel {
                raw: stream,
                connection: m.raw,
                handler: None,
                phase: StreamPhase::Active,
                id: Some(id),
                peer_fin: false,
                fin_sent: false,
                broken: false,
                pending: Map::empty(),
                issued: Set::empty(),
            })
        },
        ConnectionSignal::ShutdownComplete {
            handshake_completed,
            peer_acknowledged_shutdown,
            app_close_in_progress,
        } => event == (ConnectionEvent::ShutdownComplete {
            handshake_completed,
            peer_acknowledged_shutdown,
            app_close_in_progress,
        }),
    }
}

/// Why a connection that was `m` cannot be started with `configuration` for
/// `server_name`, if it cannot: it was started before, or the configuration
/// has no credential, or no server is named. Where this is `Some`, no
/// handshake is attempted.
pub open spec fn start_refusal(
    m: ConnectionModel,
    configuration: ConfigurationModel,
    server_name: Seq<char>,
) -> Option<Status> {
    if !(m.phase is Created) {
        Some(Status::InvalidState)
    } else if configuration.credential is None {
        Some(Status::InvalidState)
    } else if server_name.len() == 0 {
        Some(Status::InvalidParameter)
    } else {
        None
    }
}

/// **Nothing follows the terminal event.** Once `ShutdownComplete` has been
/// taken, every event is refused, and whatever else happens leaves the
/// connection closed.
pub proof fn lemma_closed_is_final(m: ConnectionModel, s: ConnectionStep)
    requires
        m.phase is Closed,
    ensures
        s is Connected || s is PeerStreamStarted || s is ShutdownComplete ==> step(m, s) is None,
        step(m, s) matches Some(next) ==> next.phase is Closed && !driven(next),
{
}

/// **A credential that was refused starts no handshake.** Where a
/// configuration without credential is asked to load one that is malformed, or
/// one that the engine refuses, the load fails; and the configuration, which
/// is left as it was, starts no connection: every start with it is refused
/// before the engine is asked.
pub proof fn lemma_refused_credential_starts_nothing(
    configuration: ConfigurationModel,
    credential: &CredentialConfig,
    verdict: Result<(), Status>,
    connection: ConnectionModel,
    server_name: Seq<char>,
)
    requires
        configuration.credential is None,
        credential.malformed() || verdict is Err,
    ensures
        load_outcome(configuration, credential, verdict) is Err,
        credential.malformed() ==> load_outcome(configuration, credential, verdict) == Err::<
            CredentialFlags,
            Status,
        >(Status::InvalidParameter),
        start_refusal(connection, configuration, server_name) is Some,
{
}

/// The state of one connection: what a handler is lent for the length of a
/// callback, and what [`Connection`] owns.
#[derive(Debug)]
pub struct ConnectionRef {
    raw: RawHandle,
    registration: RawHandle,
    handler: Option<CallbackHandler>,
    configuration: Option<RawHandle>,
    phase: ConnectionPhase,
    shutdown_requested: bool,
    broken: bool,
}

/// A connection that the wrapper answers for.
pub type Connection = Owned<ConnectionRef>;

impl View for ConnectionRef {
    type V = ConnectionModel;

    closed spec fn view(&self) -> ConnectionModel {
        ConnectionModel {
            raw: self.raw,
            registration: self.registration,
            handler: self.handler,
            configuration: self.configuration,
            phase: self.phase,
            shutdown_requested: self.shutdown_requested,
            broken: self.broken,
        }
    }
}

impl Native for ConnectionRef {
    open spec fn wf(&self) -> bool {
        true
    }

    open spec fn raw(&self) -> RawHandle {
        self@.raw
    }

    open spec fn driven(&self) -> bool {
        driven(self@)
    }

    open spec fn terminal(&self) -> bool {
        self@.phase is Closed
    }

    fn handle(&self) -> (raw: RawHandle) {
        self.raw
    }

    fn is_driven(&self) -> (b: bool) {
        match self.phase {
            ConnectionPhase::Connecting | ConnectionPhase::Connected => true,
            _ => false,
        }
    }

    fn is_terminal(&self) -> (b: bool) {
        match self.phase {
            ConnectionPhase::Closed => true,
            _ => false,
        }
    }
}

impl ConnectionRef {
    /// The state of a connection that the engine created for a peer: the
    /// handshake is under way, and it has neither handler nor configuration.
    pub(crate) fn created_by_peer(registration: RawHandle, raw: RawHandle) -> (connection: Self)
        ensures
            connection@ == (ConnectionModel {
                raw,
                registration,
                handler: None,
                configuration: None,
                phase: ConnectionPhase::Connecting,
                shutdown_requested: false,
                broken: false,
            }),
    {
        ConnectionRef {
            raw,
            registration,
            handler: None,
            configuration: None,
            phase: ConnectionPhase::Connecting,
            shutdown_requested: false,
            broken: false,
        }
    }

    /// Binds `handler` to the connection: it is the one invoked with the
    /// connection's events from now on.
    pub fn set_callback_handler(&mut self, handler: CallbackHandler)
        ensures
            Some(final(self)@) == step(old(self)@, ConnectionStep::Bind { handler }),
    {
        self.handler = Some(handler);
    }

    /// Sets the configuration of a connection that the engine created:
    /// `verdict` is what the engine answered. This is for a connection whose
    /// handshake is under way and that has no configuration yet; elsewhere,
    /// and with a configuration that has no credential, the call fails with
    /// `InvalidState`. A refusal by the engine fails with the engine's status.
    /// Every failure leaves the connection as it was.
    pub fn set_configuration(&mut self, configuration: &Configuration, verdict: Result<(), Status>) -> (result:
        Result<(), Error>)
        ensures
            match step(old(self)@, ConnectionStep::Configure { configuration: configuration@.raw }) {
                Some(next) if configuration@.credential is Some => match verdict {
                    Ok(_) => result == Ok::<(), Error>(()) && final(self)@ == next,
                    Err(status) => result == Err::<(), Error>(Error::Status(status))
                        && final(self)@ == old(self)@,
                },
                _ => result == Err::<(), Error>(Error::Status(Status::InvalidState))
                    && final(self)@ == old(self)@,
            },
    {
        match self.phase {
            ConnectionPhase::Connecting => {},
            _ => {
                return Err(Error::Status(Status::InvalidState));
            },
        }
        if self.configuration.is_some() || !configuration.is_loaded() {
            return Err(Error::Status(Status::InvalidState));
        }
        match verdict {
            Ok(_) => {
                self.configuration = Some(configuration.handle());
                Ok(())
            },
            Err(status) => Err(Error::Status(status)),
        }
    }

    /// Starts the connection towards `server_name:port`: `verdict` is what the
    /// engine answered. See [`start_refusal`] for what is refused before the
    /// engine is asked; a refusal by the engine fails with the engine's
    /// status. Every failure leaves the connection as it was: no handshake is
    /// under way and no event is owed.
    pub fn start(
        &mut self,
        configuration: &Configuration,
        server_name: &str,
        port: u16,
        verdict: Result<(), Status>,
    ) -> (result: Result<(), Error>)
        ensures
            match start_refusal(old(self)@, configuration@, server_name@) {
                Some(status) => result == Err::<(), Error>(Error::Status(status)) && final(self)@
                    == old(self)@,
                None => match verdict {
                    Ok(_) => result == Ok::<(), Error>(()) && Some(final(self)@) == step(
                        old(self)@,
                        ConnectionStep::Start { configuration: configuration@.raw },
                    ),
                    Err(status) => result == Err::<(), Error>(Error::Status(status))
                        && final(self)@ == old(self)@,
                },
            },
    {
        match self.phase {
            ConnectionPhase::Created => {},
            _ => {
                return Err(Error::Status(Status::InvalidState));
            },
        }
        if !configuration.is_loaded() {
            return Err(Error::Status(Status::InvalidState));
        }
        if server_name.is_empty() {
            return Err(Error::Status(Status::InvalidParameter));
        }
        match verdict {
            Ok(_) => {
                self.phase = ConnectionPhase::Connecting;
                self.configuration = Some(configuration.handle());
                Ok(())
            },
            Err(status) => Err(Error::Status(status)),
        }
    }

    /// Asks for the connection to be shut down. The request is asynchronous
    /// and returns nothing: the shutdown is complete when `ShutdownComplete`
    /// arrives. On a connection that the engine does not drive the call does
    /// nothing.
    pub fn shutdown(&mut self, flags: ConnectionShutdownFlags, error_code: u64)
        ensures
            Some(final(self)@) == step(old(self)@, ConnectionStep::Shutdown),
    {
        if self.is_driven() {
            self.shutdown_requested = true;
        }
    }

    /// Where the connection is in its life.
    pub fn phase(&self) -> (phase: ConnectionPhase)
        ensures
            phase == self@.phase,
    {
        self.phase
    }

    /// The handler bound to the connection.
    pub fn handler(&self) -> (handler: Option<CallbackHandler>)
        ensures
            handler == self@.handler,
    {
        self.handler
    }

    /// The registration that the connection belongs to.
    pub fn registration_handle(&self) -> (registration: RawHandle)
        ensures
            registration == self@.registration,
    {
        self.registration
    }

    /// The configuration that the connection uses.
    pub fn configuration(&self) -> (configuration: Option<RawHandle>)
        ensures
            configuration == self@.configuration,
    {
        self.configuration
    }

    /// Whether a shutdown has been asked for.
    pub fn shutdown_requested(&self) -> (b: bool)
        ensures
            b == self@.shutdown_requested,
    {
        self.shutdown_requested
    }

    /// Takes in one event of the engine and says what the handler is to be
    /// shown. An event that is out of order for the connection (see [`step`])
    /// is refused with `InvalidState` and changes nothing.
    pub fn on_event<'a>(&mut self, signal: ConnectionSignal<'a>) -> (result: Result<
        ConnectionEvent<'a>,
        Error,
    >)
        ensures
            match step(old(self)@, signal_step(signal)) {
                Some(next) => {
                    &&& final(self)@ == next
                    &&& result matches Ok(event)
                    &&& delivers(old(self)@, signal, event)
                },
                None => {
                    &&& final(self)@ == old(self)@
                    &&& result matches Err(error)
                    &&& error == Error::Status(Status::InvalidState)
                },
            },
    {
        let refused = Err(Error::Status(Status::InvalidState));
        if self.handler.is_none() {
            return refused;
        }
        match signal {
            ConnectionSignal::Connected { session_resumed, negotiated_alpn } => {
                match self.phase {
                    ConnectionPhase::Connecting => {},
                    _ => {
                        return refused;
                    },
                }
                if self.configuration.is_none() {
                    return refused;
                }
                self.phase = ConnectionPhase::Connected;
                Ok(ConnectionEvent::Connected { session_resumed, negotiated_alpn })
            },
            ConnectionSignal::PeerStreamStarted { stream, id, flags } => {
                match self.phase {
                    ConnectionPhase::Connected => {},
                    _ => {
                        return refused;
                    },
                }
                let announced = StreamRef::started_by_peer(self.raw, stream, id);
                Ok(ConnectionEvent::PeerStreamStarted { stream: announced, flags })
            },
            ConnectionSignal::ShutdownComplete {
                handshake_completed,
                peer_acknowledged_shutdown,
                app_close_in_progress,
            } => {
                if !self.is_driven() {
                    return refused;
                }
                self.phase = ConnectionPhase::Closed;
                Ok(
                    ConnectionEvent::ShutdownComplete {
                        handshake_completed,
                        peer_acknowledged_shutdown,
                        app_close_in_progress,
                    },
                )
            },
        }
    }

    /// Takes in what the handler returned for an event and says what goes
    /// back to the engine. A failure is not retried: it marks the connection
    /// for teardown, and the terminal event is still owed.
    pub fn complete_event(&mut self, result: Result<(), Status>) -> (outcome: CallbackOutcome)
        ensures
            outcome == outcome_of(result),
            match result {
                Ok(_) => final(self)@ == old(self)@,
                Err(_) => Some(final(self)@) == step(old(self)@, ConnectionStep::Break),
            },
    {
        match result {
            Ok(_) => CallbackOutcome::Continue,
            Err(status) => {
                self.broken = true;
                CallbackOutcome::Abort(status)
            },
        }
    }

    /// Settles a stream that the peer opened, once the handler of
    /// `PeerStreamStarted` has returned `result`. Where the handler failed the
    /// stream is dropped with that failure. Where it bound no handler to the
    /// stream the stream is unusable and is dropped with `InvalidState`, and a
    /// stream of another connection with `InvalidParameter`. Otherwise the
    /// stream goes on, driven by the engine.
    pub fn accept_stream(&self, stream: StreamRef, result: Result<(), Status>) -> (accepted: Result<
        Detached<StreamRef>,
        Error,
    >)
        ensures
            match result {
                Err(status) => accepted == Err::<Detached<StreamRef>, Error>(Error::Handler(status)),
                Ok(_) => if stream@.connection != self@.raw {
                    accepted == Err::<Detached<StreamRef>, Error>(
                        Error::Status(Status::InvalidParameter),
                    )
                } else if stream@.handler is None {
                    accepted == Err::<Detached<StreamRef>, Error>(
                        Error::Status(Status::InvalidState),
                    )
                } else {
                    accepted matches Ok(detached) && detached@ == stream
                },
            },
    {
        match result {
            Err(status) => Err(Error::Handler(status)),
            Ok(_) => {
                if stream.connection() != self.raw {
                    Err(Error::Status(Status::InvalidParameter))
                } else if stream.handler().is_none() {
                    Err(Error::Status(Status::InvalidState))
                } else {
                    Ok(Detached::new(stream))
                }
            },
        }
    }
}

impl Owned<ConnectionRef> {
    /// Opens a connection in `registration`: `native` is what the engine
    /// answered to the request to create one. Where the engine could not, the
    /// call fails with the engine's status, as a failure to initialise.
    pub fn open(
        registration: &mut Registration,
        handler: CallbackHandler,
        native: Result<RawHandle, Status>,
    ) -> (result: Result<Connection, Error>)
        ensures
            final(registration).raw() == old(registration).raw(),
            match native {
                Ok(raw) => if old(registration).children() < u64::MAX {
                    &&& result matches Ok(connection)
                    &&& connection@@ == (ConnectionModel {
                        raw,
                        registration: old(registration).raw(),
                        handler: Some(handler),
                        configuration: None,
                        phase: ConnectionPhase::Created,
                        shutdown_requested: false,
                        broken: false,
                    })
                    &&& final(registration).children() == old(registration).children() + 1
                } else {
                    &&& result == Err::<Connection, Error>(Error::EngineInit(Status::OutOfMemory))
                    &&& final(registration).children() == old(registration).children()
                },
                Err(status) => {
                    &&& result == Err::<Connection, Error>(Error::EngineInit(status))
                    &&& final(registration).children() == old(registration).children()
                },
            },
    {
        let raw = match native {
            Ok(raw) => raw,
            Err(status) => {
                return Err(Error::EngineInit(status));
            },
        };
        if !registration.adopt() {
            return Err(Error::EngineInit(Status::OutOfMemory));
        }
        Ok(
            Owned::new(
                ConnectionRef {
                    raw,
                    registration: registration.handle(),
                    handler: Some(handler),
                    configuration: None,
                    phase: ConnectionPhase::Created,
                    shutdown_requested: false,
                    broken: false,
                },
            ),
        )
    }

    /// Closes the connection and takes it off the count of `registration`: the
    /// handle that comes back is the one to close at the engine. A connection
    /// is closed once, and only when no event is owed for it: before it was
    /// started, or after `ShutdownComplete`; elsewhere it comes back as it
    /// was, with `InvalidState`. A registration that does not count the
    /// connection is refused with `InvalidParameter`.
    pub fn close(self, registration: &mut Registration) -> (result: Result<
        RawHandle,
        (Error, Connection),
    >)
        ensures
            final(registration).raw() == old(registration).raw(),
            if driven(self@@) {
                &&& result == Err::<RawHandle, (Error, Connection)>(
                    (Error::Status(Status::InvalidState), self),
                )
                &&& final(registration).children() == old(registration).children()
            } else if !old(registration).counts(self@@.registration) {
                &&& result == Err::<RawHandle, (Error, Connection)>(
                    (Error::Status(Status::InvalidParameter), self),
                )
                &&& final(registration).children() == old(registration).children()
            } else {
                &&& result == Ok::<RawHandle, (Error, Connection)>(self@@.raw)
                &&& final(registration).children() == old(registration).children() - 1
            },
    {
        if self.get().is_driven() {
            return Err((Error::Status(Status::InvalidState), self));
        }
        if !registration.disown(self.get().registration) {
            return Err((Error::Status(Status::InvalidParameter), self));
        }
        self.release()
    }
}

} // verus!
