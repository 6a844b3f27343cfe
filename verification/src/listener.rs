//! Listeners: where connections of peers come in.
//!
//! A listener goes from `Created` to `Started` to `Stopping` to `Stopped`.
//! Stopping is asynchronous: each `stop` of a listener that was started is
//! answered by one `StopComplete`, also where the listener has stopped
//! already. What may happen to a listener, and when, is written down once, in
//! [`step`].

use crate::buffer::{views, BufferRef};
use crate::config::Addr;
use crate::connection::{ConnectionModel, ConnectionPhase, ConnectionRef};
use crate::handle::{CallbackHandler, Detached, Native, Owned, RawHandle};
use crate::registration::Registration;
use crate::status::{outcome_of, CallbackOutcome, Error, Status};
use vstd::prelude::*;
use vstd::slice::slice_to_vec;

verus! {

/// Where a listener is in its life.
#[derive(Clone, Copy, Debug, PartialEq, Eq, Structural)]
pub enum ListenerPhase {
    /// Opened, not started.
    Created,
    /// Accepting connections.
    Started,
    /// Asked to stop; `StopComplete` is owed.
    Stopping,
    /// `StopComplete` was delivered.
    Stopped,
}

/// What a listener is, to the contracts.
pub struct ListenerModel {
    /// The engine's name for the listener.
    pub raw: RawHandle,
    /// The registration that it was opened in.
    pub registration: RawHandle,
    /// The handler bound to the listener.
    pub handler: CallbackHandler,
    /// Where the listener is in its life.
    pub phase: ListenerPhase,
    /// How many `StopComplete` events are owed.
    pub owed: nat,
    /// The protocol identifiers that it was started with.
    pub alpn: Seq<Seq<u8>>,
    /// The address that it was bound to, if one was given.
    pub local_address: Option<Addr>,
    /// A handler failed: the listener is to be torn down.
    pub broken: bool,
}

/// One thing that happens to a listener: a call of the wrapper that took
/// effect, or an event of the engine.
pub enum ListenerStep {
    /// `start` was accepted.
    Start { alpn: Seq<Seq<u8>>, local_address: Option<Addr> },
    /// `stop` was called.
    Stop,
    /// A handler returned a failure.
    Break,
    /// Event: a peer has connected.
    NewConnection,
    /// Event: a stop has completed.
    StopComplete,
}

/// The engine drives the listener: events are owed.
pub open spec fn driven(m: ListenerModel) -> bool {
    m.phase is Started || m.owed > 0
}

/// Every stop has been answered and the listener has stopped.
pub open spec fn terminal(m: ListenerModel) -> bool {
    m.phase is Stopped && m.owed == 0
}

/// One more `StopComplete` owed. The count stays where it is at the end of its
/// range.
pub open spec fn one_more(owed: nat) -> nat {
    if owed < u64::MAX {
        owed + 1
    } else {
        owed
    }
}

/// The listener after `s`, or `None` where `s` cannot happen to `m`.
pub open spec fn step(m: ListenerModel, s: ListenerStep) -> Option<ListenerModel> {
    match s {
        ListenerStep::Start { alpn, local_address } => if m.phase is Created {
            Some(ListenerModel { phase: ListenerPhase::Started, alpn, local_address, ..m })
        } else {
            None
        },
        ListenerStep::Stop => match m.phase {
            ListenerPhase::Created => Some(m),
            ListenerPhase::Started => Some(
                ListenerModel { phase: ListenerPhase::Stopping, owed: one_more(m.owed), ..m },
            ),
            _ => Some(ListenerModel { owed: one_more(m.owed), ..m }),
        },
        ListenerStep::Break => Some(ListenerModel { broken: true, ..m }),
        ListenerStep::NewConnection => if m.phase is Started {
            Some(m)
        } else {
            None
        },
        ListenerStep::StopComplete => if m.owed > 0 {
            Some(
                ListenerModel { phase: ListenerPhase::Stopped, owed: (m.owed - 1) as nat, ..m },
            )
        } else {
            None
        },
    }
}

/// **Stop never fails.** Whatever state a listener is in, `stop` is accepted.
pub proof fn lemma_stop_is_accepted(m: ListenerModel)
    ensures
        step(m, ListenerStep::Stop) is Some,
{
}

/// **Stopping again.** A stop of a listener that has stopped already leaves it
/// stopped and makes the engine owe one more `StopComplete`. Until that
/// arrives the listener cannot be closed; when it has arrived the listener is
/// exactly as it was before the second stop, so that it is closed as it would
/// have been, once.
pub proof fn lemma_stop_again(m: ListenerModel)
    requires
        m.phase is Stopped,
        m.owed < u64::MAX,
    ensures
        step(m, ListenerStep::Stop) matches Some(again) && {
            &&& again.phase is Stopped
            &&& again.owed == m.owed + 1
            &&& driven(again)
            &&& !terminal(again)
            &&& step(again, ListenerStep::StopComplete) == Some(m)
        },
{
}

/// **One answer for each stop.** On a listener that was started, a stop
/// followed by its `StopComplete` leaves the listener stopped, owing what it
/// owed before.
pub proof fn lemma_stop_is_answered(m: ListenerModel)
    requires
        !(m.phase is Created),
        m.owed < u64::MAX,
    ensures
        step(m, ListenerStep::Stop) matches Some(stopping) && step(
            stopping,
            ListenerStep::StopComplete,
        ) == Some(ListenerModel { phase: ListenerPhase::Stopped, ..m }),
{
}

/// What the engine tells of a connection that came in.
#[derive(Clone, Copy, Debug)]
pub struct NewConnectionInfo<'a> {
    /// The protocol identifier that was negotiated.
    pub negotiated_alpn: BufferRef<'a>,
    /// The peer's address.
    pub remote_address: Addr,
}

/// An event as the engine delivers it.
#[derive(Debug)]
pub enum ListenerSignal<'a> {
    /// A peer has connected: `connection` is the connection that the engine
    /// made for it.
    NewConnection { info: NewConnectionInfo<'a>, connection: RawHandle },
    /// A stop has completed.
    StopComplete { app_close_in_progress: bool },
}

/// An event as a handler sees it.
#[derive(Debug)]
pub enum ListenerEvent<'a> {
    /// A peer has connected. The connection has neither handler nor
    /// configuration: the handler of the listener gives it both before it
    /// returns, or the connection is not accepted.
    NewConnection { info: NewConnectionInfo<'a>, connection: ConnectionRef },
    /// A stop has completed.
    StopComplete { app_close_in_progress: bool },
}

/// The step that a signal stands for.
pub open spec fn signal_step(signal: ListenerSignal<'_>) -> ListenerStep {
    match signal {
        ListenerSignal::NewConnection { .. } => ListenerStep::NewConnection,
        ListenerSignal::StopComplete { .. } => ListenerStep::StopComplete,
    }
}

/// `event` is what a handler is shown for `signal` on a listener that was `m`.
pub open spec fn delivers(m: ListenerModel, signal: ListenerSignal<'_>, event: ListenerEvent<'_>) -> bool {
    match signal {
        ListenerSignal::NewConnection { info, connection } => {
            &&& event matches ListenerEvent::NewConnection {
                info: event_info,
                connection: announced,
            }
            &&& event_info == info
            &&& announced@ == (ConnectionModel {
                raw: connection,
                registration: m.registration,
                handler: None,
                configuration: None,
                phase: ConnectionPhase::Connecting,
                shutdown_requested: false,
                broken: false,
            })
        },
        ListenerSignal::StopComplete { app_close_in_progress } => event
            == (ListenerEvent::StopComplete { app_close_in_progress }),
    }
}

/// Why a connection that came in on a listener that is `m` is not accepted,
/// once the handler has returned `result`, if it is not: the handler failed;
/// or the connection or the registration is not the listener's; or the handler
/// left the connection without handler or without configuration, so that
/// nothing could drive it; or the registration counts no further object.
pub open spec fn accept_refusal(
    m: ListenerModel,
    connection: ConnectionModel,
    result: Result<(), Status>,
    registration: &Registration,
) -> Option<Error> {
    match result {
        Err(status) => Some(Error::Handler(status)),
        Ok(_) => if connection.registration != m.registration || registration.raw()
            != m.registration {
            Some(Error::Status(Status::InvalidParameter))
        } else if connection.handler is None || connection.configuration is None {
            Some(Error::Status(Status::InvalidState))
        } else if registration.children() >= u64::MAX {
            Some(Error::EngineInit(Status::OutOfMemory))
        } else {
            None
        },
    }
}

/// The state of one listener: what a handler is lent for the length of a
/// callback, and what [`Listener`] owns.
#[derive(Debug)]
pub struct ListenerRef {
    raw: RawHandle,
    registration: RawHandle,
    handler: CallbackHandler,
    phase: ListenerPhase,
    owed: u64,
    alpn: Vec<Vec<u8>>,
    local_address: Option<Addr>,
    broken: bool,
}

/// A listener that the wrapper answers for.
pub type Listener = Owned<ListenerRef>;

impl View for ListenerRef {
    type V = ListenerModel;

    closed spec fn view(&self) -> ListenerModel {
        ListenerModel {
            raw: self.raw,
            registration: self.registration,
            handler: self.handler,
            phase: self.phase,
            owed: self.owed as nat,
            alpn: Seq::new(self.alpn@.len(), |i: int| self.alpn@[i]@),
            local_address: self.local_address,
            broken: self.broken,
        }
    }
}

impl Native for ListenerRef {
    open spec fn wf(&self) -> bool {
        true
    }

    open spec fn raw(&self) -> RawHandle {
        self@.raw
    }

    open spec fn driven(&self) -> bool {
        driven(self@)
    }

    open spec fn terminal(&self) -> bool {
        terminal(self@)
    }

    fn handle(&self) -> (raw: RawHandle) {
        self.raw
    }

    fn is_driven(&self) -> (b: bool) {
        let started = match self.phase {
            ListenerPhase::Started => true,
            _ => false,
        };
        started || self.owed > 0
    }

    fn is_terminal(&self) -> (b: bool) {
        let stopped = match self.phase {
            ListenerPhase::Stopped => true,
            _ => false,
        };
        stopped && self.owed == 0
    }
}

impl ListenerRef {
    /// Starts the listener for the protocols `alpn`, bound to `local_address`
    /// if one is given: `verdict` is what the engine answered. A listener is
    /// started once, from `Created`; elsewhere the call fails with
    /// `InvalidState`, and a refusal by the engine fails with the engine's
    /// status. Either failure leaves the listener as it was.
    pub fn start(
        &mut self,
        alpn: &[BufferRef<'_>],
        local_address: Option<&Addr>,
        verdict: Result<(), Status>,
    ) -> (result: Result<(), Error>)
        ensures
            match step(
                old(self)@,
                ListenerStep::Start {
                    alpn: views(alpn@),
                    local_address: match local_address {
                        Some(address) => Some(*address),
                        None => None,
                    },
                },
            ) {
                None => result == Err::<(), Error>(Error::Status(Status::InvalidState))
                    && final(self)@ == old(self)@,
                Some(started) => match verdict {
                    Ok(_) => result == Ok::<(), Error>(()) && final(self)@ == started,
                    Err(status) => result == Err::<(), Error>(Error::Status(status))
                        && final(self)@ == old(self)@,
                },
            },
    {
        match self.phase {
            ListenerPhase::Created => {},
            _ => {
                return Err(Error::Status(Status::InvalidState));
            },
        }
        match verdict {
            Err(status) => Err(Error::Status(status)),
            Ok(_) => {
                let mut copied: Vec<Vec<u8>> = Vec::new();
                let mut i: usize = 0;
                while i < alpn.len()
                    invariant
                        i <= alpn.len(),
                        copied@.len() == i,
                        forall|k: int| 0 <= k < i ==> (#[trigger] copied@[k])@ == alpn@[k]@,
                    decreases alpn.len() - i,
                {
                    copied.push(slice_to_vec(alpn[i].as_bytes()));
                    i += 1;
                }
                self.alpn = copied;
                self.local_address = match local_address {
                    Some(address) => Some(*address),
                    None => None,
                };
                self.phase = ListenerPhase::Started;
                assert(self@.alpn =~= views(alpn@));
                Ok(())
            },
        }
    }

    /// Asks the listener to stop. The call never fails and may be repeated:
    /// on a listener that was started, each call is answered by one
    /// `StopComplete`, also after the listener has stopped. On a listener that
    /// was never started there is nothing to stop and nothing is owed.
    pub fn stop(&mut self)
        ensures
            Some(final(self)@) == step(old(self)@, ListenerStep::Stop),
    {
        match self.phase {
            ListenerPhase::Created => {
                return ;
            },
            ListenerPhase::Started => {
                self.phase = ListenerPhase::Stopping;
            },
            _ => {},
        }
        if self.owed < u64::MAX {
            self.owed = self.owed + 1;
        }
    }

    /// Where the listener is in its life.
    pub fn phase(&self) -> (phase: ListenerPhase)
        ensures
            phase == self@.phase,
    {
        self.phase
    }

    /// The handler bound to the listener.
    pub fn handler(&self) -> (handler: CallbackHandler)
        ensures
            handler == self@.handler,
    {
        self.handler
    }

    /// How many `StopComplete` events are owed.
    pub fn stops_owed(&self) -> (owed: u64)
        ensures
            owed == self@.owed,
    {
        self.owed
    }

    /// The address that the listener was bound to.
    pub fn local_address(&self) -> (address: Option<Addr>)
        ensures
            address == self@.local_address,
    {
        self.local_address
    }

    /// Takes in one event of the engine and says what the handler is to be
    /// shown. An event that is out of order for the listener (see [`step`]) is
    /// refused with `InvalidState` and changes nothing.
    pub fn on_event<'a>(&mut self, signal: ListenerSignal<'a>) -> (result: Result<
        ListenerEvent<'a>,
        Error,
    >)
        ensures
            match step(old(self)@, signal_step(signal)) {
                Some(next) => {
                    &&& final(self)@ == next
                    &&& result matches Ok(event)
                    &&& delivers(old(self)@, signal, event)
                },
                None => {
                    &&& final(self)@ == old(self)@
                    &&& result matches Err(error)
                    &&& error == Error::Status(Status::InvalidState)
                },
            },
    {
        match signal {
            ListenerSignal::NewConnection { info, connection } => {
                match self.phase {
                    ListenerPhase::Started => {},
                    _ => {
                        return Err(Error::Status(Status::InvalidState));
                    },
                }
                let announced = ConnectionRef::created_by_peer(self.registration, connection);
                Ok(ListenerEvent::NewConnection { info, connection: announced })
            },
            ListenerSignal::StopComplete { app_close_in_progress } => {
                if self.owed == 0 {
                    return Err(Error::Status(Status::InvalidState));
                }
                self.owed = self.owed - 1;
                self.phase = ListenerPhase::Stopped;
                Ok(ListenerEvent::StopComplete { app_close_in_progress })
            },
        }
    }

    /// Takes in what the handler returned for an event and says what goes
    /// back to the engine. A failure is not retried: it marks the listener for
    /// teardown.
    pub fn complete_event(&mut self, result: Result<(), Status>) -> (outcome: CallbackOutcome)
        ensures
            outcome == outcome_of(result),
            match result {
                Ok(_) => final(self)@ == old(self)@,
                Err(_) => Some(final(self)@) == step(old(self)@, ListenerStep::Break),
            },
    {
        match result {
            Ok(_) => CallbackOutcome::Continue,
            Err(status) => {
                self.broken = true;
                CallbackOutcome::Abort(status)
            },
        }
    }

    /// Settles a connection that came in, once the handler of `NewConnection`
    /// has returned `result`. See [`accept_refusal`] for when the connection
    /// is not accepted; it is then dropped and the registration counts what it
    /// counted. Otherwise the connection goes on, driven by the engine, and
    /// the registration counts it.
    pub fn accept(
        &self,
        connection: ConnectionRef,
        result: Result<(), Status>,
        registration: &mut Registration,
    ) -> (accepted: Result<Detached<ConnectionRef>, Error>)
        ensures
            final(registration).raw() == old(registration).raw(),
            match accept_refusal(self@, connection@, result, old(registration)) {
                Some(error) => {
                    &&& accepted == Err::<Detached<ConnectionRef>, Error>(error)
                    &&& final(registration).children() == old(registration).children()
                },
                None => {
                    &&& accepted matches Ok(detached)
                    &&& detached@ == connection
                    &&& final(registration).children() == old(registration).children() + 1
                },
            },
    {
        match result {
            Err(status) => {
                return Err(Error::Handler(status));
            },
            Ok(_) => {},
        }
        if connection.registration_handle() != self.registration || registration.handle()
            != self.registration {
            return Err(Error::Status(Status::InvalidParameter));
        }
        if connection.handler().is_none() || connection.configuration().is_none() {
            return Err(Error::Status(Status::InvalidState));
        }
        if !registration.adopt() {
            return Err(Error::EngineInit(Status::OutOfMemory));
        }
        Ok(Detached::new(connection))
    }
}

impl Owned<ListenerRef> {
    /// Opens a listener in `registration`: `native` is what the engine
    /// answered to the request to create one. Where the engine could not, the
    /// call fails with the engine's status, as a failure to initialise.
    pub fn open(
        registration: &mut Registration,
        handler: CallbackHandler,
        native: Result<RawHandle, Status>,
    ) -> (result: Result<Listener, Error>)
        ensures
            final(registration).raw() == old(registration).raw(),
            match native {
                Ok(raw) => if old(registration).children() < u64::MAX {
                    &&& result matches Ok(listener)
                    &&& listener@@ == (ListenerModel {
                        raw,
                        registration: old(registration).raw(),
                        handler,
                        phase: ListenerPhase::Created,
                        owed: 0,
                        alpn: Seq::empty(),
                        local_address: None,
                        broken: false,
                    })
                    &&& final(registration).children() == old(registration).children() + 1
                } else {
                    &&& result == Err::<Listener, Error>(Error::EngineInit(Status::OutOfMemory))
                    &&& final(registration).children() == old(registration).children()
                },
                Err(status) => {
                    &&& result == Err::<Listener, Error>(Error::EngineInit(status))
                    &&& final(registration).children() == old(registration).children()
                },
            },
    {
        let raw = match native {
            Ok(raw) => raw,
            Err(status) => {
                return Err(Error::EngineInit(status));
            },
        };
        if !registration.adopt() {
            return Err(Error::EngineInit(Status::OutOfMemory));
        }
        let listener = ListenerRef {
            raw,
            registration: registration.handle(),
            handler,
            phase: ListenerPhase::Created,
            owed: 0,
            alpn: Vec::new(),
            local_address: None,
            broken: false,
        };
        assert(listener@.alpn =~= Seq::<Seq<u8>>::empty());
        Ok(Owned::new(listener))
    }

    /// Closes the listener and takes it off the count of `registration`: the
    /// handle that comes back is the one to close at the engine. A listener is
    /// closed once, and only when no event is owed for it: before it was
    /// started, or after every stop has been answered; elsewhere it comes back
    /// as it was, with `InvalidState`. A registration that does not count the
    /// listener is refused with `InvalidParameter`.
    pub fn close(self, registration: &mut Registration) -> (result: Result<
        RawHandle,
        (Error, Listener),
    >)
        ensures
            final(registration).raw() == old(registration).raw(),
            if driven(self@@) {
                &&& result == Err::<RawHandle, (Error, Listener)>(
                    (Error::Status(Status::InvalidState), self),
                )
                &&& final(registration).children() == old(registration).children()
            } else if !old(registration).counts(self@@.registration) {
                &&& result == Err::<RawHandle, (Error, Listener)>(
                    (Error::Status(Status::InvalidParameter), self),
                )
                &&& final(registration).children() == old(registration).children()
            } else {
                &&& result == Ok::<RawHandle, (Error, Listener)>(self@@.raw)
                &&& final(registration).children() == old(registration).children() - 1
            },
    {
        if self.get().is_driven() {
            return Err((Error::Status(Status::InvalidState), self));
        }
        if !registration.disown(self.get().registration) {
            return Err((Error::Status(Status::InvalidParameter), self));
        }
        self.release()
    }
}

} // verus!
