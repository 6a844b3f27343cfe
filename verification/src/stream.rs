//! Streams: one data channel within a connection.
//!
//! A stream is opened on a connected connection, started, and then driven by
//! the engine until the engine delivers `ShutdownComplete`. What may happen to
//! a stream, and when, is written down once, in [`step`]; every function here
//! that changes a stream is one step of it.

use crate::buffer::{concat, views, BufferRef};
use crate::connection::{ConnectionPhase, ConnectionRef};
use crate::handle::{CallbackHandler, Native, Owned, RawHandle};
use crate::send::{SendContext, SendTable, SendToken};
use crate::status::{outcome_of, CallbackOutcome, Error, Status};
use vstd::prelude::*;

verus! {

/// Flags of `Stream::open`.
#[derive(Clone, Copy, Debug, PartialEq, Eq, Structural)]
pub struct StreamOpenFlags {
    /// The stream carries data in one direction only.
    pub unidirectional: bool,
    /// The stream may send early data.
    pub zero_rtt: bool,
}

impl StreamOpenFlags {
    /// No flag set.
    pub fn none() -> (flags: Self)
        ensures
            flags == (StreamOpenFlags { unidirectional: false, zero_rtt: false }),
    {
        StreamOpenFlags { unidirectional: false, zero_rtt: false }
    }
}

/// Flags of `start`.
#[derive(Clone, Copy, Debug, PartialEq, Eq, Structural)]
pub struct StreamStartFlags {
    /// Tell the peer of the stream at once, before any data is sent.
    pub immediate: bool,
    /// Shut the stream down if it cannot be started.
    pub shutdown_on_fail: bool,
}

impl StreamStartFlags {
    /// No flag set.
    pub fn none() -> (flags: Self)
        ensures
            flags == (StreamStartFlags { immediate: false, shutdown_on_fail: false }),
    {
        StreamStartFlags { immediate: false, shutdown_on_fail: false }
    }
}

/// Flags of `send`.
#[derive(Clone, Copy, Debug, PartialEq, Eq, Structural)]
pub struct SendFlags {
    /// This send is the last: no more local data follows.
    pub fin: bool,
    /// The data may go out as early data.
    pub allow_zero_rtt: bool,
}

impl SendFlags {
    /// No flag set.
    pub fn none() -> (flags: Self)
        ensures
            flags == (SendFlags { fin: false, allow_zero_rtt: false }),
    {
        SendFlags { fin: false, allow_zero_rtt: false }
    }

    /// Only `fin`.
    pub fn fin() -> (flags: Self)
        ensures
            flags == (SendFlags { fin: true, allow_zero_rtt: false }),
    {
        SendFlags { fin: true, allow_zero_rtt: false }
    }
}

/// Flags of a receive event.
#[derive(Clone, Copy, Debug, PartialEq, Eq, Structural)]
pub struct ReceiveFlags {
    /// The data is the peer's last.
    pub fin: bool,
    /// The data arrived as early data.
    pub zero_rtt: bool,
}

/// Flags of `shutdown`.
#[derive(Clone, Copy, Debug, PartialEq, Eq, Structural)]
pub struct StreamShutdownFlags {
    /// Close the send direction once everything queued has gone out.
    pub graceful: bool,
    /// Abandon the send direction at once.
    pub abort_send: bool,
    /// Abandon the receive direction at once.
    pub abort_receive: bool,
}

impl StreamShutdownFlags {
    /// A graceful close of the send direction.
    pub fn graceful() -> (flags: Self)
        ensures
            flags == (StreamShutdownFlags {
                graceful: true,
                abort_send: false,
                abort_receive: false,
            }),
    {
        StreamShutdownFlags { graceful: true, abort_send: false, abort_receive: false }
    }

    /// An abortive shutdown of both directions.
    pub fn abort() -> (flags: Self)
        ensures
            flags == (StreamShutdownFlags { graceful: false, abort_send: true, abort_receive: true }),
    {
        StreamShutdownFlags { graceful: false, abort_send: true, abort_receive: true }
    }

    /// Whether the shutdown ends the send direction.
    pub open spec fn closes_send(self) -> bool {
        self.graceful || self.abort_send
    }
}

/// Where a stream is in its life.
#[derive(Clone, Copy, Debug, PartialEq, Eq, Structural)]
pub enum StreamPhase {
    /// Opened, not started: the engine does not drive it yet.
    Created,
    /// Started; `StartComplete` is owed.
    Starting,
    /// `StartComplete` reported success, or the peer started the stream.
    Active,
    /// `StartComplete` reported failure; only cleanup is owed.
    Failed,
    /// `ShutdownComplete` was delivered: no event follows.
    Closed,
}

/// What a stream is, to the contracts.
pub struct StreamModel {
    /// The engine's name for the stream.
    pub raw: RawHandle,
    /// The connection that the stream belongs to.
    pub connection: RawHandle,
    /// The handler bound to the stream, if any.
    pub handler: Option<CallbackHandler>,
    /// Where the stream is in its life.
    pub phase: StreamPhase,
    /// The stream id, once it is assigned.
    pub id: Option<u64>,
    /// The peer has finished sending.
    pub peer_fin: bool,
    /// The local send direction is closed: by a send with `fin` or by a
    /// shutdown.
    pub fin_sent: bool,
    /// A send was refused by the engine or a handler failed: the stream is to
    /// be torn down and takes no more sends.
    pub broken: bool,
    /// The contexts of the sends in flight, by token.
    pub pending: Map<SendToken, Seq<Seq<u8>>>,
    /// Every token handed out so far.
    pub issued: Set<SendToken>,
}

/// One thing that happens to a stream: a call of the wrapper that took effect,
/// or an event of the engine.
pub enum StreamStep {
    /// A handler was bound.
    Bind { handler: CallbackHandler },
    /// `start` was accepted.
    Start,
    /// `send` was accepted under `token`.
    Send { token: SendToken, context: Seq<Seq<u8>>, fin: bool },
    /// The engine refused a send, or a handler returned a failure.
    Break,
    /// `shutdown` was accepted.
    Shutdown { closes_send: bool },
    /// Event: the start has completed, with or without success.
    StartComplete { ok: bool, id: u64 },
    /// Event: data has arrived.
    Receive,
    /// Event: the engine is done with the send named by `token`.
    SendComplete { token: SendToken },
    /// Event: the peer has finished sending.
    PeerSendShutdown,
    /// Event: the stream is shut down in both directions.
    ShutdownComplete,
}

impl StreamStep {
    /// Whether the step is an event of the engine.
    pub open spec fn is_event(self) -> bool {
        self is StartComplete || self is Receive || self is SendComplete || self is PeerSendShutdown
            || self is ShutdownComplete
    }
}

/// The engine drives the stream: events are owed.
pub open spec fn driven(m: StreamModel) -> bool {
    m.phase is Starting || m.phase is Active || m.phase is Failed
}

/// The stream takes a send.
pub open spec fn can_send(m: StreamModel) -> bool {
    (m.phase is Starting || m.phase is Active) && !m.fin_sent && !m.broken
}

/// Every send that was accepted has been completed.
pub open spec fn no_send_in_flight(m: StreamModel) -> bool {
    forall|token: SendToken| !m.pending.dom().contains(token)
}

/// What a query for the stream's id answers: the id, once one is assigned.
pub open spec fn id_query(m: StreamModel) -> Result<u64, Error> {
    match m.id {
        Some(id) => Ok(id),
        None => Err(Error::Status(Status::InvalidState)),
    }
}

/// The stream after `s`, or `None` where `s` cannot happen to `m`.
pub open spec fn step(m: StreamModel, s: StreamStep) -> Option<StreamModel> {
    match s {
        StreamStep::Bind { handler } => Some(StreamModel { handler: Some(handler), ..m }),
        StreamStep::Start => if m.phase is Created {
            Some(StreamModel { phase: StreamPhase::Starting, ..m })
        } else {
            None
        },
        StreamStep::Send { token, context, fin } => if can_send(m) && !m.issued.contains(token) {
            Some(
                StreamModel {
                    fin_sent: fin,
                    pending: m.pending.insert(token, context),
                    issued: m.issued.insert(token),
                    ..m
                },
            )
        } else {
            None
        },
        StreamStep::Break => Some(StreamModel { broken: true, ..m }),
        StreamStep::Shutdown { closes_send } => if driven(m) {
            Some(StreamModel { fin_sent: m.fin_sent || closes_send, ..m })
        } else {
            None
        },
        StreamStep::StartComplete { ok, id } => if m.handler is Some && m.phase is Starting {
            if ok {
                Some(StreamModel { phase: StreamPhase::Active, id: Some(id), ..m })
            } else {
                Some(StreamModel { phase: StreamPhase::Failed, ..m })
            }
        } else {
            None
        },
        StreamStep::Receive => if m.handler is Some && m.phase is Active && !m.peer_fin {
            Some(m)
        } else {
            None
        },
        StreamStep::SendComplete { token } => if m.handler is Some && (m.phase is Active
            || m.phase is Failed) && m.pending.dom().contains(token) {
            Some(StreamModel { pending: m.pending.remove(token), ..m })
        } else {
            None
        },
        StreamStep::PeerSendShutdown => if m.handler is Some && m.phase is Active && !m.peer_fin {
            Some(StreamModel { peer_fin: true, ..m })
        } else {
            None
        },
        StreamStep::ShutdownComplete => if m.handler is Some && (m.phase is Active
            || m.phase is Failed) && no_send_in_flight(m) {
            Some(StreamModel { phase: StreamPhase::Closed, ..m })
        } else {
            None
        },
    }
}

/// An event as the engine delivers it.
#[derive(Debug)]
pub enum StreamSignal<'a> {
    /// The start has completed.
    StartComplete { status: Result<(), Status>, id: u64, peer_accepted: bool },
    /// Data has arrived. The buffers are lent for the length of the callback.
    Receive { absolute_offset: u64, buffers: &'a [BufferRef<'a>], flags: ReceiveFlags },
    /// The engine is done with a send: `client_context` is the token that the
    /// send was made with.
    SendComplete { cancelled: bool, client_context: u64 },
    /// The peer has finished sending.
    PeerSendShutdown,
    /// The stream is shut down in both directions.
    ShutdownComplete { connection_shutdown: bool },
}

/// An event as a handler sees it.
#[derive(Debug)]
pub enum StreamEvent<'a> {
    /// The start has completed. On success `id` is the stream's id.
    StartComplete { status: Result<(), Status>, id: u64, peer_accepted: bool },
    /// Data has arrived. The buffers are lent for the length of the callback:
    /// what is to be kept is copied out.
    Receive {
        absolute_offset: u64,
        total_buffer_length: u64,
        buffers: &'a [BufferRef<'a>],
        flags: ReceiveFlags,
    },
    /// The engine is done with a send. Its context is handed back: this is the
    /// one place where a context in flight is reclaimed.
    SendComplete { cancelled: bool, context: SendContext },
    /// The peer has finished sending.
    PeerSendShutdown,
    /// The stream is shut down in both directions. It can now be attached and
    /// closed.
    ShutdownComplete { connection_shutdown: bool },
}

/// The step that a signal stands for.
pub open spec fn signal_step(signal: StreamSignal<'_>) -> StreamStep {
    match signal {
        StreamSignal::StartComplete { status, id, peer_accepted } => StreamStep::StartComplete {
            ok: status is Ok,
            id,
        },
        StreamSignal::Receive { .. } => StreamStep::Receive,
        StreamSignal::SendComplete { cancelled, client_context } => StreamStep::SendComplete {
            token: SendToken::spec_from_raw(client_context),
        },
        StreamSignal::PeerSendShutdown => StreamStep::PeerSendShutdown,
        StreamSignal::ShutdownComplete { .. } => StreamStep::ShutdownComplete,
    }
}

/// The stream after a signal, or `None` where the signal is out of order. A
/// receive whose total length does not fit 64 bits is out of order too.
pub open spec fn after_signal(m: StreamModel, signal: StreamSignal<'_>) -> Option<StreamModel> {
    if signal matches StreamSignal::Receive { buffers, .. } && concat(views(buffers@)).len()
        > u64::MAX {
        None
    } else {
        step(m, signal_step(signal))
    }
}

/// `event` is what a handler is shown for `signal` on a stream that was `m`.
pub open spec fn delivers(m: StreamModel, signal: StreamSignal<'_>, event: StreamEvent<'_>) -> bool {
    match signal {
        StreamSignal::StartComplete { status, id, peer_accepted } => event
            == (StreamEvent::StartComplete { status, id, peer_accepted }),
        StreamSignal::Receive { absolute_offset, buffers, flags } => {
            &&& event matches StreamEvent::Receive {
                absolute_offset: offset,
                total_buffer_length: total,
                buffers: lent,
                flags: event_flags,
            }
            &&& offset == absolute_offset
            &&& total == concat(views(buffers@)).len()
            &&& lent@ == buffers@
            &&& event_flags == flags
        },
        StreamSignal::SendComplete { cancelled, client_context } => {
            &&& event matches StreamEvent::SendComplete { cancelled: event_cancelled, context }
            &&& event_cancelled == cancelled
            &&& context@ == m.pending[SendToken::spec_from_raw(client_context)]
        },
        StreamSignal::PeerSendShutdown => event is PeerSendShutdown,
        StreamSignal::ShutdownComplete { connection_shutdown } => event
            == (StreamEvent::ShutdownComplete { connection_shutdown }),
    }
}

/// The length of everything that a run of buffers has in view, if it fits 64
/// bits.
pub fn total_length(buffers: &[BufferRef<'_>]) -> (total: Option<u64>)
    ensures
        match total {
            Some(n) => n == concat(views(buffers@)).len(),
            None => concat(views(buffers@)).len() > u64::MAX,
        },
{
    let mut total: u64 = 0;
    let mut i: usize = 0;
    while i < buffers.len()
        invariant
            i <= buffers.len(),
            total == concat(views(buffers@).take(i as int)).len(),
        decreases buffers.len() - i,
    {
        let length = buffers[i].len();
        proof {
            let all = views(buffers@);
            assert(all.take(i + 1).drop_last() =~= all.take(i as int));
            assert(all.take(i + 1).last() == buffers@[i as int]@);
            lemma_concat_take_grows(all, i + 1, buffers@.len() as int);
        }
        if length as u64 > u64::MAX - total {
            proof {
                assert(views(buffers@).take(buffers@.len() as int) =~= views(buffers@));
            }
            return None;
        }
        total = total + length as u64;
        i += 1;
    }
    proof {
        assert(views(buffers@).take(i as int) =~= views(buffers@));
    }
    Some(total)
}

/// A longer run of parts is not shorter in bytes.
proof fn lemma_concat_take_grows(parts: Seq<Seq<u8>>, i: int, j: int)
    requires
        0 <= i <= j <= parts.len(),
    ensures
        concat(parts.take(i)).len() <= concat(parts.take(j)).len(),
    decreases j - i,
{
    if i < j {
        lemma_concat_take_grows(parts, i, j - 1);
        assert(parts.take(j).drop_last() =~= parts.take(j - 1));
    }
}

/// The state of one stream: what a handler is lent for the length of a
/// callback, and what [`Stream`] owns.
#[derive(Debug)]
pub struct StreamRef {
    raw: RawHandle,
    connection: RawHandle,
    handler: Option<CallbackHandler>,
    phase: StreamPhase,
    id: Option<u64>,
    peer_fin: bool,
    fin_sent: bool,
    broken: bool,
    sends: SendTable,
}

/// A stream that the wrapper answers for.
pub type Stream = Owned<StreamRef>;

impl View for StreamRef {
    type V = StreamModel;

    closed spec fn view(&self) -> StreamModel {
        StreamModel {
            raw: self.raw,
            connection: self.connection,
            handler: self.handler,
            phase: self.phase,
            id: self.id,
            peer_fin: self.peer_fin,
            fin_sent: self.fin_sent,
            broken: self.broken,
            pending: self.sends.pending(),
            issued: self.sends.issued(),
        }
    }
}

impl Native for StreamRef {
    closed spec fn wf(&self) -> bool {
        self.sends.wf()
    }

    open spec fn raw(&self) -> RawHandle {
        self@.raw
    }

    open spec fn driven(&self) -> bool {
        driven(self@)
    }

    open spec fn terminal(&self) -> bool {
        self@.phase is Closed
    }

    fn handle(&self) -> (raw: RawHandle) {
        self.raw
    }

    fn is_driven(&self) -> (b: bool) {
        match self.phase {
            StreamPhase::Starting | StreamPhase::Active | StreamPhase::Failed => true,
            _ => false,
        }
    }

    fn is_terminal(&self) -> (b: bool) {
        match self.phase {
            StreamPhase::Closed => true,
            _ => false,
        }
    }
}

/// A stream as it is right after it came to be: nothing sent, nothing
/// received.
pub open spec fn pristine(m: StreamModel) -> bool {
    &&& m.id is None
    &&& !m.peer_fin
    &&& !m.fin_sent
    &&& !m.broken
    &&& m.pending == Map::<SendToken, Seq<Seq<u8>>>::empty()
    &&& m.issued == Set::<SendToken>::empty()
}

impl StreamRef {
    /// How many more sends the stream can take in before one completes.
    pub closed spec fn spare(&self) -> nat {
        self.sends.spare()
    }

    /// The token that the next accepted send gets, if there is room for one.
    pub closed spec fn upcoming(&self) -> Option<SendToken> {
        self.sends.upcoming()
    }

    /// The state of a stream that the peer started: it is active from the
    /// first, has its id, and has no handler yet.
    pub(crate) fn started_by_peer(connection: RawHandle, raw: RawHandle, id: u64) -> (stream: Self)
        ensures
            stream.wf(),
            stream.spare() > 0,
            stream@ == (StreamModel {
                raw,
                connection,
                handler: None,
                phase: StreamPhase::Active,
                id: Some(id),
                peer_fin: false,
                fin_sent: false,
                broken: false,
                pending: Map::empty(),
                issued: Set::empty(),
            }),
    {
        StreamRef {
            raw,
            connection,
            handler: None,
            phase: StreamPhase::Active,
            id: Some(id),
            peer_fin: false,
            fin_sent: false,
            broken: false,
            sends: SendTable::new(),
        }
    }

    /// Binds `handler` to the stream: it is the one invoked with the stream's
    /// events from now on.
    pub fn set_callback_handler(&mut self, handler: CallbackHandler)
        requires
            old(self).wf(),
        ensures
            final(self).wf(),
            Some(final(self)@) == step(old(self)@, StreamStep::Bind { handler }),
            final(self).spare() == old(self).spare(),
            final(self).upcoming() == old(self).upcoming(),
    {
        self.handler = Some(handler);
    }

    /// Bounds the number of sends in flight to `limit`. The bound is set
    /// before the first send: on a stream that has sent already the call
    /// changes nothing and answers `false`.
    pub fn limit_sends(&mut self, limit: u32) -> (done: bool)
        requires
            old(self).wf(),
        ensures
            final(self).wf(),
            final(self)@ == old(self)@,
            done == (old(self)@.issued == Set::<SendToken>::empty()),
            done ==> final(self).spare() == limit,
            !done ==> final(self).spare() == old(self).spare() && final(self).upcoming() == old(
                self,
            ).upcoming(),
    {
        if self.sends.is_unused() {
            self.sends = SendTable::with_limit(limit);
            true
        } else {
            false
        }
    }

    /// Starts the stream: `verdict` is what the engine answered. A stream is
    /// started once, from `Created`; elsewhere the call fails with
    /// `InvalidState`, and a refusal by the engine fails with the engine's
    /// status. Either failure leaves the stream as it was and owes no event.
    pub fn start(&mut self, flags: StreamStartFlags, verdict: Result<(), Status>) -> (result: Result<
        (),
        Error,
    >)
        requires
            old(self).wf(),
        ensures
            final(self).wf(),
            final(self).spare() == old(self).spare(),
            final(self).upcoming() == old(self).upcoming(),
            match step(old(self)@, StreamStep::Start) {
                None => result == Err::<(), Error>(Error::Status(Status::InvalidState))
                    && final(self)@ == old(self)@,
                Some(started) => match verdict {
                    Ok(_) => result == Ok::<(), Error>(()) && final(self)@ == started,
                    Err(status) => result == Err::<(), Error>(Error::Status(status))
                        && final(self)@ == old(self)@,
                },
            },
    {
        match self.phase {
            StreamPhase::Created => {},
            _ => {
                return Err(Error::Status(Status::InvalidState));
            },
        }
        match verdict {
            Ok(_) => {
                self.phase = StreamPhase::Starting;
                Ok(())
            },
            Err(status) => Err(Error::Status(status)),
        }
    }

    /// Whether the stream takes a send: it is started, its send direction is
    /// open, and it is not marked for teardown.
    pub fn can_send(&self) -> (b: bool)
        ensures
            b == can_send(self@),
    {
        let started = match self.phase {
            StreamPhase::Starting | StreamPhase::Active => true,
            _ => false,
        };
        started && !self.fin_sent && !self.broken
    }

    /// The token that the next accepted send gets: the one to hand to the
    /// engine with that send.
    pub fn next_token(&self) -> (token: Option<SendToken>)
        requires
            self.wf(),
        ensures
            token == self.upcoming(),
            token is Some <==> self.spare() > 0,
            token matches Some(t) ==> !self@.issued.contains(t),
    {
        self.sends.next_token()
    }

    /// Sends `context`: `verdict` is what the engine answered when it was
    /// handed the buffers and the token of [`next_token`](Self::next_token).
    ///
    /// - A stream that takes no send refuses with `InvalidState`.
    /// - A stream with no room for another send in flight refuses with
    ///   `OutOfMemory`.
    /// - Where the engine refused, the send fails with the engine's status and
    ///   the stream is marked for teardown: its write side is in no defined
    ///   state, and the caller is to shut it down abortively.
    /// - Otherwise the context is in flight under the token that comes back,
    ///   until `SendComplete` hands it back. With `fin` the send direction is
    ///   closed.
    ///
    /// On every failure the context comes back to the caller, who never lost
    /// it, and nothing is in flight for it.
    pub fn send(&mut self, context: SendContext, flags: SendFlags, verdict: Result<(), Status>) -> (result:
        Result<SendToken, (Error, SendContext)>)
        requires
            old(self).wf(),
        ensures
            final(self).wf(),
            if !can_send(old(self)@) {
                &&& result == Err::<SendToken, (Error, SendContext)>(
                    (Error::Status(Status::InvalidState), context),
                )
                &&& final(self)@ == old(self)@
                &&& final(self).spare() == old(self).spare()
            } else if old(self).spare() == 0 {
                &&& result == Err::<SendToken, (Error, SendContext)>(
                    (Error::Status(Status::OutOfMemory), context),
                )
                &&& final(self)@ == old(self)@
                &&& final(self).spare() == old(self).spare()
            } else {
                match verdict {
                    Err(status) => {
                        &&& result == Err::<SendToken, (Error, SendContext)>(
                            (Error::Status(status), context),
                        )
                        &&& Some(final(self)@) == step(old(self)@, StreamStep::Break)
                        &&& final(self).spare() == old(self).spare()
                    },
                    Ok(_) => {
                        &&& result matches Ok(token)
                        &&& old(self).upcoming() == Some(token)
                        &&& Some(final(self)@) == step(
                            old(self)@,
                            StreamStep::Send { token, context: context@, fin: flags.fin },
                        )
                        &&& final(self)@.pending.dom().contains(token)
                        &&& final(self)@.pending[token] == context@
                        &&& final(self).spare() == old(self).spare() - 1
                    },
                }
            },
    {
        if !self.can_send() {
            return Err((Error::Status(Status::InvalidState), context));
        }
        if self.sends.spare_slots() == 0 {
            return Err((Error::Status(Status::OutOfMemory), context));
        }
        match verdict {
            Err(status) => {
                self.broken = true;
                Err((Error::Status(status), context))
            },
            Ok(_) => {
                match self.sends.insert(context) {
                    Ok(token) => {
                        self.fin_sent = flags.fin;
                        Ok(token)
                    },
                    Err(context) => Err((Error::Status(Status::OutOfMemory), context)),
                }
            },
        }
    }

    /// The context of a send in flight.
    pub fn send_context(&self, token: SendToken) -> (context: Option<&SendContext>)
        requires
            self.wf(),
        ensures
            context is Some <==> self@.pending.dom().contains(token),
            context matches Some(c) ==> c@ == self@.pending[token],
    {
        self.sends.get(token)
    }

    /// Number of sends in flight.
    pub fn pending_sends(&self) -> (n: usize)
        requires
            self.wf(),
        ensures
            n == self@.pending.len(),
    {
        self.sends.len()
    }

    /// Shuts the stream down: `verdict` is what the engine answered. The
    /// request is asynchronous: the shutdown is complete when
    /// `ShutdownComplete` arrives, not when this call returns. A stream that
    /// the engine does not drive refuses with `InvalidState`. A graceful or
    /// send-aborting shutdown closes the send direction.
    pub fn shutdown(&mut self, flags: StreamShutdownFlags, error_code: u64, verdict: Result<(), Status>) -> (result:
        Result<(), Error>)
        requires
            old(self).wf(),
        ensures
            final(self).wf(),
            final(self).spare() == old(self).spare(),
            final(self).upcoming() == old(self).upcoming(),
            match step(old(self)@, StreamStep::Shutdown { closes_send: flags.closes_send() }) {
                None => result == Err::<(), Error>(Error::Status(Status::InvalidState))
                    && final(self)@ == old(self)@,
                Some(next) => match verdict {
                    Ok(_) => result == Ok::<(), Error>(()) && final(self)@ == next,
                    Err(status) => result == Err::<(), Error>(Error::Status(status))
                        && final(self)@ == old(self)@,
                },
            },
    {
        if !self.is_driven() {
            return Err(Error::Status(Status::InvalidState));
        }
        match verdict {
            Ok(_) => {
                self.fin_sent = self.fin_sent || flags.graceful || flags.abort_send;
                Ok(())
            },
            Err(status) => Err(Error::Status(status)),
        }
    }

    /// The stream's id: the one that `StartComplete` delivered, or, for a
    /// stream that the peer started, the one it was announced with. Before an
    /// id is assigned the query fails with `InvalidState`.
    pub fn get_stream_id(&self) -> (result: Result<u64, Error>)
        ensures
            result == id_query(self@),
    {
        match self.id {
            Some(id) => Ok(id),
            None => Err(Error::Status(Status::InvalidState)),
        }
    }

    /// Where the stream is in its life.
    pub fn phase(&self) -> (phase: StreamPhase)
        ensures
            phase == self@.phase,
    {
        self.phase
    }

    /// The handler bound to the stream.
    pub fn handler(&self) -> (handler: Option<CallbackHandler>)
        ensures
            handler == self@.handler,
    {
        self.handler
    }

    /// The connection that the stream belongs to.
    pub fn connection(&self) -> (connection: RawHandle)
        ensures
            connection == self@.connection,
    {
        self.connection
    }

    /// Takes in one event of the engine and says what the handler is to be
    /// shown. An event that is out of order for the stream (see [`step`]) is
    /// refused with `InvalidState` and changes nothing. `SendComplete` gives
    /// up the context of its send; `ShutdownComplete` is taken only when no
    /// send is in flight any more, and ends the stream's life.
    pub fn on_event<'a>(&mut self, signal: StreamSignal<'a>) -> (result: Result<StreamEvent<'a>, Error>)
        requires
            old(self).wf(),
        ensures
            final(self).wf(),
            final(self).spare() >= old(self).spare(),
            match after_signal(old(self)@, signal) {
                Some(next) => {
                    &&& final(self)@ == next
                    &&& result matches Ok(event)
                    &&& delivers(old(self)@, signal, event)
                },
                None => {
                    &&& final(self)@ == old(self)@
                    &&& final(self).spare() == old(self).spare()
                    &&& result matches Err(error)
                    &&& error == Error::Status(Status::InvalidState)
                },
            },
    {
        let refused = Err(Error::Status(Status::InvalidState));
        if self.handler.is_none() {
            return refused;
        }
        match signal {
            StreamSignal::StartComplete { status, id, peer_accepted } => {
                match self.phase {
                    StreamPhase::Starting => {},
                    _ => {
                        return refused;
                    },
                }
                match status {
                    Ok(_) => {
                        self.phase = StreamPhase::Active;
                        self.id = Some(id);
                    },
                    Err(_) => {
                        self.phase = StreamPhase::Failed;
                    },
                }
                Ok(StreamEvent::StartComplete { status, id, peer_accepted })
            },
            StreamSignal::Receive { absolute_offset, buffers, flags } => {
                match self.phase {
                    StreamPhase::Active => {},
                    _ => {
                        return refused;
                    },
                }
                if self.peer_fin {
                    return refused;
                }
                match total_length(buffers) {
                    Some(total_buffer_length) => Ok(
                        StreamEvent::Receive { absolute_offset, total_buffer_length, buffers, flags },
                    ),
                    None => refused,
                }
            },
            StreamSignal::SendComplete { cancelled, client_context } => {
                match self.phase {
                    StreamPhase::Active | StreamPhase::Failed => {},
                    _ => {
                        return refused;
                    },
                }
                match self.sends.reclaim(SendToken::from_raw(client_context)) {
                    Some(context) => Ok(StreamEvent::SendComplete { cancelled, context }),
                    None => refused,
                }
            },
            StreamSignal::PeerSendShutdown => {
                match self.phase {
                    StreamPhase::Active => {},
                    _ => {
                        return refused;
                    },
                }
                if self.peer_fin {
                    return refused;
                }
                self.peer_fin = true;
                Ok(StreamEvent::PeerSendShutdown)
            },
            StreamSignal::ShutdownComplete { connection_shutdown } => {
                match self.phase {
                    StreamPhase::Active | StreamPhase::Failed => {},
                    _ => {
                        return refused;
                    },
                }
                proof {
                    if no_send_in_flight(self@) {
                        assert(self.sends.pending() =~= Map::<SendToken, Seq<Seq<u8>>>::empty());
                    }
                }
                if !self.sends.is_empty() {
                    return refused;
                }
                self.phase = StreamPhase::Closed;
                Ok(StreamEvent::ShutdownComplete { connection_shutdown })
            },
        }
    }

    /// Takes in what the handler returned for an event and says what goes
    /// back to the engine. A failure is not retried: it marks the stream for
    /// teardown, and the terminal event is still owed.
    pub fn complete_event(&mut self, result: Result<(), Status>) -> (outcome: CallbackOutcome)
        requires
            old(self).wf(),
        ensures
            final(self).wf(),
            final(self).spare() == old(self).spare(),
            final(self).upcoming() == old(self).upcoming(),
            outcome == outcome_of(result),
            match result {
                Ok(_) => final(self)@ == old(self)@,
                Err(_) => Some(final(self)@) == step(old(self)@, StreamStep::Break),
            },
    {
        match result {
            Ok(_) => CallbackOutcome::Continue,
            Err(status) => {
                self.broken = true;
                CallbackOutcome::Abort(status)
            },
        }
    }
}

impl Owned<StreamRef> {
    /// Opens a stream on `connection`: `native` is what the engine answered to
    /// the request to create one. Streams are opened on a connected
    /// connection; elsewhere the call fails with `InvalidState`, whatever the
    /// engine answered. Where the engine could not create the stream the call
    /// fails with the engine's status, as a failure to initialise.
    pub fn open(
        connection: &ConnectionRef,
        flags: StreamOpenFlags,
        handler: CallbackHandler,
        native: Result<RawHandle, Status>,
    ) -> (result: Result<Stream, Error>)
        ensures
            if !(connection@.phase is Connected) {
                result == Err::<Stream, Error>(Error::Status(Status::InvalidState))
            } else {
                match native {
                    Err(status) => result == Err::<Stream, Error>(Error::EngineInit(status)),
                    Ok(raw) => {
                        &&& result matches Ok(stream)
                        &&& stream@.wf()
                        &&& stream@.spare() > 0
                        &&& pristine(stream@@)
                        &&& stream@@.raw == raw
                        &&& stream@@.connection == connection@.raw
                        &&& stream@@.handler == Some(handler)
                        &&& stream@@.phase is Created
                    },
                }
            },
    {
        match connection.phase() {
            ConnectionPhase::Connected => {},
            _ => {
                return Err(Error::Status(Status::InvalidState));
            },
        }
        match native {
            Err(status) => Err(Error::EngineInit(status)),
            Ok(raw) => Ok(
                Owned::new(
                    StreamRef {
                        raw,
                        connection: connection.handle(),
                        handler: Some(handler),
                        phase: StreamPhase::Created,
                        id: None,
                        peer_fin: false,
                        fin_sent: false,
                        broken: false,
                        sends: SendTable::new(),
                    },
                ),
            ),
        }
    }

    /// Closes the stream: the handle that comes back is the one to close at
    /// the engine. A stream is closed once, and only when no event is owed for
    /// it: before it was started, or after `ShutdownComplete`. Elsewhere the
    /// stream comes back as it was, with `InvalidState`.
    pub fn close(self) -> (result: Result<RawHandle, (Error, Stream)>)
        ensures
            !driven(self@@) ==> result == Ok::<RawHandle, (Error, Stream)>(self@@.raw),
            driven(self@@) ==> result == Err::<RawHandle, (Error, Stream)>(
                (Error::Status(Status::InvalidState), self),
            ),
    {
        self.release()
    }
}

} // verus!
