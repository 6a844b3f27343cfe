use quic_lifecycle::buffer::BufferRef;
use quic_lifecycle::config::{CredentialConfig, Settings};
use quic_lifecycle::configuration::Configuration;
use quic_lifecycle::connection::{Connection, ConnectionSignal};
use quic_lifecycle::handle::{CallbackHandler, Owned, RawHandle};
use quic_lifecycle::registration::{Registration, RegistrationConfig};
use quic_lifecycle::send::{SendContext, SendToken};
use quic_lifecycle::status::{CallbackOutcome, Error, Status};
use quic_lifecycle::stream::{
    total_length, ReceiveFlags, SendFlags, Stream, StreamEvent, StreamOpenFlags, StreamPhase,
    StreamShutdownFlags, StreamSignal, StreamStartFlags,
};

fn handle(id: u64) -> RawHandle {
    RawHandle { id }
}

fn connected_connection(registration: &mut Registration) -> Connection {
    let alpn = [BufferRef::from_str("qtest")];
    let mut configuration =
        Configuration::open(registration, &alpn, Some(&Settings::new()), Ok(handle(10))).unwrap();
    configuration.load_credential(&CredentialConfig::new_client(), Ok(())).unwrap();
    let mut connection =
        Connection::open(registration, CallbackHandler { id: 1 }, Ok(handle(11))).unwrap();
    connection.get_mut().start(&configuration, "127.0.0.1", 4567, Ok(())).unwrap();
    let alpn_bytes = b"qtest".to_vec();
    connection
        .get_mut()
        .on_event(ConnectionSignal::Connected {
            session_resumed: false,
            negotiated_alpn: BufferRef::new(&alpn_bytes),
        })
        .unwrap();
    connection
}

fn opened_stream() -> Stream {
    let mut registration =
        Registration::new(&RegistrationConfig::default(), Ok(handle(1))).unwrap();
    let connection = connected_connection(&mut registration);
    Stream::open(connection.get(), StreamOpenFlags::none(), CallbackHandler { id: 2 }, Ok(handle(20)))
        .unwrap()
}

fn active_stream(id: u64) -> Stream {
    let mut stream = opened_stream();
    stream.get_mut().start(StreamStartFlags::none(), Ok(())).unwrap();
    stream
        .get_mut()
        .on_event(StreamSignal::StartComplete { status: Ok(()), id, peer_accepted: true })
        .unwrap();
    stream
}

fn context(text: &str) -> SendContext {
    SendContext::from_bytes(text.as_bytes().to_vec())
}

fn refused<T>(result: Result<T, Error>) -> bool {
    matches!(result, Err(Error::Status(Status::InvalidState)))
}

#[test]
fn open_needs_a_connected_connection() {
    let mut registration =
        Registration::new(&RegistrationConfig::default(), Ok(handle(1))).unwrap();
    let connection =
        Connection::open(&mut registration, CallbackHandler { id: 1 }, Ok(handle(11))).unwrap();
    let result = Stream::open(
        connection.get(),
        StreamOpenFlags::none(),
        CallbackHandler { id: 2 },
        Ok(handle(20)),
    );
    assert!(matches!(result, Err(Error::Status(Status::InvalidState))));
}

#[test]
fn stream_open_reports_an_engine_failure_as_init_error() {
    let mut registration =
        Registration::new(&RegistrationConfig::default(), Ok(handle(1))).unwrap();
    let connection = connected_connection(&mut registration);
    let result = Stream::open(
        connection.get(),
        StreamOpenFlags::none(),
        CallbackHandler { id: 2 },
        Err(Status::OutOfMemory),
    );
    assert!(matches!(result, Err(Error::EngineInit(Status::OutOfMemory))));
}

#[test]
fn opened_stream_is_created_and_has_no_id() {
    let stream = opened_stream();
    assert_eq!(stream.get().phase(), StreamPhase::Created);
    assert_eq!(stream.get().handler(), Some(CallbackHandler { id: 2 }));
    assert_eq!(stream.get().connection(), handle(11));
    assert_eq!(stream.get().pending_sends(), 0);
    assert_eq!(stream.get().get_stream_id(), Err(Error::Status(Status::InvalidState)));
    assert!(!stream.get().can_send());
}

#[test]
fn start_moves_to_starting_once() {
    let mut stream = opened_stream();
    assert_eq!(stream.get_mut().start(StreamStartFlags::none(), Ok(())), Ok(()));
    assert_eq!(stream.get().phase(), StreamPhase::Starting);
    assert_eq!(
        stream.get_mut().start(StreamStartFlags::none(), Ok(())),
        Err(Error::Status(Status::InvalidState))
    );
    assert_eq!(stream.get().phase(), StreamPhase::Starting);
}

#[test]
fn stream_start_refused_by_the_engine_changes_nothing() {
    let mut stream = opened_stream();
    assert_eq!(
        stream.get_mut().start(StreamStartFlags::none(), Err(Status::Aborted)),
        Err(Error::Status(Status::Aborted))
    );
    assert_eq!(stream.get().phase(), StreamPhase::Created);
    // Nothing is owed: the stream can be closed.
    assert_eq!(stream.close().unwrap(), handle(20));
}

#[test]
fn start_complete_id_equals_queried_id() {
    let mut stream = opened_stream();
    stream.get_mut().start(StreamStartFlags::none(), Ok(())).unwrap();
    let event = stream
        .get_mut()
        .on_event(StreamSignal::StartComplete { status: Ok(()), id: 4, peer_accepted: true })
        .unwrap();
    match event {
        StreamEvent::StartComplete { status, id, peer_accepted } => {
            assert_eq!(status, Ok(()));
            assert!(peer_accepted);
            assert_eq!(stream.get().get_stream_id().unwrap(), id);
            assert_eq!(id, 4);
        }
        other => panic!("unexpected event {other:?}"),
    }
    // Later steps do not change the id.
    let token = stream.get_mut().send(context("x"), SendFlags::fin(), Ok(())).unwrap();
    stream
        .get_mut()
        .on_event(StreamSignal::SendComplete { cancelled: false, client_context: token.to_raw() })
        .unwrap();
    stream.get_mut().on_event(StreamSignal::PeerSendShutdown).unwrap();
    stream.get_mut().on_event(StreamSignal::ShutdownComplete { connection_shutdown: false }).unwrap();
    assert_eq!(stream.get().get_stream_id(), Ok(4));
}

#[test]
fn failed_start_leaves_only_cleanup() {
    let mut stream = opened_stream();
    stream.get_mut().start(StreamStartFlags::none(), Ok(())).unwrap();
    let token = stream.get_mut().send(context("queued"), SendFlags::none(), Ok(())).unwrap();
    stream
        .get_mut()
        .on_event(StreamSignal::StartComplete {
            status: Err(Status::Aborted),
            id: 0,
            peer_accepted: false,
        })
        .unwrap();
    assert_eq!(stream.get().phase(), StreamPhase::Failed);
    assert_eq!(stream.get().get_stream_id(), Err(Error::Status(Status::InvalidState)));
    assert!(!stream.get().can_send());
    let buffers: [BufferRef; 0] = [];
    assert!(refused(stream.get_mut().on_event(StreamSignal::Receive {
        absolute_offset: 0,
        buffers: &buffers,
        flags: ReceiveFlags { fin: false, zero_rtt: false },
    })));
    // The queued send is cancelled, then the stream shuts down.
    assert!(refused(
        stream.get_mut().on_event(StreamSignal::ShutdownComplete { connection_shutdown: false })
    ));
    let event = stream
        .get_mut()
        .on_event(StreamSignal::SendComplete { cancelled: true, client_context: token.to_raw() })
        .unwrap();
    assert!(matches!(event, StreamEvent::SendComplete { cancelled: true, .. }));
    stream.get_mut().on_event(StreamSignal::ShutdownComplete { connection_shutdown: false }).unwrap();
    assert_eq!(stream.get().phase(), StreamPhase::Closed);
}

#[test]
fn events_before_start_complete_are_refused() {
    let mut stream = opened_stream();
    let data = b"x".to_vec();
    let buffers = [BufferRef::new(&data)];
    let receive = || StreamSignal::Receive {
        absolute_offset: 0,
        buffers: &buffers,
        flags: ReceiveFlags { fin: false, zero_rtt: false },
    };
    // Not started at all.
    assert!(refused(stream.get_mut().on_event(StreamSignal::StartComplete {
        status: Ok(()),
        id: 0,
        peer_accepted: true
    })));
    assert!(refused(stream.get_mut().on_event(receive())));
    assert!(refused(stream.get_mut().on_event(StreamSignal::PeerSendShutdown)));
    assert!(refused(
        stream.get_mut().on_event(StreamSignal::ShutdownComplete { connection_shutdown: false })
    ));
    // Started, StartComplete still owed.
    stream.get_mut().start(StreamStartFlags::none(), Ok(())).unwrap();
    let token = stream.get_mut().send(context("early"), SendFlags::none(), Ok(())).unwrap();
    assert!(refused(stream.get_mut().on_event(receive())));
    assert!(refused(stream.get_mut().on_event(StreamSignal::SendComplete {
        cancelled: false,
        client_context: token.to_raw()
    })));
    assert!(refused(stream.get_mut().on_event(StreamSignal::PeerSendShutdown)));
    assert!(refused(
        stream.get_mut().on_event(StreamSignal::ShutdownComplete { connection_shutdown: false })
    ));
    assert_eq!(stream.get().phase(), StreamPhase::Starting);
    assert_eq!(stream.get().pending_sends(), 1);
}

#[test]
fn start_complete_comes_once() {
    let mut stream = active_stream(0);
    assert!(refused(stream.get_mut().on_event(StreamSignal::StartComplete {
        status: Ok(()),
        id: 8,
        peer_accepted: true
    })));
    assert_eq!(stream.get().get_stream_id(), Ok(0));
}

#[test]
fn receive_reports_total_length_and_lends_the_buffers() {
    let mut stream = active_stream(0);
    let a = b"hello ".to_vec();
    let b = b"from client".to_vec();
    let buffers = [BufferRef::new(&a), BufferRef::new(&b)];
    let event = stream
        .get_mut()
        .on_event(StreamSignal::Receive {
            absolute_offset: 0,
            buffers: &buffers,
            flags: ReceiveFlags { fin: true, zero_rtt: false },
        })
        .unwrap();
    match event {
        StreamEvent::Receive { absolute_offset, total_buffer_length, buffers, flags } => {
            assert_eq!(absolute_offset, 0);
            assert_eq!(total_buffer_length, 17);
            assert_eq!(buffers.len(), 2);
            assert_eq!(buffers[0].as_bytes(), b"hello ");
            assert_eq!(buffers[1].as_bytes(), b"from client");
            assert_eq!(flags, ReceiveFlags { fin: true, zero_rtt: false });
        }
        other => panic!("unexpected event {other:?}"),
    }
}

#[test]
fn total_length_adds_the_buffer_lengths() {
    let none: [BufferRef; 0] = [];
    assert_eq!(total_length(&none), Some(0));
    let a = vec![0u8; 3];
    let b = vec![0u8; 0];
    let c = vec![0u8; 1000];
    assert_eq!(
        total_length(&[BufferRef::new(&a), BufferRef::new(&b), BufferRef::new(&c)]),
        Some(1003)
    );
}

#[test]
fn no_receive_after_peer_send_shutdown() {
    let mut stream = active_stream(0);
    let data = b"x".to_vec();
    let buffers = [BufferRef::new(&data)];
    assert!(matches!(
        stream.get_mut().on_event(StreamSignal::PeerSendShutdown),
        Ok(StreamEvent::PeerSendShutdown)
    ));
    assert!(refused(stream.get_mut().on_event(StreamSignal::Receive {
        absolute_offset: 0,
        buffers: &buffers,
        flags: ReceiveFlags { fin: false, zero_rtt: false },
    })));
    assert!(refused(stream.get_mut().on_event(StreamSignal::PeerSendShutdown)));
}

#[test]
fn send_complete_may_follow_peer_send_shutdown() {
    let mut stream = active_stream(0);
    stream.get_mut().on_event(StreamSignal::PeerSendShutdown).unwrap();
    let token = stream.get_mut().send(context("hello from server"), SendFlags::fin(), Ok(())).unwrap();
    let event = stream
        .get_mut()
        .on_event(StreamSignal::SendComplete { cancelled: false, client_context: token.to_raw() })
        .unwrap();
    match event {
        StreamEvent::SendComplete { cancelled, context } => {
            assert!(!cancelled);
            assert_eq!(context.to_bytes(), b"hello from server".to_vec());
        }
        other => panic!("unexpected event {other:?}"),
    }
}

#[test]
fn no_event_after_shutdown_complete() {
    let mut stream = active_stream(0);
    let event =
        stream.get_mut().on_event(StreamSignal::ShutdownComplete { connection_shutdown: true }).unwrap();
    assert!(matches!(event, StreamEvent::ShutdownComplete { connection_shutdown: true }));
    assert_eq!(stream.get().phase(), StreamPhase::Closed);
    let data = b"x".to_vec();
    let buffers = [BufferRef::new(&data)];
    assert!(refused(stream.get_mut().on_event(StreamSignal::StartComplete {
        status: Ok(()),
        id: 0,
        peer_accepted: true
    })));
    assert!(refused(stream.get_mut().on_event(StreamSignal::Receive {
        absolute_offset: 0,
        buffers: &buffers,
        flags: ReceiveFlags { fin: false, zero_rtt: false },
    })));
    assert!(refused(
        stream.get_mut().on_event(StreamSignal::SendComplete { cancelled: false, client_context: 0 })
    ));
    assert!(refused(stream.get_mut().on_event(StreamSignal::PeerSendShutdown)));
    assert!(refused(
        stream.get_mut().on_event(StreamSignal::ShutdownComplete { connection_shutdown: false })
    ));
    assert_eq!(stream.get().phase(), StreamPhase::Closed);
}

#[test]
fn shutdown_complete_waits_for_sends_in_flight() {
    let mut stream = active_stream(0);
    let token = stream.get_mut().send(context("data"), SendFlags::none(), Ok(())).unwrap();
    assert!(refused(
        stream.get_mut().on_event(StreamSignal::ShutdownComplete { connection_shutdown: false })
    ));
    assert_eq!(stream.get().phase(), StreamPhase::Active);
    stream
        .get_mut()
        .on_event(StreamSignal::SendComplete { cancelled: true, client_context: token.to_raw() })
        .unwrap();
    stream.get_mut().on_event(StreamSignal::ShutdownComplete { connection_shutdown: false }).unwrap();
    assert_eq!(stream.get().phase(), StreamPhase::Closed);
    assert_eq!(stream.get().pending_sends(), 0);
}

#[test]
fn send_is_accepted_under_the_announced_token() {
    let mut stream = active_stream(0);
    let announced = stream.get().next_token().unwrap();
    let token = stream.get_mut().send(context("hello from client"), SendFlags::none(), Ok(())).unwrap();
    assert_eq!(token, announced);
    assert_eq!(stream.get().pending_sends(), 1);
    assert_eq!(
        stream.get().send_context(token).unwrap().to_bytes(),
        b"hello from client".to_vec()
    );
    assert!(stream.get().can_send());
}

#[test]
fn send_after_fin_is_invalid() {
    let mut stream = active_stream(0);
    stream.get_mut().send(context("last"), SendFlags::fin(), Ok(())).unwrap();
    assert!(!stream.get().can_send());
    let (error, back) = stream.get_mut().send(context("more"), SendFlags::none(), Ok(())).unwrap_err();
    assert_eq!(error, Error::Status(Status::InvalidState));
    assert_eq!(back.to_bytes(), b"more".to_vec());
    assert_eq!(stream.get().pending_sends(), 1);
}

#[test]
fn send_before_start_is_invalid() {
    let mut stream = opened_stream();
    let (error, back) = stream.get_mut().send(context("x"), SendFlags::none(), Ok(())).unwrap_err();
    assert_eq!(error, Error::Status(Status::InvalidState));
    assert_eq!(back.to_bytes(), b"x".to_vec());
}

#[test]
fn send_refused_by_the_engine_returns_the_context_and_breaks_the_stream() {
    let mut stream = active_stream(0);
    let (error, back) =
        stream.get_mut().send(context("hello"), SendFlags::fin(), Err(Status::Aborted)).unwrap_err();
    assert_eq!(error, Error::Status(Status::Aborted));
    assert_eq!(back.to_bytes(), b"hello".to_vec());
    // Nothing is in flight, and no completion is accepted for the send.
    assert_eq!(stream.get().pending_sends(), 0);
    assert!(refused(
        stream.get_mut().on_event(StreamSignal::SendComplete { cancelled: false, client_context: 0 })
    ));
    // The stream takes no more sends; the caller aborts it.
    assert!(!stream.get().can_send());
    let (error, _) = stream.get_mut().send(context("again"), SendFlags::none(), Ok(())).unwrap_err();
    assert_eq!(error, Error::Status(Status::InvalidState));
    assert_eq!(stream.get_mut().shutdown(StreamShutdownFlags::abort(), 0, Ok(())), Ok(()));
    stream.get_mut().on_event(StreamSignal::ShutdownComplete { connection_shutdown: false }).unwrap();
    assert_eq!(stream.get().phase(), StreamPhase::Closed);
}

#[test]
fn send_complete_reclaims_each_context_exactly_once() {
    let n = 50;
    let mut stream = active_stream(0);
    let mut tokens: Vec<SendToken> = Vec::new();
    for i in 0..n {
        let token =
            stream.get_mut().send(context(&format!("send {i}")), SendFlags::none(), Ok(())).unwrap();
        assert!(!tokens.contains(&token));
        tokens.push(token);
    }
    assert_eq!(stream.get().pending_sends(), n);
    let mut reclaimed = 0;
    for (i, token) in tokens.iter().enumerate().rev() {
        match stream
            .get_mut()
            .on_event(StreamSignal::SendComplete { cancelled: false, client_context: token.to_raw() })
            .unwrap()
        {
            StreamEvent::SendComplete { context, .. } => {
                assert_eq!(context.to_bytes(), format!("send {i}").into_bytes());
                reclaimed += 1;
            }
            other => panic!("unexpected event {other:?}"),
        }
        // A second completion for the same send is refused.
        assert!(refused(stream.get_mut().on_event(StreamSignal::SendComplete {
            cancelled: false,
            client_context: token.to_raw()
        })));
    }
    assert_eq!(reclaimed, n);
    assert_eq!(stream.get().pending_sends(), 0);
}

#[test]
fn send_complete_for_an_unknown_token_is_refused() {
    let mut stream = active_stream(0);
    let token = stream.get_mut().send(context("a"), SendFlags::none(), Ok(())).unwrap();
    assert!(refused(stream.get_mut().on_event(StreamSignal::SendComplete {
        cancelled: false,
        client_context: token.to_raw() + 1
    })));
    assert_eq!(stream.get().pending_sends(), 1);
}

#[test]
fn shutdown_closes_the_send_direction() {
    let mut stream = active_stream(0);
    assert_eq!(stream.get_mut().shutdown(StreamShutdownFlags::graceful(), 0, Ok(())), Ok(()));
    assert!(!stream.get().can_send());
    assert_eq!(stream.get().phase(), StreamPhase::Active);
    // The shutdown is complete only when the event arrives.
    stream.get_mut().on_event(StreamSignal::ShutdownComplete { connection_shutdown: false }).unwrap();
    assert_eq!(stream.get().phase(), StreamPhase::Closed);
}

#[test]
fn shutdown_that_aborts_receive_only_keeps_the_send_direction() {
    let mut stream = active_stream(0);
    let flags = StreamShutdownFlags { graceful: false, abort_send: false, abort_receive: true };
    assert_eq!(stream.get_mut().shutdown(flags, 7, Ok(())), Ok(()));
    assert!(stream.get().can_send());
}

#[test]
fn shutdown_of_a_stream_that_is_not_driven_is_invalid() {
    let mut stream = opened_stream();
    assert_eq!(
        stream.get_mut().shutdown(StreamShutdownFlags::abort(), 0, Ok(())),
        Err(Error::Status(Status::InvalidState))
    );
    let mut closed = active_stream(0);
    closed.get_mut().on_event(StreamSignal::ShutdownComplete { connection_shutdown: false }).unwrap();
    assert_eq!(
        closed.get_mut().shutdown(StreamShutdownFlags::abort(), 0, Ok(())),
        Err(Error::Status(Status::InvalidState))
    );
}

#[test]
fn shutdown_refused_by_the_engine_changes_nothing() {
    let mut stream = active_stream(0);
    assert_eq!(
        stream.get_mut().shutdown(StreamShutdownFlags::graceful(), 0, Err(Status::InvalidParameter)),
        Err(Error::Status(Status::InvalidParameter))
    );
    assert!(stream.get().can_send());
}

#[test]
fn handler_failure_marks_the_stream_for_teardown() {
    let mut stream = active_stream(0);
    assert_eq!(stream.get_mut().complete_event(Ok(())), CallbackOutcome::Continue);
    assert!(stream.get().can_send());
    assert_eq!(
        stream.get_mut().complete_event(Err(Status::Aborted)),
        CallbackOutcome::Abort(Status::Aborted)
    );
    assert!(!stream.get().can_send());
    // The terminal event is still owed, and still taken.
    assert!(stream.get().phase() == StreamPhase::Active);
    stream.get_mut().on_event(StreamSignal::ShutdownComplete { connection_shutdown: false }).unwrap();
    assert_eq!(stream.get().phase(), StreamPhase::Closed);
}

#[test]
fn events_need_a_bound_handler() {
    let mut registration =
        Registration::new(&RegistrationConfig::default(), Ok(handle(1))).unwrap();
    let mut connection = connected_connection(&mut registration);
    let event = connection
        .get_mut()
        .on_event(ConnectionSignal::PeerStreamStarted {
            stream: handle(30),
            id: 1,
            flags: StreamOpenFlags::none(),
        })
        .unwrap();
    let mut stream = match event {
        quic_lifecycle::connection::ConnectionEvent::PeerStreamStarted { stream, .. } => stream,
        _ => panic!("unexpected event"),
    };
    assert_eq!(stream.handler(), None);
    assert!(refused(stream.on_event(StreamSignal::PeerSendShutdown)));
    stream.set_callback_handler(CallbackHandler { id: 9 });
    assert_eq!(stream.handler(), Some(CallbackHandler { id: 9 }));
    assert!(stream.on_event(StreamSignal::PeerSendShutdown).is_ok());
}

#[test]
fn stream_is_owned_by_its_wrapper() {
    let stream: Owned<_> = opened_stream();
    assert_eq!(stream.get().phase(), StreamPhase::Created);
}

#[test]
fn a_stream_with_no_room_refuses_the_send_and_keeps_working() {
    let mut stream = active_stream(0);
    assert!(stream.get_mut().limit_sends(1));
    let first = stream.get_mut().send(context("first"), SendFlags::none(), Ok(())).unwrap();
    assert!(stream.get().next_token().is_none());
    let (error, back) = stream.get_mut().send(context("second"), SendFlags::none(), Ok(())).unwrap_err();
    assert_eq!(error, Error::Status(Status::OutOfMemory));
    assert_eq!(back.to_bytes(), b"second".to_vec());
    // The refusal is no failure of the stream: after a completion there is room.
    assert!(stream.get().can_send());
    stream
        .get_mut()
        .on_event(StreamSignal::SendComplete { cancelled: false, client_context: first.to_raw() })
        .unwrap();
    assert!(stream.get_mut().send(back, SendFlags::fin(), Ok(())).is_ok());
}

#[test]
fn the_bound_on_sends_is_set_before_the_first_send() {
    let mut stream = active_stream(0);
    assert!(stream.get_mut().limit_sends(5));
    assert!(stream.get_mut().limit_sends(2));
    let token = stream.get_mut().send(context("a"), SendFlags::none(), Ok(())).unwrap();
    assert!(!stream.get_mut().limit_sends(0));
    stream
        .get_mut()
        .on_event(StreamSignal::SendComplete { cancelled: false, client_context: token.to_raw() })
        .unwrap();
    // Still refused: a token has been issued.
    assert!(!stream.get_mut().limit_sends(0));
    assert!(stream.get_mut().send(context("b"), SendFlags::none(), Ok(())).is_ok());
}
