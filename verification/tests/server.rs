use axum::extract::ws::Message;
use serde_json::Value;
use std::sync::Arc;
use tokio::sync::mpsc::error::TryRecvError;
use tokio_tungstenite::tungstenite;
use websocket_stream::boundary::Payload;
use websocket_stream::channel::Outbox;
use websocket_stream::error::{APIResult, Cause, ErrCode, Error, Fault};
use websocket_stream::model::{Endpoint, RequestData, StreamDirection, StreamRequestData};
use websocket_stream::schema::{JSONPayload, Request, RequestBody, Response};
use websocket_stream::websocket::{
    upgrade_request, Handled, IncomingTurn, OutgoingTurn, Responded, Socket, SocketTask,
    StopReason, StreamMessagePayload, Upgrade, PROTOCOL,
};

fn payload(key: &str) -> Payload {
    let mut map = Payload::new();
    map.insert(key.to_string(), Value::from(1));
    map
}

fn encode(body: &u8, msg: &JSONPayload) -> Result<Vec<u8>, String> {
    match msg {
        Some(map) => Ok(format!("{}:{}", body, Value::Object(map.clone())).into_bytes()),
        None => Err("no message".to_string()),
    }
}

fn decode(_: &u8, bytes: &[u8]) -> Result<JSONPayload, String> {
    match std::str::from_utf8(bytes) {
        Ok("") => Ok(None),
        Ok(key) => Ok(Some(payload(key))),
        Err(_) => Err("not text".to_string()),
    }
}

fn typed(body: u8) -> Arc<Request<u8>> {
    Arc::new(Request { body: RequestBody::Typed(Some(body)) })
}

fn open() -> (Socket, SocketTask<u8>) {
    Socket::new(typed(3), Arc::new(Response { body: Some(4) }))
}

fn stream(requests: Vec<Arc<Request<u8>>>) -> RequestData<u8> {
    RequestData::Stream(StreamRequestData {
        endpoint: Arc::new(Endpoint {
            request: requests,
            response: Arc::new(Response { body: Some(9) }),
        }),
        direction: StreamDirection::Out,
    })
}

fn upgrade(data: &RequestData<u8>, slot: &mut Option<&'static str>) -> Result<Upgrade<u8, &'static str, String>, Error<String>> {
    upgrade_request(data, slot)
}

fn cause(result: Result<Upgrade<u8, &'static str, String>, Error<String>>) -> Cause {
    let error = result.unwrap_err();
    assert_eq!(error.code(), Some(ErrCode::Internal));
    match error {
        Error::Internal(cause) => cause,
        other => panic!("{:?}", other),
    }
}

#[test]
fn upgrade_takes_the_connection_once() {
    let first = typed(1);
    let data = stream(vec![first.clone(), typed(2)]);
    let mut slot = Some("connection");
    let mut upgraded = upgrade(&data, &mut slot).unwrap();
    assert_eq!(upgraded.websocket, "connection");
    assert_eq!(upgraded.direction, StreamDirection::Out);
    assert!(Arc::ptr_eq(&upgraded.incoming, &first));
    assert_eq!(upgraded.outgoing.body, Some(9));
    assert_eq!(slot, None);
    upgraded.response_tx.send(Ok(None)).unwrap();
    assert!(matches!(upgraded.response_rx.try_recv(), Ok(Ok(None))));
    let cause = cause(upgrade(&data, &mut slot));
    assert_eq!(cause, Cause::AlreadyUpgraded);
    assert_eq!(cause.message(), "websocket already upgraded");
}

#[test]
fn upgrade_needs_a_stream_request() {
    let mut slot = Some("connection");
    let cause = cause(upgrade(&RequestData::Other, &mut slot));
    assert_eq!(cause, Cause::WrongRequestData);
    assert_eq!(cause.message(), "wrong request data type for stream");
    assert_eq!(slot, Some("connection"));
}

#[test]
fn upgrade_needs_a_request_schema() {
    let mut slot = Some("connection");
    let refused = cause(upgrade(&stream(vec![]), &mut slot));
    assert_eq!(refused, Cause::NoRequestSchema);
    assert_eq!(refused.message(), "no request schema");
    assert_eq!(slot, Some("connection"));
    let refused = cause(upgrade(&stream(vec![]), &mut None));
    assert_eq!(refused, Cause::NoRequestSchema);
}

#[test]
fn protocol_name() {
    assert_eq!(PROTOCOL, "encore-ws");
}

#[test]
fn socket_and_task_are_connected() {
    let (socket, mut task) = open();
    assert_eq!(task.schema.outgoing.body, Some(4));
    socket.send(payload("out")).unwrap();
    assert_eq!(task.outgoing_messages_rx.try_recv(), Ok(payload("out")));
    task.incoming_messages_tx.send(payload("in")).unwrap();
    assert_eq!(
        socket.receiver().try_lock().unwrap().try_recv(),
        Ok(payload("in"))
    );
    assert!(!task.shutdown_watch.has_changed().unwrap());
    assert!(!*task.shutdown_watch.borrow());
    socket.close();
    assert!(task.shutdown_watch.has_changed().unwrap());
    assert!(*task.shutdown_watch.borrow());
}

#[test]
fn send_without_a_task_hands_the_message_back() {
    let (socket, task) = open();
    drop(task);
    assert_eq!(socket.send(payload("late")).unwrap_err().0, payload("late"));
    socket.close();
    let (sink, _stream) = socket.split();
    assert_eq!(sink.send(payload("later")).unwrap_err().0, payload("later"));
    sink.close();
}

#[test]
fn halves_of_a_socket_keep_its_channels() {
    let (socket, mut task) = open();
    let (sink, stream) = socket.split();
    sink.send(payload("out")).unwrap();
    assert_eq!(task.outgoing_messages_rx.try_recv(), Ok(payload("out")));
    task.incoming_messages_tx.send(payload("in")).unwrap();
    assert_eq!(
        stream.receiver().try_lock().unwrap().try_recv(),
        Ok(payload("in"))
    );
    sink.close();
    assert!(task.shutdown_watch.has_changed().unwrap());
    assert!(*task.shutdown_watch.borrow());
}

#[test]
fn queued_messages_go_out_before_the_connection_is_closed() {
    let (socket, mut task) = open();
    socket.send(payload("a")).unwrap();
    socket.send(payload("b")).unwrap();
    socket.close();
    task.on_shutdown();
    assert_eq!(socket.send(payload("c")).unwrap_err().0, payload("c"));
    let mut sent = Vec::new();
    loop {
        let msg = match task.outgoing_messages_rx.try_recv() {
            Ok(msg) => Some(msg),
            Err(TryRecvError::Disconnected) => None,
            Err(TryRecvError::Empty) => panic!("would wait"),
        };
        match task.on_outgoing(msg, encode) {
            OutgoingTurn::Send(text) => sent.push(text),
            OutgoingTurn::Skip(error) => panic!("{:?}", error),
            OutgoingTurn::Close => break,
        }
    }
    assert_eq!(sent, vec!["4:{\"a\":1}".to_string(), "4:{\"b\":1}".to_string()]);
}

#[test]
fn message_that_cannot_be_encoded_is_skipped() {
    let (_socket, task) = Socket::new(typed(3), Arc::new(Response { body: None }));
    let turn = task.on_outgoing(Some(payload("a")), encode);
    assert!(matches!(
        turn,
        OutgoingTurn::Skip(Error::Internal(Cause::EmptyOutgoingBody))
    ));
    let (_socket, task) = open();
    let turn = task.on_outgoing(Some(payload("a")), |_: &u8, _: &JSONPayload| {
        Ok::<Vec<u8>, String>(vec![0xff])
    });
    assert!(matches!(turn, OutgoingTurn::Skip(Error::InvalidUtf8(_))));
}

#[test]
fn data_of_the_peer_is_delivered() {
    let (socket, mut task) = open();
    let turn: IncomingTurn<String, String> =
        task.on_websocket(Some(Ok(Message::Text("t".to_string()))), decode);
    assert!(matches!(turn, IncomingTurn::Continue(Handled::Delivered)));
    let turn: IncomingTurn<String, String> =
        task.on_websocket(Some(Ok(tungstenite::Message::Binary(b"b".to_vec()))), decode);
    assert!(matches!(turn, IncomingTurn::Continue(Handled::Delivered)));
    let mut receiver = socket.receiver().try_lock().unwrap();
    assert_eq!(receiver.try_recv(), Ok(payload("t")));
    assert_eq!(receiver.try_recv(), Ok(payload("b")));
    assert_eq!(receiver.try_recv(), Err(TryRecvError::Empty));
}

#[test]
fn control_messages_of_the_peer_are_ignored() {
    let (socket, mut task) = open();
    for msg in [Message::Ping(b"x".to_vec()), Message::Pong(vec![]), Message::Close(None)] {
        let turn: IncomingTurn<String, String> = task.on_websocket(Some(Ok(msg)), decode);
        assert!(matches!(turn, IncomingTurn::Continue(Handled::Ignored)));
    }
    assert_eq!(
        socket.receiver().try_lock().unwrap().try_recv(),
        Err(TryRecvError::Empty)
    );
}

#[test]
fn unreadable_messages_of_the_peer_are_dropped() {
    let (socket, mut task) = open();
    let turn: IncomingTurn<String, String> =
        task.on_websocket(Some(Ok(Message::Binary(vec![0xff]))), decode);
    assert!(matches!(
        turn,
        IncomingTurn::Continue(Handled::Rejected(Error::Schema(text))) if text == "not text"
    ));
    let turn: IncomingTurn<String, String> =
        task.on_websocket(Some(Ok(Message::Text(String::new()))), decode);
    assert!(matches!(
        turn,
        IncomingTurn::Continue(Handled::Rejected(Error::InvalidArgument(Fault::MissingPayload)))
    ));
    assert_eq!(
        socket.receiver().try_lock().unwrap().try_recv(),
        Err(TryRecvError::Empty)
    );
}

#[test]
fn task_stops_with_the_connection() {
    let (_socket, mut task) = open();
    let turn: IncomingTurn<String, String> = task.on_websocket(None::<Result<Message, String>>, decode);
    assert!(matches!(turn, IncomingTurn::Stop(StopReason::Closed)));
    let turn: IncomingTurn<String, String> =
        task.on_websocket(Some(Err::<Message, String>("reset".to_string())), decode);
    assert!(matches!(
        turn,
        IncomingTurn::Stop(StopReason::ReceiveFailed(text)) if text == "reset"
    ));
}

#[test]
fn task_stops_when_nobody_receives() {
    let (socket, mut task) = open();
    let (payload_handle, left) = StreamMessagePayload::new(socket, StreamDirection::Out);
    assert!(matches!(payload_handle, StreamMessagePayload::Out(_)));
    assert!(left.is_none());
    let turn: IncomingTurn<String, String> =
        task.on_websocket(Some(Ok(Message::Text("t".to_string()))), decode);
    match turn {
        IncomingTurn::Stop(StopReason::IncomingClosed(closed)) => assert_eq!(closed.0, payload("t")),
        other => panic!("{:?}", other),
    }
    let turn: IncomingTurn<String, String> =
        task.on_websocket(Some(Ok(Message::Ping(vec![]))), decode);
    assert!(matches!(turn, IncomingTurn::Continue(Handled::Ignored)));
}

#[test]
fn direction_decides_what_an_endpoint_is_handed() {
    let (socket, mut task) = open();
    match StreamMessagePayload::new(socket, StreamDirection::InOut) {
        (StreamMessagePayload::InOut(socket), None) => {
            socket.send(payload("both")).unwrap();
            assert_eq!(task.outgoing_messages_rx.try_recv(), Ok(payload("both")));
        }
        other => panic!("{:?}", other),
    }
    let (socket, mut task) = open();
    match StreamMessagePayload::new(socket, StreamDirection::In) {
        (StreamMessagePayload::In(stream), Some(sink)) => {
            task.incoming_messages_tx.send(payload("in")).unwrap();
            assert_eq!(
                stream.receiver().try_lock().unwrap().try_recv(),
                Ok(payload("in"))
            );
            let responded = sink.respond::<String>(Some(Ok(Some(payload("done")))));
            assert!(matches!(responded, Responded::Sent));
            assert_eq!(task.outgoing_messages_rx.try_recv(), Ok(payload("done")));
            assert_eq!(
                task.outgoing_messages_rx.try_recv(),
                Err(TryRecvError::Disconnected)
            );
        }
        other => panic!("{:?}", other),
    }
}

#[test]
fn responses_that_are_not_sent() {
    let failure: APIResult<JSONPayload, String> = Err(Error::Schema("failed".to_string()));
    for (response, expected) in [(None, 0), (Some(Ok(None)), 1), (Some(failure), 2)] {
        let (socket, mut task) = open();
        let (sink, _stream) = socket.split();
        match (sink.respond(response), expected) {
            (Responded::Missing, 0) | (Responded::Empty, 1) => {}
            (Responded::Failed(Error::Schema(text)), 2) => assert_eq!(text, "failed"),
            other => panic!("{:?}", other),
        }
        assert_eq!(
            task.outgoing_messages_rx.try_recv(),
            Err(TryRecvError::Disconnected)
        );
        assert!(task.shutdown_watch.has_changed().is_err());
    }
    let (socket, task) = open();
    let (sink, _stream) = socket.split();
    drop(task);
    match sink.respond::<String>(Some(Ok(Some(payload("done"))))) {
        Responded::SinkClosed(closed) => assert_eq!(closed.0, payload("done")),
        other => panic!("{:?}", other),
    }
}

#[test]
fn response_is_all_that_is_sent() {
    let (socket, mut task) = open();
    let (sink, _stream) = socket.split();
    let responded = sink.respond::<String>(Some(Ok(Some(payload("done")))));
    assert!(matches!(responded, Responded::Sent));
    assert!(task.shutdown_watch.has_changed().is_err());
    task.on_shutdown();
    let msg = task.outgoing_messages_rx.try_recv().ok();
    match task.on_outgoing(msg, encode) {
        OutgoingTurn::Send(text) => assert_eq!(text, "4:{\"done\":1}"),
        other => panic!("{:?}", other),
    }
    let msg = task.outgoing_messages_rx.try_recv().ok();
    assert!(matches!(task.on_outgoing(msg, encode), OutgoingTurn::Close));
}

#[test]
fn what_came_before_the_peer_left_is_received() {
    let (socket, mut task) = open();
    for msg in [
        Message::Text("a".to_string()),
        Message::Binary(vec![0xff]),
        Message::Ping(vec![]),
        Message::Text("b".to_string()),
        Message::Text(String::new()),
        Message::Binary(b"c".to_vec()),
    ] {
        let turn: IncomingTurn<String, String> = task.on_websocket(Some(Ok(msg)), decode);
        assert!(matches!(turn, IncomingTurn::Continue(_)));
    }
    let turn: IncomingTurn<String, String> =
        task.on_websocket(None::<Result<Message, String>>, decode);
    assert!(matches!(turn, IncomingTurn::Stop(StopReason::Closed)));
    drop(task);
    let mut receiver = socket.receiver().try_lock().unwrap();
    assert_eq!(receiver.try_recv(), Ok(payload("a")));
    assert_eq!(receiver.try_recv(), Ok(payload("b")));
    assert_eq!(receiver.try_recv(), Ok(payload("c")));
    assert_eq!(receiver.try_recv(), Err(TryRecvError::Disconnected));
    assert_eq!(socket.send(payload("late")).unwrap_err().0, payload("late"));
}

#[test]
fn errors_of_the_connection_hand_nothing_on() {
    let (socket, mut task) = open();
    let turn: IncomingTurn<String, String> =
        task.on_websocket(Some(Err::<Message, String>("reset".to_string())), decode);
    assert!(matches!(turn, IncomingTurn::Stop(_)));
    let turn = task.on_outgoing(Some(payload("out")), encode);
    assert!(matches!(turn, OutgoingTurn::Send(_)));
    assert_eq!(
        socket.receiver().try_lock().unwrap().try_recv(),
        Err(TryRecvError::Empty)
    );
}

fn received_of(socket: &Socket) -> Vec<Payload> {
    let mut receiver = socket.receiver().try_lock().unwrap();
    let mut received = Vec::new();
    while let Ok(payload) = receiver.try_recv() {
        received.push(payload);
    }
    received
}

#[test]
fn both_kinds_of_connection_deliver_the_same() {
    let (accepted, mut accepted_task) = open();
    for msg in [
        Message::Text("gr\u{fc}n".to_string()),
        Message::Ping(b"x".to_vec()),
        Message::Binary(vec![0xff]),
        Message::Close(None),
        Message::Binary(b"b".to_vec()),
        Message::Pong(vec![]),
    ] {
        let _: IncomingTurn<String, String> = accepted_task.on_websocket(Some(Ok(msg)), decode);
    }
    let (opened, mut opened_task) = open();
    for msg in [
        tungstenite::Message::Text("gr\u{fc}n".to_string()),
        tungstenite::Message::Ping(b"x".to_vec()),
        tungstenite::Message::Binary(vec![0xff]),
        tungstenite::Message::Close(None),
        tungstenite::Message::Binary(b"b".to_vec()),
        tungstenite::Message::Pong(vec![]),
    ] {
        let _: IncomingTurn<String, String> = opened_task.on_websocket(Some(Ok(msg)), decode);
    }
    let received = received_of(&accepted);
    assert_eq!(received, vec![payload("gr\u{fc}n"), payload("b")]);
    assert_eq!(received_of(&opened), received);
}

#[test]
fn outbox_sends_on_its_channel() {
    let (tx, mut rx) = tokio::sync::mpsc::unbounded_channel();
    let mut outbox = Outbox::new(tx);
    assert!(outbox.send(1).is_ok());
    assert!(outbox.send(2).is_ok());
    assert_eq!(rx.try_recv(), Ok(1));
    rx.close();
    assert_eq!(outbox.send(3).unwrap_err().0, 3);
    assert_eq!(rx.try_recv(), Ok(2));
    assert_eq!(rx.try_recv(), Err(TryRecvError::Disconnected));
}

#[test]
fn split_signals_and_sends_nothing() {
    let (socket, mut task) = open();
    let (sink, stream) = socket.split();
    assert!(!task.shutdown_watch.has_changed().unwrap());
    assert!(!*task.shutdown_watch.borrow());
    assert_eq!(task.outgoing_messages_rx.try_recv(), Err(TryRecvError::Empty));
    drop(stream);
    assert!(!task.shutdown_watch.has_changed().unwrap());
    sink.close();
    assert!(task.shutdown_watch.has_changed().unwrap());
}

#[test]
fn opening_signals_and_sends_nothing() {
    for direction in [StreamDirection::InOut, StreamDirection::In, StreamDirection::Out] {
        let (socket, mut task) = open();
        assert!(!task.shutdown_watch.has_changed().unwrap());
        let opened = StreamMessagePayload::new(socket, direction);
        assert!(!task.shutdown_watch.has_changed().unwrap());
        assert!(!*task.shutdown_watch.borrow());
        assert_eq!(task.outgoing_messages_rx.try_recv(), Err(TryRecvError::Empty));
        drop(opened);
    }
}

#[test]
fn sending_queues_one_message_and_signals_nothing() {
    let (socket, mut task) = open();
    socket.send(payload("a")).unwrap();
    assert_eq!(task.outgoing_messages_rx.try_recv(), Ok(payload("a")));
    assert_eq!(task.outgoing_messages_rx.try_recv(), Err(TryRecvError::Empty));
    let (sink, _stream) = socket.split();
    sink.send(payload("b")).unwrap();
    assert_eq!(task.outgoing_messages_rx.try_recv(), Ok(payload("b")));
    assert_eq!(task.outgoing_messages_rx.try_recv(), Err(TryRecvError::Empty));
    assert!(!task.shutdown_watch.has_changed().unwrap());
}

fn encode_some(_: &u8, msg: &JSONPayload) -> Result<Vec<u8>, String> {
    match msg {
        Some(map) if map.contains_key("broken") => Err("broken".to_string()),
        Some(map) if map.contains_key("binary") => Ok(vec![0xff]),
        Some(map) => Ok(Value::Object(map.clone()).to_string().into_bytes()),
        None => Err("no message".to_string()),
    }
}

#[test]
fn messages_that_encode_are_written_once_and_in_order() {
    let (socket, mut task) = open();
    for key in ["a", "broken", "b", "binary", "a"] {
        socket.send(payload(key)).unwrap();
    }
    socket.close();
    task.on_shutdown();
    let mut written = Vec::new();
    let mut skipped = 0;
    loop {
        let msg = task.outgoing_messages_rx.try_recv().ok();
        match task.on_outgoing(msg, encode_some) {
            OutgoingTurn::Send(text) => written.push(text),
            OutgoingTurn::Skip(_) => skipped += 1,
            OutgoingTurn::Close => break,
        }
    }
    assert_eq!(written, vec!["{\"a\":1}", "{\"b\":1}", "{\"a\":1}"]);
    assert_eq!(skipped, 2);
    assert_eq!(socket.send(payload("late")).unwrap_err().0, payload("late"));
    assert_eq!(
        task.outgoing_messages_rx.try_recv(),
        Err(TryRecvError::Disconnected)
    );
}

#[test]
fn end_is_received_for_good() {
    let (socket, mut task) = open();
    let turn: IncomingTurn<String, String> =
        task.on_websocket(Some(Ok(Message::Text("a".to_string()))), decode);
    assert!(matches!(turn, IncomingTurn::Continue(Handled::Delivered)));
    drop(task);
    let mut receiver = socket.receiver().try_lock().unwrap();
    assert_eq!(receiver.try_recv(), Ok(payload("a")));
    assert_eq!(receiver.try_recv(), Err(TryRecvError::Disconnected));
    assert!(socket.send(payload("late")).is_err());
    socket.close();
    assert_eq!(receiver.try_recv(), Err(TryRecvError::Disconnected));
}
