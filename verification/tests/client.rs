use bytes::Bytes;
use tokio::sync::mpsc::error::TryRecvError;
use tokio_tungstenite::tungstenite::Message;
use websocket_stream::websocket_client::{
    ReceiveTurn, Received, SendFailure, SendTurn, WebSocketClient,
};

#[test]
fn client_sends_text() {
    let (client, mut send_task, _receive_task) = WebSocketClient::new();
    client.send(Bytes::from_static(b"{\"a\":1}")).unwrap();
    let msg = send_task.rx.try_recv().unwrap();
    assert_eq!(msg, Message::Text("{\"a\":1}".to_string()));
    match send_task.on_message(Some(msg)) {
        SendTurn::Send(msg) => assert_eq!(msg, Message::Text("{\"a\":1}".to_string())),
        SendTurn::Close => panic!("closed"),
    }
}

#[test]
fn client_refuses_what_is_not_utf8() {
    let (client, mut send_task, _receive_task) = WebSocketClient::new();
    match client.send(Bytes::from_static(&[b'a', 0xc3, 0x28])) {
        Err(SendFailure::InvalidUtf8(error)) => assert_eq!(error.into_bytes(), vec![b'a', 0xc3, 0x28]),
        other => panic!("{:?}", other),
    }
    assert_eq!(send_task.rx.try_recv(), Err(TryRecvError::Empty));
}

#[test]
fn client_without_a_task_hands_the_message_back() {
    let (client, send_task, _receive_task) = WebSocketClient::new();
    drop(send_task);
    match client.send(Bytes::from_static(b"late")) {
        Err(SendFailure::Closed(closed)) => assert_eq!(closed.0, Message::Text("late".to_string())),
        other => panic!("{:?}", other),
    }
    assert!(client.close().unwrap_err().0);
}

#[test]
fn client_writes_what_is_queued_before_it_closes() {
    let (client, mut send_task, _receive_task) = WebSocketClient::new();
    client.send(Bytes::from_static(b"a")).unwrap();
    client.send(Bytes::from_static(b"b")).unwrap();
    assert!(!send_task.shutdown.has_changed().unwrap());
    assert!(client.close().is_ok());
    assert!(send_task.shutdown.has_changed().unwrap());
    assert!(*send_task.shutdown.borrow());
    send_task.on_shutdown();
    assert!(matches!(
        client.send(Bytes::from_static(b"c")),
        Err(SendFailure::Closed(_))
    ));
    let mut written = Vec::new();
    loop {
        let msg = match send_task.rx.try_recv() {
            Ok(msg) => Some(msg),
            Err(TryRecvError::Disconnected) => None,
            Err(TryRecvError::Empty) => panic!("would wait"),
        };
        match send_task.on_message(msg) {
            SendTurn::Send(msg) => written.push(msg),
            SendTurn::Close => break,
        }
    }
    assert_eq!(
        written,
        vec![Message::Text("a".to_string()), Message::Text("b".to_string())]
    );
}

#[test]
fn reading_task_goes_on_after_errors() {
    let (client, _send_task, mut receive_task) = WebSocketClient::new();
    let turn = receive_task.on_websocket::<String>(Some(Ok(Message::Text("t".to_string()))));
    assert!(matches!(turn, ReceiveTurn::Forwarded));
    assert_eq!(
        client.receiver().try_lock().unwrap().try_recv(),
        Ok(Message::Text("t".to_string()))
    );
    let turn = receive_task.on_websocket(Some(Err("reset".to_string())));
    assert!(matches!(turn, ReceiveTurn::Failed(text) if text == "reset"));
    drop(client);
    let turn = receive_task.on_websocket::<String>(Some(Ok(Message::Text("u".to_string()))));
    match turn {
        ReceiveTurn::Refused(closed) => assert_eq!(closed.0, Message::Text("u".to_string())),
        other => panic!("{:?}", other),
    }
    assert!(matches!(receive_task.on_websocket::<String>(None), ReceiveTurn::Stop));
}

#[test]
fn client_receives_the_first_data() {
    let (client, _send_task, mut receive_task) = WebSocketClient::new();
    for msg in [
        Message::Ping(vec![1]),
        Message::Pong(vec![2]),
        Message::Text("data".to_string()),
        Message::Close(None),
        Message::Binary(vec![0xff, 0]),
    ] {
        receive_task.on_websocket::<String>(Some(Ok(msg)));
    }
    drop(receive_task);
    let mut receiver = client.receiver().try_lock().unwrap();
    let mut received = Vec::new();
    let mut skipped = Vec::new();
    loop {
        match WebSocketClient::on_received(receiver.try_recv().ok()) {
            Received::Data(data) => received.push(data),
            Received::Skip(msg) => skipped.push(msg),
            Received::End => break,
        }
    }
    assert_eq!(
        received,
        vec![Bytes::from_static(b"data"), Bytes::from_static(&[0xff, 0])]
    );
    assert_eq!(
        skipped,
        vec![Message::Ping(vec![1]), Message::Pong(vec![2]), Message::Close(None)]
    );
}

#[test]
fn what_a_client_sends_is_received() {
    let (sender, mut send_task, _) = WebSocketClient::new();
    let bytes = Bytes::from("gr\u{fc}n \u{1f980}");
    sender.send(bytes.clone()).unwrap();
    let msg = send_task.rx.try_recv().ok();
    match WebSocketClient::on_received(msg) {
        Received::Data(data) => assert_eq!(data, bytes),
        other => panic!("{:?}", other),
    }
}

#[test]
fn client_receives_what_was_read_before_the_end() {
    let (client, _send_task, mut receive_task) = WebSocketClient::new();
    let text = Message::Text("t".to_string());
    let ping = Message::Ping(vec![7]);
    receive_task.on_websocket::<String>(Some(Ok(text.clone())));
    receive_task.on_websocket(Some(Err("reset".to_string())));
    receive_task.on_websocket::<String>(Some(Ok(ping.clone())));
    assert!(matches!(receive_task.on_websocket::<String>(None), ReceiveTurn::Stop));
    drop(receive_task);
    let mut receiver = client.receiver().try_lock().unwrap();
    assert_eq!(receiver.try_recv(), Ok(text));
    assert_eq!(receiver.try_recv(), Ok(ping));
    assert_eq!(receiver.try_recv(), Err(TryRecvError::Disconnected));
}

#[test]
fn client_queues_one_message_and_signals_nothing() {
    let (client, mut send_task, _receive_task) = WebSocketClient::new();
    assert_eq!(send_task.rx.try_recv(), Err(TryRecvError::Empty));
    client.send(Bytes::from_static(b"a")).unwrap();
    assert_eq!(send_task.rx.try_recv(), Ok(Message::Text("a".to_string())));
    assert_eq!(send_task.rx.try_recv(), Err(TryRecvError::Empty));
    assert!(client.send(Bytes::from_static(&[0xff])).is_err());
    assert_eq!(send_task.rx.try_recv(), Err(TryRecvError::Empty));
    assert!(!send_task.shutdown.has_changed().unwrap());
}
