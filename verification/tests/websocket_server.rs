use socketor::error::ErrorKind;
use socketor::event::ServerEvent;
use socketor::websocket_server::{
    complete_websocket_server_stop, drop_websocket_client, get_websocket_server_info, get_websocket_servers, handle_connection,
    new_websocket_server, prepare_websocket_server, receive_step, send_websocket_message,
    start_websocket_server, stop_websocket_server, Frame, FrameOutcome, SendMessageParams,
    StartServerParams, WebSocketClient, WebSocketServer, WebSocketServerEvent,
    WebSocketServerManager,
};
use tokio::sync::mpsc::error::TryRecvError;
use tokio::sync::mpsc::{unbounded_channel, UnboundedReceiver};

fn ws_peer(id: &str, addr: &str) -> (WebSocketClient, UnboundedReceiver<Frame>) {
    let (sender, receiver) = unbounded_channel();
    (
        WebSocketClient {
            id: id.to_string(),
            addr: addr.to_string(),
            sender,
            task: None,
        },
        receiver,
    )
}

type WsBound = Result<
    (
        tokio::task::JoinHandle<()>,
        tokio::sync::mpsc::UnboundedSender<()>,
    ),
    String,
>;

/// The outcome of a bind that went well: an acceptor that ends when its
/// signal is raised.
fn ws_bound(rt: &tokio::runtime::Runtime) -> WsBound {
    let (signal, mut wait) = unbounded_channel::<()>();
    let task = rt.spawn(async move {
        let _ = wait.recv().await;
    });
    Ok((task, signal))
}

/// Waits for the acceptor of a session whose stop has begun.
fn ws_wait(rt: &tokio::runtime::Runtime, server: &mut WebSocketServer) -> Result<(), String> {
    match server.server_handle.as_mut() {
        Some(task) => rt.block_on(task).map_err(|e| e.to_string()),
        None => Ok(()),
    }
}

fn ws_runtime() -> tokio::runtime::Runtime {
    tokio::runtime::Builder::new_current_thread()
        .build()
        .unwrap()
}

fn ws_send(server_id: &str, message: &str, target: Option<&str>) -> SendMessageParams {
    SendMessageParams {
        server_id: server_id.to_string(),
        message: message.to_string(),
        target_client_id: target.map(|t| t.to_string()),
    }
}

fn text_of(frame: Frame) -> String {
    match frame {
        Frame::Text(text) => text,
        other => panic!("unexpected {:?}", other),
    }
}

#[test]
fn ws_new_server_is_stopped_and_empty() {
    let server = WebSocketServer::new("0.0.0.0".to_string(), 8080, "w".to_string());
    assert!(!server.is_running());
    assert_eq!(server.get_client_count(), 0);
    assert_eq!(server.bind_address(), "0.0.0.0:8080");
}

#[test]
fn ws_failed_bind_is_a_bind_error() {
    let mut server = WebSocketServer::new("h".to_string(), 81, "w".to_string());
    let error = server.start(Err("in use".to_string())).unwrap_err();
    assert_eq!(error.kind, ErrorKind::BindError);
    assert_eq!(error.message, "Failed to bind to h:81: in use");
    assert!(!server.is_running());
}

#[test]
fn ws_second_start_with_same_id_is_a_duplicate() {
    let rt = ws_runtime();
    let mut manager = WebSocketServerManager::new();
    let first = new_websocket_server(
        &manager,
        StartServerParams {
            host: "h".to_string(),
            port: 1,
            server_id: Some("w".to_string()),
        },
    )
    .unwrap();
    assert_eq!(
        start_websocket_server(&mut manager, first, ws_bound(&rt)).unwrap(),
        "w"
    );
    let refused = new_websocket_server(
        &manager,
        StartServerParams {
            host: "h".to_string(),
            port: 2,
            server_id: Some("w".to_string()),
        },
    )
    .err()
    .unwrap();
    assert_eq!(refused.kind, ErrorKind::DuplicateId);
    assert_eq!(refused.message, "Server with ID w already exists");
    let late = WebSocketServer::new("h".to_string(), 2, "w".to_string());
    assert_eq!(
        start_websocket_server(&mut manager, late, ws_bound(&rt))
            .unwrap_err()
            .kind,
        ErrorKind::DuplicateId
    );
    let listed = get_websocket_servers(&manager).unwrap();
    assert_eq!(listed.len(), 1);
    assert_eq!(listed[0].port, 1);
    assert!(listed[0].is_running);
}

#[test]
fn ws_failed_bind_registers_nothing() {
    let mut manager = WebSocketServerManager::new();
    let server = prepare_websocket_server(&manager, "h".to_string(), 81, "w".to_string()).unwrap();
    let error =
        start_websocket_server(&mut manager, server, Err("in use".to_string())).unwrap_err();
    assert_eq!(error.kind, ErrorKind::BindError);
    assert_eq!(error.message, "Failed to bind to h:81: in use");
    assert!(get_websocket_servers(&manager).unwrap().is_empty());
}

#[test]
fn ws_empty_id_is_an_id_like_any_other_at_creation() {
    let rt = ws_runtime();
    let mut manager = WebSocketServerManager::new();
    let server = new_websocket_server(
        &manager,
        StartServerParams {
            host: "h".to_string(),
            port: 1,
            server_id: Some(String::new()),
        },
    )
    .unwrap();
    assert_eq!(
        start_websocket_server(&mut manager, server, ws_bound(&rt)).unwrap(),
        ""
    );
    assert_eq!(get_websocket_servers(&manager).unwrap().len(), 1);
    let nameless = WebSocketServer::new("h".to_string(), 2, String::new());
    let refused = start_websocket_server(&mut manager, nameless, ws_bound(&rt)).unwrap_err();
    assert_eq!(refused.kind, ErrorKind::DuplicateId);
    let mut other = WebSocketServerManager::new();
    let nameless = WebSocketServer::new("h".to_string(), 2, String::new());
    let error = start_websocket_server(&mut other, nameless, Err("in use".to_string()))
        .unwrap_err();
    assert_eq!(error.kind, ErrorKind::BindError);
}

#[test]
fn ws_stopping_needs_a_known_id() {
    let mut manager = WebSocketServerManager::default();
    assert_eq!(
        stop_websocket_server(&mut manager, None).err().unwrap().message,
        "Server ID is required"
    );
    assert_eq!(
        stop_websocket_server(&mut manager, Some(String::new()))
            .err()
            .unwrap()
            .message,
        "Server ID cannot be empty"
    );
    let unknown = stop_websocket_server(&mut manager, Some("w".to_string()))
        .err()
        .unwrap();
    assert_eq!(unknown.kind, ErrorKind::NotFound);
    assert_eq!(unknown.message, "Server with ID w not found");
}

#[test]
fn ws_stop_closes_every_peer() {
    let rt = ws_runtime();
    let mut manager = WebSocketServerManager::new();
    let server = prepare_websocket_server(&manager, "h".to_string(), 1, "w".to_string())
        .unwrap();
    start_websocket_server(&mut manager, server, ws_bound(&rt)).unwrap();
    let (one, mut first_queue) = ws_peer("c1", "10.0.0.1:1");
    let (two, mut second_queue) = ws_peer("c2", "10.0.0.2:2");
    handle_connection(&mut manager, "w", one).unwrap();
    handle_connection(&mut manager, "w", two).unwrap();

    let mut server = stop_websocket_server(&mut manager, Some("w".to_string())).unwrap();
    let joined = ws_wait(&rt, &mut server);
    server.stop(joined).unwrap();
    assert!(!server.is_running());
    assert_eq!(server.get_client_count(), 0);
    assert!(matches!(first_queue.try_recv(), Ok(Frame::Close)));
    assert!(matches!(second_queue.try_recv(), Ok(Frame::Close)));
    assert!(matches!(
        first_queue.try_recv(),
        Err(TryRecvError::Disconnected)
    ));
    assert!(get_websocket_servers(&manager).unwrap().is_empty());
    assert_eq!(
        stop_websocket_server(&mut manager, Some("w".to_string()))
            .err()
            .unwrap()
            .kind,
        ErrorKind::NotFound
    );
}

#[test]
fn ws_stop_hands_back_the_tasks_of_the_peers() {
    let rt = ws_runtime();
    let mut server = WebSocketServer::new("h".to_string(), 1, "w".to_string());
    server.start(ws_bound(&rt)).unwrap();
    let (sender, mut queue) = unbounded_channel::<Frame>();
    let (done, mut report) = unbounded_channel::<Vec<String>>();
    let task = rt.spawn(async move {
        let mut seen = Vec::new();
        while let Some(frame) = queue.recv().await {
            seen.push(format!("{:?}", frame));
        }
        let _ = done.send(seen);
    });
    server
        .add_client(WebSocketClient {
            id: "c1".to_string(),
            addr: "p".to_string(),
            sender,
            task: Some(task),
        })
        .unwrap();
    server.send_message_to_client("c1", "last words").unwrap();
    server.request_stop().unwrap();
    let joined = ws_wait(&rt, &mut server);
    let tasks = server.stop(joined).unwrap();
    assert_eq!(tasks.len(), 1);
    for task in tasks {
        rt.block_on(task).unwrap();
    }
    // the writer saw the message, then the closing message, then the end
    assert_eq!(
        report.try_recv().unwrap(),
        vec!["Text(\"last words\")".to_string(), "Close".to_string()]
    );
}

#[test]
fn ws_failed_wait_is_a_shutdown_timeout() {
    let rt = ws_runtime();
    let mut server = WebSocketServer::new("h".to_string(), 1, "w".to_string());
    server.start(ws_bound(&rt)).unwrap();
    let (client, mut queue) = ws_peer("c1", "p");
    server.add_client(client).unwrap();
    server.request_stop().unwrap();
    let error = server.stop(Err("cancelled".to_string())).unwrap_err();
    assert_eq!(error.kind, ErrorKind::ShutdownTimeout);
    assert_eq!(error.message, "Failed to stop server: cancelled");
    assert_eq!(server.get_client_count(), 1);
    assert!(!server.is_running());
    assert!(matches!(queue.try_recv(), Err(TryRecvError::Empty)));
}

#[test]
fn ws_session_that_is_not_running_cannot_be_stopped() {
    let rt = ws_runtime();
    let mut server = WebSocketServer::new("h".to_string(), 1, "w".to_string());
    let (client, mut queue) = ws_peer("c1", "p");
    server.add_client(client).unwrap();
    let error = server.request_stop().unwrap_err();
    assert_eq!(error.kind, ErrorKind::NotFound);
    assert_eq!(error.message, "Server with ID w is not running");
    let error = server.stop(Ok(())).unwrap_err();
    assert_eq!(error.kind, ErrorKind::NotFound);
    assert_eq!(server.get_client_count(), 1);
    assert!(matches!(queue.try_recv(), Err(TryRecvError::Empty)));

    server.start(ws_bound(&rt)).unwrap();
    server.request_stop().unwrap();
    let joined = ws_wait(&rt, &mut server);
    server.stop(joined).unwrap();
    assert!(matches!(queue.try_recv(), Ok(Frame::Close)));
    assert_eq!(server.request_stop().unwrap_err().kind, ErrorKind::NotFound);
    assert_eq!(server.stop(Ok(())).unwrap_err().kind, ErrorKind::NotFound);
}

#[test]
fn ws_failed_wait_keeps_the_session_registered() {
    let rt = ws_runtime();
    let mut manager = WebSocketServerManager::new();
    let server = prepare_websocket_server(&manager, "h".to_string(), 1, "w".to_string()).unwrap();
    start_websocket_server(&mut manager, server, ws_bound(&rt)).unwrap();
    let server = stop_websocket_server(&mut manager, Some("w".to_string())).unwrap();
    let error =
        complete_websocket_server_stop(&mut manager, server, Err("cancelled".to_string()))
            .unwrap_err();
    assert_eq!(error.kind, ErrorKind::ShutdownTimeout);
    let listed = get_websocket_servers(&manager).unwrap();
    assert_eq!(listed.len(), 1);
    assert!(!listed[0].is_running);
    let server = stop_websocket_server(&mut manager, Some("w".to_string())).unwrap();
    assert!(complete_websocket_server_stop(&mut manager, server, Ok(()))
        .unwrap()
        .is_empty());
    assert!(get_websocket_servers(&manager).unwrap().is_empty());
}

#[test]
fn ws_broadcast_counts_open_queues() {
    let mut server = WebSocketServer::new("h".to_string(), 1, "w".to_string());
    let (one, mut first_queue) = ws_peer("c1", "p");
    let (two, second_queue) = ws_peer("c2", "p");
    let (three, mut third_queue) = ws_peer("c3", "p");
    server.add_client(one).unwrap();
    server.add_client(two).unwrap();
    server.add_client(three).unwrap();
    assert_eq!(server.broadcast_message("hello").unwrap(), 3);
    drop(second_queue);
    assert_eq!(server.offer_to_all("x"), vec![true, false, true]);
    assert!(server.remove_client("c2"));
    assert_eq!(server.broadcast_message("bye").unwrap(), 2);
    assert_eq!(text_of(first_queue.try_recv().unwrap()), "hello");
    assert_eq!(text_of(first_queue.try_recv().unwrap()), "x");
    assert_eq!(text_of(first_queue.try_recv().unwrap()), "bye");
    assert_eq!(text_of(third_queue.try_recv().unwrap()), "hello");
}

#[test]
fn ws_send_to_one_peer() {
    let mut server = WebSocketServer::new("h".to_string(), 1, "w".to_string());
    let (one, mut queue) = ws_peer("c1", "p");
    server.add_client(one).unwrap();
    server.send_message_to_client("c1", "hi").unwrap();
    assert_eq!(text_of(queue.try_recv().unwrap()), "hi");
    let error = server.send_message_to_client("c9", "hi").unwrap_err();
    assert_eq!(error.kind, ErrorKind::NotFound);
    assert_eq!(error.message, "Client c9 not found");
    drop(queue);
    let error = server.send_message_to_client("c1", "hi").unwrap_err();
    assert_eq!(error.kind, ErrorKind::SendFailure);
    assert_eq!(
        error.message,
        "Failed to send message to client c1: channel closed"
    );
}

#[test]
fn ws_reader_tells_frames_apart() {
    let (event, proceed) = receive_step("c1", FrameOutcome::Message(Frame::Text("ping".to_string())));
    assert!(proceed);
    let record = WebSocketServerEvent::new("w".to_string(), event.unwrap(), "t".to_string());
    assert_eq!(record.event_type, "message_received");
    assert_eq!(record.client_id, "c1");
    assert_eq!(record.message, "ping");

    let (event, proceed) = receive_step(
        "c1",
        FrameOutcome::Message(Frame::Binary(vec![0xff, 0xfe, 0x00, 0x41])),
    );
    assert!(proceed);
    let record = WebSocketServerEvent::new("w".to_string(), event.unwrap(), "t".to_string());
    assert_eq!(record.event_type, "binary_received");
    assert_eq!(record.client_id, "c1");
    assert_eq!(record.message, "ff fe 00 41");

    // a binary message is binary even where its bytes would read as text
    let (event, proceed) = receive_step("c1", FrameOutcome::Message(Frame::Binary(b"hi".to_vec())));
    assert!(proceed);
    let record = WebSocketServerEvent::new("w".to_string(), event.unwrap(), "t".to_string());
    assert_eq!(record.event_type, "binary_received");
    assert_eq!(record.message, "68 69");

    let (event, proceed) = receive_step("c1", FrameOutcome::Message(Frame::Binary(Vec::new())));
    assert!(proceed);
    let record = WebSocketServerEvent::new("w".to_string(), event.unwrap(), "t".to_string());
    assert_eq!(record.message, "");

    let (event, proceed) = receive_step("c1", FrameOutcome::Message(Frame::Ping(vec![1])));
    assert!(proceed && event.is_none());
    let (event, proceed) = receive_step("c1", FrameOutcome::Message(Frame::Pong(vec![1])));
    assert!(proceed && event.is_none());

    let (event, proceed) = receive_step("c1", FrameOutcome::Message(Frame::Close));
    assert!(!proceed);
    let record = WebSocketServerEvent::new("w".to_string(), event.unwrap(), "t".to_string());
    assert_eq!(record.event_type, "client_disconnected");
    assert_eq!(record.message, "Client disconnected");

    let (event, proceed) = receive_step("c1", FrameOutcome::Failed("bad frame".to_string()));
    assert!(!proceed);
    let record = WebSocketServerEvent::stamped("w".to_string(), event.unwrap());
    assert_eq!(record.event_type, "error");
    assert_eq!(record.message, "Read error: bad frame");
    assert!(chrono::DateTime::parse_from_rfc3339(&record.timestamp).is_ok());

    let (event, proceed) = receive_step("c1", FrameOutcome::Ended);
    assert!(!proceed && event.is_none());
    let (event, proceed) = receive_step("c1", FrameOutcome::Shutdown);
    assert!(!proceed && event.is_none());
}

#[test]
fn ws_send_command_checks_in_order() {
    let rt = ws_runtime();
    let mut manager = WebSocketServerManager::new();
    let server = prepare_websocket_server(&manager, "h".to_string(), 1, "w".to_string()).unwrap();
    start_websocket_server(&mut manager, server, ws_bound(&rt)).unwrap();
    let (one, mut queue) = ws_peer("c1", "10.1.1.1:9");
    match handle_connection(&mut manager, "w", one).unwrap() {
        ServerEvent::ClientConnected { client_id, peer } => {
            assert_eq!(client_id, "c1");
            assert_eq!(peer, "10.1.1.1:9");
        }
        other => panic!("unexpected {:?}", other),
    }

    let error = send_websocket_message(&manager, ws_send("", "m", None)).unwrap_err();
    assert_eq!(error.message, "Server ID cannot be empty");
    let error = send_websocket_message(&manager, ws_send("w", "", None)).unwrap_err();
    assert_eq!(error.message, "Message cannot be empty");
    let error = send_websocket_message(&manager, ws_send("v", "m", None)).unwrap_err();
    assert_eq!(error.message, "Server with ID v not found");
    let error = send_websocket_message(&manager, ws_send("w", "m", Some("c7"))).unwrap_err();
    assert_eq!(error.kind, ErrorKind::NotFound);
    assert_eq!(error.message, "Client c7 not found");

    let report = send_websocket_message(&manager, ws_send("w", "48 65", Some("c1"))).unwrap();
    assert_eq!(report, "Message sent to client c1");
    assert_eq!(text_of(queue.try_recv().unwrap()), "48 65");
    let report = send_websocket_message(&manager, ws_send("w", "all", None)).unwrap();
    assert_eq!(report, "Message broadcast to 1 clients");
    assert_eq!(text_of(queue.try_recv().unwrap()), "all");

    let info = get_websocket_server_info(&manager, Some("w".to_string())).unwrap();
    assert_eq!(info.server_id, "w");
    assert_eq!(info.client_count, 1);
    assert!(info.is_running);
    assert!(drop_websocket_client(&mut manager, "w", "c1"));
    assert!(!drop_websocket_client(&mut manager, "w", "c1"));
    assert!(!drop_websocket_client(&mut manager, "v", "c1"));
    let report = send_websocket_message(&manager, ws_send("w", "all", None)).unwrap();
    assert_eq!(report, "Message broadcast to 0 clients");
}

#[test]
fn ws_info_needs_a_known_id() {
    let manager = WebSocketServerManager::new();
    assert_eq!(
        get_websocket_server_info(&manager, None)
            .err()
            .unwrap()
            .message,
        "Server ID is required"
    );
    assert_eq!(
        get_websocket_server_info(&manager, Some(String::new()))
            .err()
            .unwrap()
            .message,
        "Server ID cannot be empty"
    );
    assert_eq!(
        get_websocket_server_info(&manager, Some("w".to_string()))
            .err()
            .unwrap()
            .message,
        "Server with ID w not found"
    );
    let error = handle_connection(&mut WebSocketServerManager::new(), "w", ws_peer("c", "p").0)
        .unwrap_err();
    assert_eq!(error.message, "Server with ID w not found");
}
