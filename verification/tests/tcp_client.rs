use socketor::error::ErrorKind;
use socketor::event::ClientEvent;
use socketor::pump::ReadOutcome;
use socketor::tcp_client::{
    connect_tcp_client, disconnect_tcp_client, get_tcp_client_info, get_tcp_clients,
    new_tcp_client, prepare_tcp_client, receive_step, send_tcp_client_message,
    ConnectTcpClientParams, SendTcpClientMessageParams, TcpClient, TcpClientEvent,
    TcpClientManager, TcpClientState, TcpClientTasks,
};
use tokio::sync::mpsc::error::TryRecvError;
use tokio::sync::mpsc::{unbounded_channel, UnboundedReceiver};

fn client_runtime() -> tokio::runtime::Runtime {
    tokio::runtime::Builder::new_current_thread()
        .build()
        .unwrap()
}

fn tasks(rt: &tokio::runtime::Runtime) -> (TcpClientTasks, UnboundedReceiver<Vec<u8>>) {
    let (shutdown_sender, _) = tokio::sync::broadcast::channel::<()>(1);
    let (message_sender, queue) = unbounded_channel();
    let mut stop_reader = shutdown_sender.subscribe();
    let mut stop_writer = shutdown_sender.subscribe();
    let receive_handle = rt.spawn(async move {
        let _ = stop_reader.recv().await;
    });
    let send_handle = rt.spawn(async move {
        let _ = stop_writer.recv().await;
    });
    (
        TcpClientTasks {
            receive_handle,
            send_handle,
            shutdown_sender,
            message_sender,
        },
        queue,
    )
}

fn connected(rt: &tokio::runtime::Runtime, id: &str) -> (TcpClient, UnboundedReceiver<Vec<u8>>) {
    let mut client = TcpClient::new("example.org".to_string(), 4000, id.to_string());
    assert_eq!(client.begin_connect().unwrap(), "example.org:4000");
    let (tasks, queue) = tasks(rt);
    client.connect(Ok(tasks)).unwrap();
    (client, queue)
}

/// Connects a session and registers it; the queue that its writer would
/// drain comes back.
fn register(
    rt: &tokio::runtime::Runtime,
    manager: &mut TcpClientManager,
    id: &str,
) -> UnboundedReceiver<Vec<u8>> {
    let mut client = prepare_tcp_client(manager, "example.org".to_string(), 4000, id.to_string())
        .unwrap();
    assert_eq!(client.begin_connect().unwrap(), "example.org:4000");
    let (tasks, queue) = tasks(rt);
    let (registered, event) = connect_tcp_client(manager, client, Ok(tasks)).unwrap();
    assert_eq!(registered, id);
    assert!(matches!(event, ClientEvent::Connected { .. }));
    queue
}

fn message(client_id: &str, message: &str, kind: Option<&str>) -> SendTcpClientMessageParams {
    SendTcpClientMessageParams {
        client_id: client_id.to_string(),
        message: message.to_string(),
        message_type: kind.map(|k| k.to_string()),
    }
}

#[test]
fn client_starts_disconnected() {
    let client = TcpClient::new("h".to_string(), 1, "c".to_string());
    assert_eq!(client.state, TcpClientState::Disconnected);
    assert!(client.receive_handle.is_none());
    assert!(client.send_handle.is_none());
    assert!(client.shutdown_sender.is_none());
    assert!(client.message_sender.is_none());
    assert_eq!(client.target_address(), "h:1");
}

#[test]
fn client_goes_through_connecting_to_connected() {
    let rt = client_runtime();
    let mut client = TcpClient::new("h".to_string(), 21, "c".to_string());
    assert_eq!(client.begin_connect().unwrap(), "h:21");
    assert_eq!(client.state, TcpClientState::Connecting);
    let (tasks, _queue) = tasks(&rt);
    match client.connect(Ok(tasks)).unwrap() {
        ClientEvent::Connected { message } => assert_eq!(message, "Connected to h:21"),
        other => panic!("unexpected {:?}", other),
    }
    assert_eq!(client.state, TcpClientState::Connected);
    assert!(client.message_sender.is_some());
    let again = client.begin_connect().unwrap_err();
    assert_eq!(again.kind, ErrorKind::AlreadyConnected);
    assert_eq!(again.message, "Already connected");
    assert_eq!(client.state, TcpClientState::Connected);
}

#[test]
fn failed_connect_is_a_connect_error() {
    let mut client = TcpClient::new("h".to_string(), 21, "c".to_string());
    client.begin_connect().unwrap();
    let error = client.connect(Err("refused".to_string())).unwrap_err();
    assert_eq!(error.kind, ErrorKind::ConnectError);
    assert_eq!(error.message, "Failed to connect to h:21: refused");
    assert_eq!(client.state, TcpClientState::Error);
    // a failed session may try again
    assert_eq!(client.begin_connect().unwrap(), "h:21");
    assert_eq!(client.state, TcpClientState::Connecting);
}

#[test]
fn send_needs_a_connected_session() {
    let rt = client_runtime();
    let mut client = TcpClient::new("h".to_string(), 1, "c".to_string());
    let error = client.send_message(b"x".to_vec()).unwrap_err();
    assert_eq!(error.kind, ErrorKind::NotConnected);
    assert_eq!(error.message, "Not connected");
    client.begin_connect().unwrap();
    assert_eq!(
        client.send_message(b"x".to_vec()).unwrap_err().message,
        "Not connected"
    );

    let (mut client, mut queue) = connected(&rt, "c");
    client.send_message(b"one".to_vec()).unwrap();
    client.send_message(b"two".to_vec()).unwrap();
    assert_eq!(queue.try_recv().unwrap(), b"one".to_vec());
    assert_eq!(queue.try_recv().unwrap(), b"two".to_vec());

    drop(queue);
    let error = client.send_message(b"x".to_vec()).unwrap_err();
    assert_eq!(error.kind, ErrorKind::SendFailure);
    assert_eq!(error.message, "Failed to send message: channel closed");

    client.message_sender = None;
    let error = client.send_message(b"x".to_vec()).unwrap_err();
    assert_eq!(error.kind, ErrorKind::NotConnected);
    assert_eq!(error.message, "Message sender not available");
}

#[test]
fn disconnect_ends_both_tasks() {
    let rt = client_runtime();
    let (mut client, mut queue) = connected(&rt, "c");
    let (reader, writer) = client.begin_disconnect();
    assert_eq!(client.state, TcpClientState::Connected);
    // both tasks end because the signal was raised
    rt.block_on(reader.unwrap()).unwrap();
    rt.block_on(writer.unwrap()).unwrap();
    match client.disconnect().unwrap() {
        ClientEvent::Disconnected { message } => assert_eq!(message, "Disconnected from server"),
        other => panic!("unexpected {:?}", other),
    }
    assert_eq!(client.state, TcpClientState::Disconnected);
    assert!(client.shutdown_sender.is_none());
    assert!(client.message_sender.is_none());
    assert_eq!(queue.try_recv(), Err(TryRecvError::Disconnected));
    assert_eq!(
        client.send_message(b"x".to_vec()).unwrap_err().message,
        "Not connected"
    );
}

#[test]
fn disconnect_of_an_idle_session_does_nothing() {
    let mut client = TcpClient::new("h".to_string(), 1, "c".to_string());
    let (reader, writer) = client.begin_disconnect();
    assert!(reader.is_none() && writer.is_none());
    assert!(client.disconnect().is_none());
    assert_eq!(client.state, TcpClientState::Disconnected);
    client.begin_connect().unwrap();
    client.connect(Err("x".to_string())).unwrap_err();
    assert!(client.disconnect().is_none());
    assert_eq!(client.state, TcpClientState::Error);
}

#[test]
fn client_reader_reports_what_it_read() {
    let (event, proceed) = receive_step(ReadOutcome::Data(b"pong".to_vec()));
    assert!(proceed);
    let record = TcpClientEvent::new("c".to_string(), event.unwrap(), "t".to_string());
    assert_eq!(record.client_id, "c");
    assert_eq!(record.event_type, "message_received");
    assert_eq!(record.message, "pong");
    assert_eq!(record.timestamp, "t");

    let (event, proceed) = receive_step(ReadOutcome::Data(vec![0xff, 0xfe]));
    assert!(proceed);
    let record = TcpClientEvent::new("c".to_string(), event.unwrap(), "t".to_string());
    assert_eq!(record.event_type, "binary_received");
    assert_eq!(record.message, "ff fe");

    let (event, proceed) = receive_step(ReadOutcome::Closed);
    assert!(!proceed);
    let record = TcpClientEvent::new("c".to_string(), event.unwrap(), "t".to_string());
    assert_eq!(record.event_type, "disconnected");
    assert_eq!(record.message, "Connection closed by server");

    let (event, proceed) = receive_step(ReadOutcome::Failed("timed out".to_string()));
    assert!(!proceed);
    let record = TcpClientEvent::stamped("c".to_string(), event.unwrap());
    assert_eq!(record.event_type, "error");
    assert_eq!(record.message, "Read error: timed out");
    assert!(chrono::DateTime::parse_from_rfc3339(&record.timestamp).is_ok());

    let (event, proceed) = receive_step(ReadOutcome::Shutdown);
    assert!(!proceed && event.is_none());
}

#[test]
fn connected_event_crosses_as_connected() {
    let rt = client_runtime();
    let mut client = TcpClient::new("h".to_string(), 5, "c".to_string());
    client.begin_connect().unwrap();
    let event = client.connect(Ok(tasks(&rt).0)).unwrap();
    let record = TcpClientEvent::new("c".to_string(), event, "t".to_string());
    assert_eq!(record.event_type, "connected");
    assert_eq!(record.message, "Connected to h:5");
}

#[test]
fn client_ids_are_unique() {
    let rt = client_runtime();
    let mut manager = TcpClientManager::new();
    let params = ConnectTcpClientParams {
        host: "h".to_string(),
        port: 9,
        client_id: Some("c".to_string()),
    };
    let client = new_tcp_client(&manager, params.clone()).unwrap();
    assert_eq!(client.client_id, "c");
    assert_eq!(client.host, "h");
    assert_eq!(client.port, 9);
    let (id, event) = connect_tcp_client(&mut manager, client, Ok(tasks(&rt).0)).unwrap();
    assert_eq!(id, "c");
    match event {
        ClientEvent::Connected { message } => assert_eq!(message, "Connected to h:9"),
        other => panic!("unexpected {:?}", other),
    }
    let refused = new_tcp_client(&manager, params).err().unwrap();
    assert_eq!(refused.kind, ErrorKind::DuplicateId);
    assert_eq!(refused.message, "TCP client c already exists");
    let late = TcpClient::new("h".to_string(), 9, "c".to_string());
    let refused = connect_tcp_client(&mut manager, late, Ok(tasks(&rt).0))
        .err()
        .unwrap();
    assert_eq!(refused.kind, ErrorKind::DuplicateId);
    assert_eq!(get_tcp_clients(&manager).unwrap().len(), 1);
    assert_eq!(
        get_tcp_clients(&manager).unwrap()[0].state,
        TcpClientState::Connected
    );

    let fresh = new_tcp_client(
        &manager,
        ConnectTcpClientParams {
            host: "h".to_string(),
            port: 9,
            client_id: None,
        },
    )
    .unwrap();
    assert_eq!(fresh.client_id.len(), 36);
    assert!(prepare_tcp_client(&manager, "h".to_string(), 1, "d".to_string()).is_ok());
}

#[test]
fn disconnect_command_takes_the_session_out() {
    let rt = client_runtime();
    let mut manager = TcpClientManager::default();
    let _queue = register(&rt, &mut manager, "c");
    let info = get_tcp_client_info(&manager, "c".to_string()).unwrap();
    assert_eq!(info.client_id, "c");
    assert_eq!(info.host, "example.org");
    assert_eq!(info.port, 4000);
    assert_eq!(info.state, TcpClientState::Connected);

    let (mut client, (reader, writer)) = disconnect_tcp_client(&mut manager, "c".to_string()).unwrap();
    rt.block_on(reader.unwrap()).unwrap();
    rt.block_on(writer.unwrap()).unwrap();
    assert!(client.disconnect().is_some());
    assert!(get_tcp_clients(&manager).unwrap().is_empty());

    let again = disconnect_tcp_client(&mut manager, "c".to_string())
        .err()
        .unwrap();
    assert_eq!(again.kind, ErrorKind::NotFound);
    assert_eq!(again.message, "TCP client c not found");
    let unknown = get_tcp_client_info(&manager, "c".to_string()).unwrap_err();
    assert_eq!(unknown.message, "TCP client c not found");
}

#[test]
fn client_send_command_checks_in_order() {
    let rt = client_runtime();
    let mut manager = TcpClientManager::new();
    let mut queue = register(&rt, &mut manager, "c");

    // the codec is asked before the registry
    let error = send_tcp_client_message(&manager, message("nobody", "4g", Some("hex"))).unwrap_err();
    assert_eq!(error.kind, ErrorKind::CodecError);
    assert_eq!(error.message, "Invalid hex characters: 4g");
    let error = send_tcp_client_message(&manager, message("c", "48 6", Some("hex"))).unwrap_err();
    assert_eq!(
        error.message,
        "Hex token must have an even number of characters: 6"
    );
    let error = send_tcp_client_message(&manager, message("nobody", "48", Some("hex"))).unwrap_err();
    assert_eq!(error.kind, ErrorKind::NotFound);
    assert_eq!(error.message, "TCP client nobody not found");
    assert_eq!(queue.try_recv(), Err(TryRecvError::Empty));

    send_tcp_client_message(&manager, message("c", "48 65 6c 6c 6f", Some("hex"))).unwrap();
    assert_eq!(queue.try_recv().unwrap(), b"Hello".to_vec());
    send_tcp_client_message(&manager, message("c", "48\n65\t6c", Some("hex"))).unwrap();
    assert_eq!(queue.try_recv().unwrap(), b"Hel".to_vec());
    send_tcp_client_message(&manager, message("c", "48 65", None)).unwrap();
    assert_eq!(queue.try_recv().unwrap(), b"48 65".to_vec());
    send_tcp_client_message(&manager, message("c", "", Some("text"))).unwrap();
    assert_eq!(queue.try_recv().unwrap(), Vec::<u8>::new());
}

#[test]
fn failed_connect_registers_nothing() {
    let mut manager = TcpClientManager::new();
    let mut client = prepare_tcp_client(&manager, "h".to_string(), 1, "c".to_string()).unwrap();
    client.begin_connect().unwrap();
    let error = connect_tcp_client(&mut manager, client, Err("refused".to_string()))
        .err()
        .unwrap();
    assert_eq!(error.kind, ErrorKind::ConnectError);
    assert_eq!(error.message, "Failed to connect to h:1: refused");
    assert!(get_tcp_clients(&manager).unwrap().is_empty());
    let error = send_tcp_client_message(&manager, message("c", "x", None)).unwrap_err();
    assert_eq!(error.kind, ErrorKind::NotFound);
}
