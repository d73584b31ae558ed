use socketor::error::ErrorKind;
use socketor::event::ClientEvent;
use socketor::udp_client::{
    get_udp_client_info, get_udp_clients, new_udp_client, prepare_udp_client, receive_step,
    send_udp_client_message, start_udp_client, stop_udp_client, DatagramOutcome,
    SendUdpClientMessageParams, StartUdpClientParams, UdpClient, UdpClientEvent,
    UdpClientManager, UdpClientState, UdpClientTasks,
};
use tokio::sync::mpsc::error::TryRecvError;
use tokio::sync::mpsc::{unbounded_channel, UnboundedReceiver};

type Target = (String, u16);

fn udp_runtime() -> tokio::runtime::Runtime {
    tokio::runtime::Builder::new_current_thread()
        .build()
        .unwrap()
}

fn udp_tasks(
    rt: &tokio::runtime::Runtime,
    actual_port: u16,
) -> (UdpClientTasks<Target>, UnboundedReceiver<(Vec<u8>, Target)>) {
    let (shutdown_sender, _) = tokio::sync::broadcast::channel::<()>(1);
    let (message_sender, queue) = unbounded_channel();
    let mut stop_reader = shutdown_sender.subscribe();
    let mut stop_writer = shutdown_sender.subscribe();
    let receive_handle = rt.spawn(async move {
        let _ = stop_reader.recv().await;
    });
    let send_handle = rt.spawn(async move {
        let _ = stop_writer.recv().await;
    });
    (
        UdpClientTasks {
            actual_port,
            receive_handle,
            send_handle,
            shutdown_sender,
            message_sender,
        },
        queue,
    )
}

fn started(
    rt: &tokio::runtime::Runtime,
    id: &str,
) -> (UdpClient<Target>, UnboundedReceiver<(Vec<u8>, Target)>) {
    let mut client = UdpClient::new(None, id.to_string());
    client.begin_start().unwrap();
    let (tasks, queue) = udp_tasks(rt, 50123);
    client.start(Ok(tasks)).unwrap();
    (client, queue)
}

/// Starts a session and registers it; the queue that its writer would drain
/// comes back.
fn register(
    rt: &tokio::runtime::Runtime,
    manager: &mut UdpClientManager<Target>,
    id: &str,
) -> UnboundedReceiver<(Vec<u8>, Target)> {
    let mut client = prepare_udp_client(manager, None, id.to_string()).unwrap();
    client.begin_start().unwrap();
    let (tasks, queue) = udp_tasks(rt, 50123);
    let (registered, event) = start_udp_client(manager, client, Ok(tasks)).unwrap();
    assert_eq!(registered, id);
    assert!(matches!(event, ClientEvent::Connected { .. }));
    queue
}

fn datagram(client_id: &str, message: &str, kind: Option<&str>) -> SendUdpClientMessageParams {
    SendUdpClientMessageParams {
        client_id: client_id.to_string(),
        target_host: "192.168.1.7".to_string(),
        target_port: 5353,
        message: message.to_string(),
        message_type: kind.map(|k| k.to_string()),
    }
}

fn target() -> Result<Target, String> {
    Ok(("192.168.1.7".to_string(), 5353))
}

#[test]
fn udp_session_binds_every_interface() {
    let any: UdpClient<Target> = UdpClient::new(None, "u".to_string());
    assert_eq!(any.bind_address(), "0.0.0.0:0");
    assert_eq!(any.actual_port, 0);
    assert_eq!(any.state, UdpClientState::Disconnected);
    let fixed: UdpClient<Target> = UdpClient::new(Some(5000), "u".to_string());
    assert_eq!(fixed.bind_address(), "0.0.0.0:5000");
    assert_eq!(fixed.local_port, Some(5000));
}

#[test]
fn udp_session_starts_on_the_port_it_got() {
    let rt = udp_runtime();
    let mut client: UdpClient<Target> = UdpClient::new(None, "u".to_string());
    assert_eq!(client.begin_start().unwrap(), "0.0.0.0:0");
    assert_eq!(client.state, UdpClientState::Connecting);
    let (tasks, _queue) = udp_tasks(&rt, 40001);
    let event = client.start(Ok(tasks)).unwrap();
    let record = UdpClientEvent::new("u".to_string(), event, "t".to_string());
    assert_eq!(record.event_type, "connected");
    assert_eq!(record.message, "UDP client started on port 40001");
    assert_eq!(client.actual_port, 40001);
    assert_eq!(client.state, UdpClientState::Connected);
    let again = client.begin_start().unwrap_err();
    assert_eq!(again.kind, ErrorKind::AlreadyConnected);
    assert_eq!(again.message, "Already started");
}

#[test]
fn udp_failed_bind_is_a_bind_error() {
    let mut client: UdpClient<Target> = UdpClient::new(Some(53), "u".to_string());
    client.begin_start().unwrap();
    let error = client.start(Err("denied".to_string())).unwrap_err();
    assert_eq!(error.kind, ErrorKind::BindError);
    assert_eq!(
        error.message,
        "Failed to bind UDP socket to 0.0.0.0:53: denied"
    );
    assert_eq!(client.state, UdpClientState::Error);
    assert_eq!(client.actual_port, 0);
}

#[test]
fn udp_send_names_its_destination() {
    let rt = udp_runtime();
    let (client, mut queue) = started(&rt, "u");
    client
        .send_message(b"a".to_vec(), ("10.0.0.1".to_string(), 1))
        .unwrap();
    client
        .send_message(b"b".to_vec(), ("10.0.0.2".to_string(), 2))
        .unwrap();
    assert_eq!(
        queue.try_recv().unwrap(),
        (b"a".to_vec(), ("10.0.0.1".to_string(), 1))
    );
    assert_eq!(
        queue.try_recv().unwrap(),
        (b"b".to_vec(), ("10.0.0.2".to_string(), 2))
    );
    drop(queue);
    let error = client
        .send_message(b"c".to_vec(), ("10.0.0.3".to_string(), 3))
        .unwrap_err();
    assert_eq!(error.kind, ErrorKind::SendFailure);
    assert_eq!(error.message, "Failed to send message: channel closed");
}

#[test]
fn udp_send_needs_a_started_session() {
    let client: UdpClient<Target> = UdpClient::new(None, "u".to_string());
    let error = client
        .send_message(b"x".to_vec(), ("h".to_string(), 1))
        .unwrap_err();
    assert_eq!(error.kind, ErrorKind::NotConnected);
    assert_eq!(error.message, "Not started");
    let rt = udp_runtime();
    let (mut client, _queue) = started(&rt, "u");
    client.message_sender = None;
    assert_eq!(
        client
            .send_message(b"x".to_vec(), ("h".to_string(), 1))
            .unwrap_err()
            .message,
        "Message sender not available"
    );
}

#[test]
fn udp_stop_ends_both_tasks() {
    let rt = udp_runtime();
    let (mut client, mut queue) = started(&rt, "u");
    let (reader, writer) = client.begin_stop();
    rt.block_on(reader.unwrap()).unwrap();
    rt.block_on(writer.unwrap()).unwrap();
    match client.stop().unwrap() {
        ClientEvent::Disconnected { message } => assert_eq!(message, "UDP client stopped"),
        other => panic!("unexpected {:?}", other),
    }
    assert_eq!(client.state, UdpClientState::Disconnected);
    assert_eq!(client.actual_port, 50123);
    assert_eq!(queue.try_recv(), Err(TryRecvError::Disconnected));
    assert!(client.stop().is_none());
    let (reader, writer) = client.begin_stop();
    assert!(reader.is_none() && writer.is_none());
}

#[test]
fn udp_reader_reports_the_sender() {
    let (event, proceed) = receive_step(DatagramOutcome::Datagram {
        data: b"hi".to_vec(),
        from: "10.0.0.5:777".to_string(),
    });
    assert!(proceed);
    let record = UdpClientEvent::new("u".to_string(), event.unwrap(), "t".to_string());
    assert_eq!(record.event_type, "message_received");
    assert_eq!(record.message, "From 10.0.0.5:777: hi");

    // an empty datagram ends nothing
    let (event, proceed) = receive_step(DatagramOutcome::Datagram {
        data: Vec::new(),
        from: "a:1".to_string(),
    });
    assert!(proceed);
    let record = UdpClientEvent::new("u".to_string(), event.unwrap(), "t".to_string());
    assert_eq!(record.message, "From a:1: ");

    let (event, _) = receive_step(DatagramOutcome::Datagram {
        data: vec![0xc0, 0x01],
        from: "a:1".to_string(),
    });
    let record = UdpClientEvent::new("u".to_string(), event.unwrap(), "t".to_string());
    assert_eq!(record.event_type, "binary_received");
    assert_eq!(record.message, "From a:1: c0 01");

    let (event, proceed) = receive_step(DatagramOutcome::Failed("unreachable".to_string()));
    assert!(!proceed);
    let record = UdpClientEvent::stamped("u".to_string(), event.unwrap());
    assert_eq!(record.event_type, "error");
    assert_eq!(record.message, "Read error: unreachable");
    assert!(chrono::DateTime::parse_from_rfc3339(&record.timestamp).is_ok());

    let (event, proceed) = receive_step(DatagramOutcome::Shutdown);
    assert!(!proceed && event.is_none());
}

#[test]
fn udp_ids_are_unique() {
    let rt = udp_runtime();
    let mut manager: UdpClientManager<Target> = UdpClientManager::new();
    let params = StartUdpClientParams {
        local_port: Some(7000),
        client_id: Some("u".to_string()),
    };
    let client = new_udp_client(&manager, params.clone()).unwrap();
    assert_eq!(client.local_port, Some(7000));
    let (id, event) = start_udp_client(&mut manager, client, Ok(udp_tasks(&rt, 7000).0)).unwrap();
    assert_eq!(id, "u");
    match event {
        ClientEvent::Connected { message } => {
            assert_eq!(message, "UDP client started on port 7000")
        }
        other => panic!("unexpected {:?}", other),
    }
    let refused = new_udp_client(&manager, params).err().unwrap();
    assert_eq!(refused.kind, ErrorKind::DuplicateId);
    assert_eq!(refused.message, "UDP client u already exists");
    let late: UdpClient<Target> = UdpClient::new(None, "u".to_string());
    let refused = start_udp_client(&mut manager, late, Ok(udp_tasks(&rt, 1).0))
        .err()
        .unwrap();
    assert_eq!(refused.kind, ErrorKind::DuplicateId);
    assert_eq!(get_udp_clients(&manager).unwrap().len(), 1);
    assert_eq!(
        get_udp_clients(&manager).unwrap()[0].state,
        UdpClientState::Connected
    );

    let unlucky = prepare_udp_client(&manager, Some(53), "x".to_string()).unwrap();
    let error = start_udp_client(&mut manager, unlucky, Err("denied".to_string()))
        .err()
        .unwrap();
    assert_eq!(error.kind, ErrorKind::BindError);
    assert_eq!(
        error.message,
        "Failed to bind UDP socket to 0.0.0.0:53: denied"
    );
    assert_eq!(get_udp_clients(&manager).unwrap().len(), 1);
    let fresh = new_udp_client(
        &manager,
        StartUdpClientParams {
            local_port: None,
            client_id: None,
        },
    )
    .unwrap();
    assert_eq!(fresh.client_id.len(), 36);
    assert!(prepare_udp_client(&manager, None, "v".to_string()).is_ok());
}

#[test]
fn udp_stop_command_takes_the_session_out() {
    let rt = udp_runtime();
    let mut manager: UdpClientManager<Target> = UdpClientManager::default();
    let _queue = register(&rt, &mut manager, "u");
    let info = get_udp_client_info(&manager, "u".to_string()).unwrap();
    assert_eq!(info.client_id, "u");
    assert_eq!(info.local_port, 50123);
    assert_eq!(info.state, UdpClientState::Connected);
    assert_eq!(get_udp_clients(&manager).unwrap()[0].local_port, 50123);

    let (mut client, (reader, writer)) = stop_udp_client(&mut manager, "u".to_string()).unwrap();
    rt.block_on(reader.unwrap()).unwrap();
    rt.block_on(writer.unwrap()).unwrap();
    assert!(client.stop().is_some());
    let again = stop_udp_client(&mut manager, "u".to_string()).err().unwrap();
    assert_eq!(again.kind, ErrorKind::NotFound);
    assert_eq!(again.message, "UDP client u not found");
    assert_eq!(
        get_udp_client_info(&manager, "u".to_string())
            .unwrap_err()
            .message,
        "UDP client u not found"
    );
}

#[test]
fn udp_send_command_checks_in_order() {
    let rt = udp_runtime();
    let mut manager: UdpClientManager<Target> = UdpClientManager::new();
    let mut queue = register(&rt, &mut manager, "u");

    let error = send_udp_client_message(
        &manager,
        datagram("nobody", "4g", Some("hex")),
        Err("invalid socket address syntax".to_string()),
    )
    .unwrap_err();
    assert_eq!(error.kind, ErrorKind::CodecError);
    assert_eq!(error.message, "Invalid hex characters: 4g");
    let error = send_udp_client_message(
        &manager,
        datagram("nobody", "48", Some("hex")),
        Err("invalid socket address syntax".to_string()),
    )
    .unwrap_err();
    assert_eq!(error.kind, ErrorKind::InvalidRequest);
    assert_eq!(
        error.message,
        "Invalid target address 192.168.1.7:5353: invalid socket address syntax"
    );
    let error =
        send_udp_client_message(&manager, datagram("nobody", "48", Some("hex")), target())
            .unwrap_err();
    assert_eq!(error.kind, ErrorKind::NotFound);
    assert_eq!(error.message, "UDP client nobody not found");
    assert_eq!(queue.try_recv(), Err(TryRecvError::Empty));

    send_udp_client_message(&manager, datagram("u", "48 65 6c 6c 6f", Some("hex")), target())
        .unwrap();
    assert_eq!(
        queue.try_recv().unwrap(),
        (b"Hello".to_vec(), ("192.168.1.7".to_string(), 5353))
    );
    send_udp_client_message(&manager, datagram("u", "hi", None), target()).unwrap();
    assert_eq!(
        queue.try_recv().unwrap(),
        (b"hi".to_vec(), ("192.168.1.7".to_string(), 5353))
    );
}
