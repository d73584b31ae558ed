use socketor::services::communication::{show_message, ActionResult, MessageType};
use socketor::services::tcp_client::TcpClientInstance;
use socketor::services::tcp_server::{
    handle_incoming_connection, is_tcp_server_running, start_tcp_server, stop_tcp_server,
    stop_tcp_server_base, Incoming, ServerInstances, TcpServerInstance,
};

#[test]
fn message_item_keeps_text_and_kind() {
    let item = show_message("hello", MessageType::Send);
    assert_eq!(item.content, "hello");
    assert_eq!(item.msg_type, MessageType::Send);
    let item = show_message("", MessageType::Receive);
    assert_eq!(item.content, "");
    assert_eq!(item.msg_type, MessageType::Receive);
}

#[test]
fn action_result_tells_success_from_failure() {
    let ok = ActionResult::succeeded();
    assert!(ok.success);
    assert_eq!(ok.error_message, "");
    let bad = ActionResult::failed("no".to_string());
    assert!(!bad.success);
    assert_eq!(bad.error_message, "no");
}

#[test]
fn window_server_starts_once_per_window() {
    let mut table: ServerInstances<u32> = ServerInstances::new();
    assert!(!is_tcp_server_running(&table, "main"));
    let started = start_tcp_server(&mut table, "main", "127.0.0.1:9000", Ok("127.0.0.1:9000".to_string()));
    assert!(started.success);
    assert_eq!(started.error_message, "");
    assert!(is_tcp_server_running(&table, "main"));
    assert!(!is_tcp_server_running(&table, "other"));

    let again = start_tcp_server(&mut table, "main", "127.0.0.1:9001", Ok("127.0.0.1:9001".to_string()));
    assert!(!again.success);
    assert_eq!(again.error_message, "Server main already exists");
}

#[test]
fn window_server_is_not_registered_when_bind_fails() {
    let mut table: ServerInstances<u32> = ServerInstances::new();
    let failed = start_tcp_server(&mut table, "main", "1.2.3.4:1", Err("address not available".to_string()));
    assert!(!failed.success);
    assert_eq!(failed.error_message, "address not available");
    assert!(!is_tcp_server_running(&table, "main"));
    let instance: TcpServerInstance<u32> = TcpServerInstance::new("main", "1.2.3.4:1");
    assert_eq!(instance.bind_target(), "1.2.3.4:1");
    assert_eq!(
        instance.init(&mut table, Err("down".to_string())),
        Err("down".to_string())
    );
    assert!(!is_tcp_server_running(&table, "main"));
}

#[test]
fn window_server_keeps_streams_until_it_stops() {
    let mut table: ServerInstances<u32> = ServerInstances::new();
    start_tcp_server(&mut table, "a", "h:1", Ok("127.0.0.1:1".to_string()));
    start_tcp_server(&mut table, "b", "h:2", Ok("127.0.0.1:2".to_string()));
    match handle_incoming_connection(&mut table, "a", Some(11)) {
        Incoming::Accepted(item) => {
            assert_eq!(item.content, "\u{65b0}\u{7684}\u{5ba2}\u{6237}\u{7aef}\u{8fde}\u{63a5}");
            assert_eq!(item.msg_type, MessageType::Log);
        }
        other => panic!("unexpected {:?}", other),
    }
    assert!(matches!(
        handle_incoming_connection(&mut table, "b", Some(21)),
        Incoming::Accepted(_)
    ));
    assert!(matches!(
        handle_incoming_connection(&mut table, "a", None),
        Incoming::Failed
    ));
    assert!(matches!(
        handle_incoming_connection(&mut table, "a", Some(12)),
        Incoming::Accepted(_)
    ));
    assert!(matches!(
        handle_incoming_connection(&mut table, "c", Some(31)),
        Incoming::Stop
    ));

    let plan = stop_tcp_server_base(&mut table, "a");
    assert!(plan.result.success);
    assert_eq!(plan.result.error_message, "");
    assert_eq!(plan.wake, Some("127.0.0.1:1".to_string()));
    assert_eq!(plan.clients, vec![11, 12]);
    assert!(!is_tcp_server_running(&table, "a"));
    assert!(is_tcp_server_running(&table, "b"));
    // the thread that wakes finds its server gone
    assert!(matches!(
        handle_incoming_connection(&mut table, "a", Some(13)),
        Incoming::Stop
    ));

    let plan = stop_tcp_server(&mut table, "b");
    assert!(plan.result.success);
    assert_eq!(plan.clients, vec![21]);
}

#[test]
fn stopping_a_window_without_server_fails() {
    let mut table: ServerInstances<u32> = ServerInstances::new();
    let plan = stop_tcp_server(&mut table, "main");
    assert!(!plan.result.success);
    assert_eq!(
        plan.result.error_message,
        "\u{672a}\u{627e}\u{5230}\u{5b9e}\u{4f8b}"
    );
    assert!(plan.wake.is_none());
    assert!(plan.clients.is_empty());
    start_tcp_server(&mut table, "main", "h:1", Ok("h:1".to_string()));
    assert!(stop_tcp_server_base(&mut table, "main").result.success);
    assert!(!stop_tcp_server_base(&mut table, "main").result.success);
}

#[test]
fn window_client_keeps_its_stream() {
    let mut client: TcpClientInstance<u8> = TcpClientInstance::new("main", "10.0.0.1:80");
    assert_eq!(client.target(), "10.0.0.1:80");
    assert_eq!(client.connect(Err("refused".to_string())), Err("refused".to_string()));
    assert_eq!(client.connect(Ok(5)), Ok(()));
}
