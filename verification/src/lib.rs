pub mod codec;
pub mod error;
pub mod event;
pub mod handles;
pub mod laws;
pub mod menu;
pub mod pump;
pub mod registry;
pub mod services;
pub mod tcp_client;
pub mod tcp_server;
pub mod text;
pub mod udp_client;
pub mod websocket_server;
