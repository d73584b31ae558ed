pub mod communication;
pub mod tcp_client;
pub mod tcp_server;
