pub mod keepalive;
pub mod net;
