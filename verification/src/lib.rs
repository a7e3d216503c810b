pub mod components;
pub mod crypto;
pub mod error;
pub mod handlers;
pub mod modules;
pub mod net;
pub mod protocol;
