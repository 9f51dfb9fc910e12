pub mod lookup;
pub mod message;
pub mod doh;
pub mod wire;
pub mod settings;
pub mod utils;
pub mod cache;
pub mod custom;
pub mod server;
