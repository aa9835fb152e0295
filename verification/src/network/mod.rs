pub mod message;
pub mod sockets;
pub mod text;

pub use message::Message;
pub use sockets::Config;
