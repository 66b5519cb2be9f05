//! Pieces that the engine and the orchestrator are built from.

pub mod messagestorage;
pub mod pointutils;

pub use self::messagestorage::MessageStorage;
pub use self::messagestorage::Waited;
pub use self::pointutils::Point;
