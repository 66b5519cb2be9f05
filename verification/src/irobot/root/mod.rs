//! The Root robot: its wire protocol and the engine that speaks it.

pub mod endian;
pub mod error;
pub mod link;
pub mod messages;
pub mod packet;
pub mod root_robot;

pub use self::error::RootError;
pub use self::root_robot::is_root_robot;
pub use self::root_robot::LEDLightsState;
pub use self::root_robot::MarkerPosition;
pub use self::root_robot::Message;
pub use self::root_robot::RootRobot;
