//! Turning a drawing into the robot's moves.

pub mod linearorchestrator;

pub use self::linearorchestrator::LinearOrchestrator;
pub use crate::utils::pointutils::Point;
