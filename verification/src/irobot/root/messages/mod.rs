//! The records that the robot's replies decode into.
//!
//! Each record reads one notification at fixed offsets behind the three
//! bytes of its key. Numbers of more than one byte come most significant
//! byte first, as in the commands.

pub mod drive_arc_finished_response;
pub mod drive_distance_finished_response;
pub mod get_versions_response;
pub mod marker_finished_response;
pub mod rotate_angle_finished_response;

pub use self::drive_arc_finished_response::DriveArcFinishedResponse;
pub use self::drive_distance_finished_response::DriveDistanceFinishedResponse;
pub use self::get_versions_response::GetVersionsResponse;
pub use self::marker_finished_response::MarkerFinishedResponse;
pub use self::rotate_angle_finished_response::RotateAngleFinishedResponse;
