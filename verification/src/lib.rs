//! A driver core for the iRobot Root drawing robot.
//!
//! The crate frames and checks the robot's 20-byte command packets, decodes
//! the replies it sends back, keeps the replies until the caller that waits
//! for them asks, and turns a drawing (strokes of waypoints) into the drive,
//! rotate and arc commands that the robot understands. Everything here is
//! plain computation: the radio link, the clock and the trigonometry belong
//! to the program around it.

pub mod irobot;
pub mod orchestrator;
pub mod utils;
