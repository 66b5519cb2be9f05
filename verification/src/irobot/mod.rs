//! Robots made by iRobot.

pub mod root;
