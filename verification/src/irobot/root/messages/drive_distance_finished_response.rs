use crate::irobot::root::endian::{be_i16, be_i32, be_u32, read_i16, read_i32, read_u32};
use crate::irobot::root::error::RootError;
use crate::irobot::root::root_robot::Message;
use vstd::prelude::*;

verus! {

/// What the robot reports when it has finished a straight drive.
#[derive(Debug, Clone, Copy, PartialEq, Eq)]
pub struct DriveDistanceFinishedResponse {
    /// Milliseconds on the robot's clock.
    pub timestamp: u32,
    /// Where the robot believes it is, in millimetres.
    pub x_coord: i32,
    pub y_coord: i32,
    /// Where it believes it points, in tenths of a degree.
    pub heading: i16,
}

impl DriveDistanceFinishedResponse {
    /// A notification has to be at least this long to hold the record.
    pub const LEN: usize = 17;

    /// The record that `data` holds, if it is long enough to hold one.
    pub open spec fn parse(data: Seq<u8>) -> Option<DriveDistanceFinishedResponse> {
        if data.len() >= Self::LEN {
            Some(
                DriveDistanceFinishedResponse {
                    timestamp: be_u32(data.subrange(3, 7)) as u32,
                    x_coord: be_i32(data.subrange(7, 11)) as i32,
                    y_coord: be_i32(data.subrange(11, 15)) as i32,
                    heading: be_i16(data.subrange(15, 17)) as i16,
                },
            )
        } else {
            None
        }
    }

    /// Decodes a notification; one that is too short is malformed.
    pub fn new(message: Message) -> (response: Result<DriveDistanceFinishedResponse, RootError>)
        ensures
            response is Ok <==> message@.len() >= Self::LEN,
            response == match Self::parse(message@) {
                Some(record) => Ok::<DriveDistanceFinishedResponse, RootError>(record),
                None => Err(RootError::MalformedResponse),
            },
    {
        if message.data.len() < Self::LEN {
            return Err(RootError::MalformedResponse);
        }
        Ok(
            DriveDistanceFinishedResponse {
                timestamp: read_u32(&message.data, 3),
                x_coord: read_i32(&message.data, 7),
                y_coord: read_i32(&message.data, 11),
                heading: read_i16(&message.data, 15),
            },
        )
    }
}

} // verus!
