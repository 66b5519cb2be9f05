use crate::irobot::root::error::RootError;
use crate::irobot::root::root_robot::Message;
use vstd::prelude::*;

verus! {

/// What the robot reports when the marker has reached its new position.
#[derive(Debug, Clone, Copy, PartialEq, Eq)]
pub struct MarkerFinishedResponse {
    /// 0 with the marker up, 1 with the marker down.
    pub position: u8,
}

impl MarkerFinishedResponse {
    /// A notification has to be at least this long to hold the record.
    pub const LEN: usize = 4;

    /// The record that `data` holds, if it is long enough to hold one.
    pub open spec fn parse(data: Seq<u8>) -> Option<MarkerFinishedResponse> {
        if data.len() >= Self::LEN {
            Some(MarkerFinishedResponse { position: data[3] })
        } else {
            None
        }
    }

    /// Decodes a notification; one that is too short is malformed.
    pub fn new(message: Message) -> (response: Result<MarkerFinishedResponse, RootError>)
        ensures
            response is Ok <==> message@.len() >= Self::LEN,
            response == match Self::parse(message@) {
                Some(record) => Ok::<MarkerFinishedResponse, RootError>(record),
                None => Err(RootError::MalformedResponse),
            },
    {
        if message.data.len() < Self::LEN {
            return Err(RootError::MalformedResponse);
        }
        Ok(MarkerFinishedResponse { position: message.data[3] })
    }
}

} // verus!
