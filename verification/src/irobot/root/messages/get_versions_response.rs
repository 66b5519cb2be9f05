use crate::irobot::root::error::RootError;
use crate::irobot::root::root_robot::Message;
use vstd::prelude::*;

verus! {

/// The versions of one of the robot's boards.
#[derive(Debug, Clone, Copy, PartialEq, Eq)]
pub struct GetVersionsResponse {
    pub board_id: u8,
    pub firmware_major_version: u8,
    pub firmware_minor_version: u8,
    pub hardware_major_version: u8,
    pub hardware_minor_version: u8,
    pub bootloader_major_version: u8,
    pub bootloader_minor_version: u8,
    pub protocol_major_version: u8,
    pub protocol_minor_version: u8,
    pub patch_number: u8,
}

impl GetVersionsResponse {
    /// A notification has to be at least this long to hold the record.
    pub const LEN: usize = 13;

    /// The record that `data` holds, if it is long enough to hold one.
    pub open spec fn parse(data: Seq<u8>) -> Option<GetVersionsResponse> {
        if data.len() >= Self::LEN {
            Some(
                GetVersionsResponse {
                    board_id: data[3],
                    firmware_major_version: data[4],
                    firmware_minor_version: data[5],
                    hardware_major_version: data[6],
                    hardware_minor_version: data[7],
                    bootloader_major_version: data[8],
                    bootloader_minor_version: data[9],
                    protocol_major_version: data[10],
                    protocol_minor_version: data[11],
                    patch_number: data[12],
                },
            )
        } else {
            None
        }
    }

    /// Decodes a notification; one that is too short is malformed.
    pub fn new(message: Message) -> (response: Result<GetVersionsResponse, RootError>)
        ensures
            response is Ok <==> message@.len() >= Self::LEN,
            response == match Self::parse(message@) {
                Some(record) => Ok::<GetVersionsResponse, RootError>(record),
                None => Err(RootError::MalformedResponse),
            },
    {
        if message.data.len() < Self::LEN {
            return Err(RootError::MalformedResponse);
        }
        Ok(
            GetVersionsResponse {
                board_id: message.data[3],
                firmware_major_version: message.data[4],
                firmware_minor_version: message.data[5],
                hardware_major_version: message.data[6],
                hardware_minor_version: message.data[7],
                bootloader_major_version: message.data[8],
                bootloader_minor_version: message.data[9],
                protocol_major_version: message.data[10],
                protocol_minor_version: message.data[11],
                patch_number: message.data[12],
            },
        )
    }
}

} // verus!
