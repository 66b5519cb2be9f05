//! What the engine reads of the radio link: which services the device at
//! the other end offers, which characteristics it has, and whether the link
//! is up.

use vstd::prelude::*;

verus! {

/// The service by which a Root robot makes itself known.
pub const ROOT_IDENTIFIER_UUID: u128 = 0x48c5d828_ac2a_442d_97a3_0c9822b04979;

/// The characteristic that takes the commands.
pub const ROOT_RX_CHARACTERISTIC: u128 = 0x6e400002_b5a3_f393_e0a9_e50e24dcca9e;

/// The characteristic that sends the replies.
pub const ROOT_TX_CHARACTERISTIC: u128 = 0x6e400003_b5a3_f393_e0a9_e50e24dcca9e;

/// The property bit of a characteristic that can indicate.
pub const INDICATE: u8 = 0x20;

/// One characteristic of the robot, as a scan of its services found it.
#[derive(Debug, Clone, Copy, PartialEq, Eq, Structural)]
pub struct Characteristic {
    pub uuid: u128,
    /// The property bits of the characteristic.
    pub properties: u8,
}

/// What the engine has to know of the radio link to a robot.
///
/// The program around the engine fills this in from its Bluetooth stack:
/// the services and characteristics in the order in which the stack lists
/// them, and whether the link is up right now.
#[derive(Debug, PartialEq, Eq)]
pub struct Peripheral {
    pub connected: bool,
    /// The UUIDs of the services that the device offers.
    pub services: Vec<u128>,
    pub characteristics: Vec<Characteristic>,
}

/// The two directions of the link.
#[derive(Debug, Clone, Copy, PartialEq, Eq, Structural)]
pub enum Channel {
    /// From the program to the robot.
    Commands,
    /// From the robot to the program.
    Replies,
}

/// Whether `characteristic` can carry `channel`: commands go to the RX
/// characteristic, replies come from the TX characteristic if it can indicate.
pub open spec fn serves(characteristic: Characteristic, channel: Channel) -> bool {
    match channel {
        Channel::Commands => characteristic.uuid == ROOT_RX_CHARACTERISTIC,
        Channel::Replies => characteristic.uuid == ROOT_TX_CHARACTERISTIC
            && characteristic.properties & INDICATE == INDICATE,
    }
}

/// Whether `at` is the first of `characteristics` that can carry `channel`.
pub open spec fn first_serving(
    characteristics: Seq<Characteristic>,
    channel: Channel,
    at: int,
) -> bool {
    &&& 0 <= at < characteristics.len()
    &&& serves(characteristics[at], channel)
    &&& forall|earlier: int| 0 <= earlier < at ==> !serves(#[trigger] characteristics[earlier], channel)
}

/// Whether none of `characteristics` can carry `channel`.
pub open spec fn none_serving(characteristics: Seq<Characteristic>, channel: Channel) -> bool {
    forall|any: int|
        0 <= any < characteristics.len() ==> !serves(#[trigger] characteristics[any], channel)
}

/// Whether one of the services is the one that marks a Root robot.
pub open spec fn offers_root_service(services: Seq<u128>) -> bool {
    exists|at: int| 0 <= at < services.len() && #[trigger] services[at] == ROOT_IDENTIFIER_UUID
}

/// Tells whether the device at the other end of the link is a Root robot.
pub fn is_root_robot(peripheral: &Peripheral) -> (root: bool)
    ensures
        root == offers_root_service(peripheral.services@),
{
    let mut at: usize = 0;
    while at < peripheral.services.len()
        invariant
            at <= peripheral.services@.len(),
            forall|seen: int| 0 <= seen < at ==> peripheral.services@[seen] != ROOT_IDENTIFIER_UUID,
        decreases peripheral.services@.len() - at,
    {
        if peripheral.services[at] == ROOT_IDENTIFIER_UUID {
            return true;
        }
        at += 1;
    }
    false
}

/// Finds the first characteristic that can carry `channel`.
pub fn find_characteristic(characteristics: &Vec<Characteristic>, channel: Channel) -> (found:
    Option<usize>)
    ensures
        match found {
            Some(at) => first_serving(characteristics@, channel, at as int),
            None => none_serving(characteristics@, channel),
        },
{
    let mut at: usize = 0;
    while at < characteristics.len()
        invariant
            at <= characteristics@.len(),
            forall|seen: int| 0 <= seen < at ==> !serves(#[trigger] characteristics@[seen], channel),
        decreases characteristics@.len() - at,
    {
        let candidate = characteristics[at];
        let fits = match channel {
            Channel::Commands => candidate.uuid == ROOT_RX_CHARACTERISTIC,
            Channel::Replies => candidate.uuid == ROOT_TX_CHARACTERISTIC && candidate.properties
                & INDICATE == INDICATE,
        };
        if fits {
            return Some(at);
        }
        at += 1;
    }
    None
}

} // verus!
