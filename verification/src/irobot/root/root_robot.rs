//! The engine of the Root robot: how each command is spelled, which reply
//! it waits for, and what becomes of each notification that comes in.

use crate::irobot::root::endian::{i32_be_bytes, push_i32};
use crate::irobot::root::error::RootError;
use crate::irobot::root::link::{find_characteristic, first_serving, none_serving};
use crate::utils::messagestorage::{wait_outcome, MessageStorage, Waited};
use vstd::prelude::*;
use vstd::string::*;

pub use crate::irobot::root::link::is_root_robot;
pub use crate::irobot::root::link::Channel;
pub use crate::irobot::root::link::Characteristic;
pub use crate::irobot::root::link::Peripheral;
pub use crate::irobot::root::packet::build_checked_packet;
pub use crate::irobot::root::packet::checked_packet;
pub use crate::irobot::root::packet::PACKET_LEN;

verus! {

/// The board that the version query asks about: the main board.
pub const MAIN_BOARD: u8 = 0xA5;

/// A cliff report carries what the sensor saw at this offset.
pub const CLIFF_VALUE_OFFSET: usize = 7;

/// The longest phrase that fits a packet behind the three bytes of its header.
pub const MAX_PHRASE_LEN: usize = 15;

/// Where the marker is held.
#[derive(Debug, Clone, Copy, PartialEq, Eq, Structural)]
pub enum MarkerPosition {
    NothingDown,
    MarkerDown,
}

impl MarkerPosition {
    /// The byte that stands for the position on the wire.
    pub open spec fn wire(self) -> u8 {
        match self {
            MarkerPosition::NothingDown => 0x00,
            MarkerPosition::MarkerDown => 0x01,
        }
    }

    #[verifier::when_used_as_spec(wire)]
    pub fn code(self) -> (byte: u8)
        ensures
            byte == self.wire(),
    {
        match self {
            MarkerPosition::NothingDown => 0x00,
            MarkerPosition::MarkerDown => 0x01,
        }
    }
}

/// The parts of the robot that take commands and send notifications.
#[derive(Debug, Clone, Copy, PartialEq, Eq, Structural)]
pub enum RootDeviceId {
    General,
    Motors,
    Marker,
    LEDLights,
    Sound,
    CliffSensor,
}

impl RootDeviceId {
    /// The byte that stands for the device on the wire.
    pub open spec fn wire(self) -> u8 {
        match self {
            RootDeviceId::General => 0x00,
            RootDeviceId::Motors => 0x01,
            RootDeviceId::Marker => 0x02,
            RootDeviceId::LEDLights => 0x03,
            RootDeviceId::Sound => 0x05,
            RootDeviceId::CliffSensor => 0x14,
        }
    }

    #[verifier::when_used_as_spec(wire)]
    pub fn code(self) -> (byte: u8)
        ensures
            byte == self.wire(),
    {
        match self {
            RootDeviceId::General => 0x00,
            RootDeviceId::Motors => 0x01,
            RootDeviceId::Marker => 0x02,
            RootDeviceId::LEDLights => 0x03,
            RootDeviceId::Sound => 0x05,
            RootDeviceId::CliffSensor => 0x14,
        }
    }
}

/// What the cross of lights does.
#[derive(Debug, Clone, Copy, PartialEq, Eq, Structural)]
pub enum LEDLightsState {
    Off,
    On,
    Blink,
    Spin,
}

impl LEDLightsState {
    /// The byte that stands for the animation on the wire.
    pub open spec fn wire(self) -> u8 {
        match self {
            LEDLightsState::Off => 0x00,
            LEDLightsState::On => 0x01,
            LEDLightsState::Blink => 0x02,
            LEDLightsState::Spin => 0x03,
        }
    }

    #[verifier::when_used_as_spec(wire)]
    pub fn code(self) -> (byte: u8)
        ensures
            byte == self.wire(),
    {
        match self {
            LEDLightsState::Off => 0x00,
            LEDLightsState::On => 0x01,
            LEDLightsState::Blink => 0x02,
            LEDLightsState::Spin => 0x03,
        }
    }
}

/// How a packet is written to the robot.
#[derive(Debug, Clone, Copy, PartialEq, Eq, Structural)]
pub enum WriteType {
    /// The robot acknowledges the write.
    WithResponse,
    /// The write goes out unacknowledged.
    WithoutResponse,
}

/// What ties a reply to the command that asked for it: the first three
/// bytes of both.
#[derive(Debug, Clone, Copy, PartialEq, Eq, Hash, Structural)]
pub struct RootMessageKey {
    pub device: u8,
    pub command: u8,
    pub id: u8,
}

/// The number under which the store keeps the reply with this key.
pub open spec fn key_code(device: u8, command: u8, id: u8) -> u32 {
    (device * 0x1_0000 + command * 0x100 + id) as u32
}

impl RootMessageKey {
    /// The number under which the store keeps the reply with this key.
    pub open spec fn spec_code(self) -> u32 {
        key_code(self.device, self.command, self.id)
    }

    #[verifier::when_used_as_spec(spec_code)]
    pub fn code(self) -> (code: u32)
        ensures
            code == self.spec_code(),
    {
        (self.device as u32) * 0x1_0000 + (self.command as u32) * 0x100 + (self.id as u32)
    }

    /// The key of a notification: its first three bytes, if it has them.
    pub fn of_notification(data: &Vec<u8>) -> (key: Option<RootMessageKey>)
        ensures
            data@.len() < 3 ==> key is None,
            data@.len() >= 3 ==> key == Some(
                RootMessageKey { device: data@[0], command: data@[1], id: data@[2] },
            ),
    {
        if data.len() < 3 {
            None
        } else {
            Some(RootMessageKey { device: data[0], command: data[1], id: data[2] })
        }
    }
}

/// Two keys have the same number only if they are the same key, so no reply
/// is ever kept under the number of another.
pub proof fn lemma_key_code_injective(a: RootMessageKey, b: RootMessageKey)
    ensures
        a.spec_code() == b.spec_code() <==> a == b,
{
}

/// The bytes of one notification, as the robot sent them.
///
/// The first three bytes name the device, the command and the request that
/// the notification answers; what follows depends on the command.
#[derive(Debug, PartialEq, Eq)]
pub struct Message {
    pub data: Vec<u8>,
}

impl View for Message {
    type V = Seq<u8>;

    open spec fn view(&self) -> Seq<u8> {
        self.data@
    }
}

/// A command, ready to be sent: its bytes before padding and checksum, how
/// to write it, and the key of the reply to wait for, if any.
#[derive(Debug, PartialEq, Eq)]
pub struct Request {
    pub payload: Vec<u8>,
    pub write_type: WriteType,
    pub reply: Option<RootMessageKey>,
}

impl Request {
    /// Whether the parts of the request agree with each other: the command
    /// fits a packet; it is written with acknowledgement exactly if a reply
    /// is awaited; and the reply is awaited under the key that the command
    /// itself starts with.
    pub open spec fn consistent(self) -> bool {
        &&& self.payload@.len() < PACKET_LEN
        &&& self.write_type == WriteType::WithResponse <==> self.reply is Some
        &&& self.reply matches Some(key) ==> {
            &&& self.payload@.len() >= 3
            &&& key.device == self.payload@[0]
            &&& key.command == self.payload@[1]
            &&& key.id == self.payload@[2]
        }
    }

    /// Whether the request has these three parts.
    pub open spec fn holds(
        self,
        payload: Seq<u8>,
        write_type: WriteType,
        reply: Option<RootMessageKey>,
    ) -> bool {
        &&& self.payload@ == payload
        &&& self.write_type == write_type
        &&& self.reply == reply
    }
}

/// One write to the robot: the characteristic to write to, by its place
/// among the link's characteristics, the packet, and how to write it.
#[derive(Debug, PartialEq, Eq)]
pub struct Transmission {
    pub characteristic: usize,
    pub packet: Vec<u8>,
    pub write_type: WriteType,
}

/// What became of a notification.
#[derive(Debug, PartialEq, Eq)]
pub enum Delivery {
    /// It was put into the store, for the caller that waits for it.
    Stored,
    /// The cliff sensor reported, and sees ground.
    CliffClear,
    /// The cliff sensor sees an edge. The robot has to stop at once: `stop`
    /// is the command for it, and nothing else may be sent after it.
    CliffDetected { stop: Request },
}

/// The bytes of the command that asks for the versions of the main board.
pub open spec fn get_versions_payload() -> Seq<u8> {
    seq![0x00u8, 0x00u8, 0x10u8, MAIN_BOARD]
}

/// The bytes of the command that stops the robot.
pub open spec fn stop_and_reset_payload() -> Seq<u8> {
    seq![0x00u8, 0x03u8]
}

/// The bytes of the command that drives `distance_mm` millimetres.
pub open spec fn drive_distance_payload(distance_mm: i32) -> Seq<u8> {
    seq![0x01u8, 0x08u8, 0x11u8] + i32_be_bytes(distance_mm)
}

/// The bytes of the command that turns by `angle_deci_degrees` tenths of a degree.
pub open spec fn rotate_angle_payload(angle_deci_degrees: i32) -> Seq<u8> {
    seq![0x01u8, 0x0Cu8, 0x12u8] + i32_be_bytes(angle_deci_degrees)
}

/// The bytes of the command that resets the robot's own idea of where it is.
pub open spec fn reset_position_payload() -> Seq<u8> {
    seq![0x01u8, 0x0Fu8, 0x00u8]
}

/// The bytes of the command that drives an arc of `angle` tenths of a
/// degree on a circle of `radius` millimetres.
pub open spec fn drive_arc_payload(angle: i32, radius: i32) -> Seq<u8> {
    seq![0x01u8, 0x1Bu8, 0x1Bu8] + i32_be_bytes(angle) + i32_be_bytes(radius)
}

/// The bytes of the command that moves the marker.
pub open spec fn set_marker_position_payload(position: MarkerPosition) -> Seq<u8> {
    seq![0x02u8, 0x00u8, 0x13u8, position.wire()]
}

/// The bytes of the command that sets the lights.
pub open spec fn set_lights_payload(lights_state: LEDLightsState, r: u8, g: u8, b: u8) -> Seq<u8> {
    seq![0x03u8, 0x02u8, 0x01u8, lights_state.wire(), r, g, b]
}

/// The bytes of the command that speaks a phrase, given the bytes of the phrase.
pub open spec fn say_phrase_payload(phrase: Seq<u8>) -> Seq<u8> {
    seq![0x05u8, 0x04u8, 0x00u8] + phrase
}

/// Whether a notification is too short to be read: it lacks the three bytes
/// of its key, or it is a report of the cliff sensor and lacks the byte that
/// says what the sensor saw.
pub open spec fn is_malformed(data: Seq<u8>) -> bool {
    data.len() < 3 || (data[0] == RootDeviceId::CliffSensor.wire() && data.len()
        <= CLIFF_VALUE_OFFSET)
}

/// The protocol engine of one robot.
///
/// It knows how each command is spelled, which reply each command waits
/// for, and what to do with each notification that comes in; it keeps the
/// replies that nobody has collected yet. It sends and receives nothing
/// itself: the program around it writes the packets that the engine hands
/// out and feeds it the notifications that arrive.
pub struct RootRobot {
    message_storage: MessageStorage<u32, Message>,
}

impl RootRobot {
    /// The replies that have come in and wait to be collected, by the
    /// number of their key.
    pub closed spec fn stored(&self) -> Map<u32, Message> {
        self.message_storage@
    }

    /// An engine that holds no replies.
    pub fn new() -> (robot: RootRobot)
        ensures
            robot.stored() == Map::<u32, Message>::empty(),
    {
        RootRobot { message_storage: MessageStorage::new() }
    }

    /// Asks for the versions of the main board. The reply decodes as a
    /// `GetVersionsResponse`.
    pub fn get_versions() -> (request: Request)
        ensures
            request.holds(
                get_versions_payload(),
                WriteType::WithResponse,
                Some(RootMessageKey { device: 0x00, command: 0x00, id: 0x10 }),
            ),
            request.consistent(),
    {
        let payload: Vec<u8> = vec![RootDeviceId::General.code(), 0x00, 0x10, MAIN_BOARD];
        assert(payload@ =~= get_versions_payload());
        Request {
            payload,
            write_type: WriteType::WithResponse,
            reply: Some(RootMessageKey { device: RootDeviceId::General.code(), command: 0x00, id: 0x10 }),
        }
    }

    /// Stops the robot at once and cancels what it was doing. No reply.
    pub fn stop_and_reset() -> (request: Request)
        ensures
            request.holds(stop_and_reset_payload(), WriteType::WithoutResponse, None),
            request.consistent(),
    {
        let payload: Vec<u8> = vec![RootDeviceId::General.code(), 0x03];
        assert(payload@ =~= stop_and_reset_payload());
        Request { payload, write_type: WriteType::WithoutResponse, reply: None }
    }

    /// Drives `distance_mm` millimetres in a straight line, backwards if
    /// negative. The reply decodes as a `DriveDistanceFinishedResponse`.
    pub fn drive_distance(distance_mm: i32) -> (request: Request)
        ensures
            request.holds(
                drive_distance_payload(distance_mm),
                WriteType::WithResponse,
                Some(RootMessageKey { device: 0x01, command: 0x08, id: 0x11 }),
            ),
            request.consistent(),
    {
        let mut payload: Vec<u8> = vec![RootDeviceId::Motors.code(), 0x08, 0x11];
        assert(payload@ =~= seq![0x01u8, 0x08u8, 0x11u8]);
        push_i32(&mut payload, distance_mm);
        Request {
            payload,
            write_type: WriteType::WithResponse,
            reply: Some(RootMessageKey { device: RootDeviceId::Motors.code(), command: 0x08, id: 0x11 }),
        }
    }

    /// Turns in place by `angle_deci_degrees` tenths of a degree. The reply
    /// decodes as a `RotateAngleFinishedResponse`.
    pub fn rotate_angle(angle_deci_degrees: i32) -> (request: Request)
        ensures
            request.holds(
                rotate_angle_payload(angle_deci_degrees),
                WriteType::WithResponse,
                Some(RootMessageKey { device: 0x01, command: 0x0C, id: 0x12 }),
            ),
            request.consistent(),
    {
        let mut payload: Vec<u8> = vec![RootDeviceId::Motors.code(), 0x0C, 0x12];
        assert(payload@ =~= seq![0x01u8, 0x0Cu8, 0x12u8]);
        push_i32(&mut payload, angle_deci_degrees);
        Request {
            payload,
            write_type: WriteType::WithResponse,
            reply: Some(RootMessageKey { device: RootDeviceId::Motors.code(), command: 0x0C, id: 0x12 }),
        }
    }

    /// Makes the robot take where it stands for the origin. No reply.
    pub fn reset_position() -> (request: Request)
        ensures
            request.holds(reset_position_payload(), WriteType::WithoutResponse, None),
            request.consistent(),
    {
        let payload: Vec<u8> = vec![RootDeviceId::Motors.code(), 0x0F, 0x00];
        assert(payload@ =~= reset_position_payload());
        Request { payload, write_type: WriteType::WithoutResponse, reply: None }
    }

    /// Drives an arc of `angle` tenths of a degree on a circle of `radius`
    /// millimetres. The reply decodes as a `DriveArcFinishedResponse`.
    pub fn drive_arc(angle: i32, radius: i32) -> (request: Request)
        ensures
            request.holds(
                drive_arc_payload(angle, radius),
                WriteType::WithResponse,
                Some(RootMessageKey { device: 0x01, command: 0x1B, id: 0x1B }),
            ),
            request.consistent(),
    {
        let mut payload: Vec<u8> = vec![RootDeviceId::Motors.code(), 0x1B, 0x1B];
        assert(payload@ =~= seq![0x01u8, 0x1Bu8, 0x1Bu8]);
        push_i32(&mut payload, angle);
        push_i32(&mut payload, radius);
        Request {
            payload,
            write_type: WriteType::WithResponse,
            reply: Some(RootMessageKey { device: RootDeviceId::Motors.code(), command: 0x1B, id: 0x1B }),
        }
    }

    /// Lowers or lifts the marker. The reply decodes as a
    /// `MarkerFinishedResponse`.
    pub fn set_marker_position(position: MarkerPosition) -> (request: Request)
        ensures
            request.holds(
                set_marker_position_payload(position),
                WriteType::WithResponse,
                Some(RootMessageKey { device: 0x02, command: 0x00, id: 0x13 }),
            ),
            request.consistent(),
    {
        let payload: Vec<u8> = vec![RootDeviceId::Marker.code(), 0x00, 0x13, position.code()];
        assert(payload@ =~= set_marker_position_payload(position));
        Request {
            payload,
            write_type: WriteType::WithResponse,
            reply: Some(RootMessageKey { device: RootDeviceId::Marker.code(), command: 0x00, id: 0x13 }),
        }
    }

    /// Sets the animation and the colour of the lights. No reply.
    pub fn set_lights(lights_state: LEDLightsState, r: u8, g: u8, b: u8) -> (request: Request)
        ensures
            request.holds(set_lights_payload(lights_state, r, g, b), WriteType::WithoutResponse, None),
            request.consistent(),
    {
        let payload: Vec<u8> = vec![
            RootDeviceId::LEDLights.code(),
            0x02,
            0x01,
            lights_state.code(),
            r,
            g,
            b,
        ];
        assert(payload@ =~= set_lights_payload(lights_state, r, g, b));
        Request { payload, write_type: WriteType::WithoutResponse, reply: None }
    }

    /// Speaks `phrase` in the robot's voice. The robot replies when it has
    /// finished; the reply says nothing more.
    pub fn say_phrase(phrase: &str) -> (request: Request)
        requires
            phrase.spec_bytes().len() <= MAX_PHRASE_LEN,
        ensures
            request.holds(
                say_phrase_payload(phrase.spec_bytes()),
                WriteType::WithResponse,
                Some(RootMessageKey { device: 0x05, command: 0x04, id: 0x00 }),
            ),
            request.consistent(),
    {
        let mut payload: Vec<u8> = vec![RootDeviceId::Sound.code(), 0x04, 0x00];
        assert(payload@ =~= seq![0x05u8, 0x04u8, 0x00u8]);
        let bytes = phrase.as_bytes();
        let mut at: usize = 0;
        while at < bytes.len()
            invariant
                at <= bytes@.len(),
                payload@ == seq![0x05u8, 0x04u8, 0x00u8] + bytes@.subrange(0, at as int),
            decreases bytes@.len() - at,
        {
            payload.push(bytes[at]);
            at += 1;
        }
        assert(bytes@.subrange(0, at as int) =~= bytes@);
        Request {
            payload,
            write_type: WriteType::WithResponse,
            reply: Some(RootMessageKey { device: RootDeviceId::Sound.code(), command: 0x04, id: 0x00 }),
        }
    }

    /// Finds the characteristic to subscribe to for the robot's replies, by
    /// its place among the link's characteristics.
    pub fn subscribe(peripheral: &Peripheral) -> (found: Result<usize, RootError>)
        ensures
            found is Err <==> none_serving(peripheral.characteristics@, Channel::Replies),
            match found {
                Ok(at) => first_serving(peripheral.characteristics@, Channel::Replies, at as int),
                Err(error) => error == RootError::TransportUnavailable,
            },
    {
        match find_characteristic(&peripheral.characteristics, Channel::Replies) {
            Some(at) => Ok(at),
            None => Err(RootError::TransportUnavailable),
        }
    }

    /// Takes in one notification from the robot.
    ///
    /// A report of the cliff sensor is looked at on the spot and never
    /// stored: if the sensor sees an edge, the answer carries the command
    /// that stops the robot. Every other notification is stored under its
    /// key, in place of an uncollected one with the same key. A
    /// notification too short to be read is malformed and changes nothing.
    pub fn handle_notification(&mut self, data: Vec<u8>) -> (delivery: Result<Delivery, RootError>)
        ensures
            delivery is Err <==> is_malformed(data@),
            match delivery {
                Ok(Delivery::Stored) => {
                    &&& data@.len() >= 3
                    &&& data@[0] != RootDeviceId::CliffSensor.wire()
                    &&& final(self).stored() == old(self).stored().insert(
                        key_code(data@[0], data@[1], data@[2]),
                        Message { data },
                    )
                },
                Ok(Delivery::CliffClear) => {
                    &&& data@.len() > CLIFF_VALUE_OFFSET
                    &&& data@[0] == RootDeviceId::CliffSensor.wire()
                    &&& data@[CLIFF_VALUE_OFFSET as int] == 0
                    &&& final(self).stored() == old(self).stored()
                },
                Ok(Delivery::CliffDetected { stop }) => {
                    &&& data@.len() > CLIFF_VALUE_OFFSET
                    &&& data@[0] == RootDeviceId::CliffSensor.wire()
                    &&& data@[CLIFF_VALUE_OFFSET as int] > 0
                    &&& stop.holds(stop_and_reset_payload(), WriteType::WithoutResponse, None)
                    &&& final(self).stored() == old(self).stored()
                },
                Err(error) => {
                    &&& error == RootError::MalformedResponse
                    &&& final(self).stored() == old(self).stored()
                },
            },
    {
        let key = match RootMessageKey::of_notification(&data) {
            Some(key) => key,
            None => {
                return Err(RootError::MalformedResponse);
            },
        };
        if key.device == RootDeviceId::CliffSensor.code() {
            if data.len() <= CLIFF_VALUE_OFFSET {
                return Err(RootError::MalformedResponse);
            }
            if data[CLIFF_VALUE_OFFSET] > 0 {
                Ok(Delivery::CliffDetected { stop: RootRobot::stop_and_reset() })
            } else {
                Ok(Delivery::CliffClear)
            }
        } else {
            self.message_storage.put_message(key.code(), Message { data });
            Ok(Delivery::Stored)
        }
    }

    /// Looks for the reply that is awaited under `key`, with `remaining_ms`
    /// milliseconds left to wait for it.
    ///
    /// A reply that has come in is taken out of the store and handed over,
    /// however little time is left. Otherwise nothing changes: `None` tells
    /// the caller to sleep until a notification is stored or its time is up
    /// and to look again; with no time left, the wait has timed out.
    pub fn wait_for_reply(&mut self, key: RootMessageKey, remaining_ms: u64) -> (reply: Result<
        Option<Message>,
        RootError,
    >)
        ensures
            reply == match wait_outcome(old(self).stored(), key.spec_code(), remaining_ms) {
                Waited::Received(message) => Ok::<Option<Message>, RootError>(Some(message)),
                Waited::Pending => Ok(None),
                Waited::TimedOut => Err(RootError::Timeout),
            },
            final(self).stored() == old(self).stored().remove(key.spec_code()),
    {
        match self.message_storage.wait_for_message(key.code(), remaining_ms) {
            Waited::Received(message) => Ok(Some(message)),
            Waited::Pending => Ok(None),
            Waited::TimedOut => Err(RootError::Timeout),
        }
    }

    /// Looks for the reply to the request with this header, as
    /// `wait_for_reply` does for its key.
    pub fn wait_for_message(
        &mut self,
        device: RootDeviceId,
        command: u8,
        id: u8,
        remaining_ms: u64,
    ) -> (reply: Result<Option<Message>, RootError>)
        ensures
            reply == match wait_outcome(
                old(self).stored(),
                key_code(device.wire(), command, id),
                remaining_ms,
            ) {
                Waited::Received(message) => Ok::<Option<Message>, RootError>(Some(message)),
                Waited::Pending => Ok(None),
                Waited::TimedOut => Err(RootError::Timeout),
            },
            final(self).stored() == old(self).stored().remove(key_code(device.wire(), command, id)),
    {
        self.wait_for_reply(RootMessageKey { device: device.code(), command, id }, remaining_ms)
    }

    /// Prepares one write of the command `vector` to the robot.
    ///
    /// Nothing can be written while the link is down or the robot shows no
    /// characteristic for commands; the caller learns of it instead of
    /// losing the command unnoticed.
    pub fn send_msg(peripheral: &Peripheral, vector: Vec<u8>, write_type: WriteType) -> (sent: Result<
        Transmission,
        RootError,
    >)
        requires
            vector@.len() < PACKET_LEN,
        ensures
            sent is Ok <==> peripheral.connected && !none_serving(
                peripheral.characteristics@,
                Channel::Commands,
            ),
            match sent {
                Ok(transmission) => {
                    &&& peripheral.connected
                    &&& first_serving(
                        peripheral.characteristics@,
                        Channel::Commands,
                        transmission.characteristic as int,
                    )
                    &&& transmission.packet@ == checked_packet(vector@)
                    &&& transmission.write_type == write_type
                },
                Err(error) => error == RootError::TransportUnavailable,
            },
    {
        let characteristic = match find_characteristic(&peripheral.characteristics, Channel::Commands) {
            Some(at) => at,
            None => {
                return Err(RootError::TransportUnavailable);
            },
        };
        if !peripheral.connected {
            return Err(RootError::TransportUnavailable);
        }
        Ok(Transmission { characteristic, packet: build_checked_packet(vector), write_type })
    }
}

/// A notification that was stored reaches the caller that waits for its
/// key, however little time that caller has left, and is gone from the
/// store after that.
pub proof fn lemma_stored_notification_reaches_its_waiter(
    stored: Map<u32, Message>,
    message: Message,
    remaining_ms: u64,
)
    requires
        message@.len() >= 3,
    ensures
        ({
            let code = key_code(message@[0], message@[1], message@[2]);
            &&& wait_outcome(stored.insert(code, message), code, remaining_ms) == Waited::Received(
                message,
            )
            &&& !stored.insert(code, message).remove(code).contains_key(code)
        }),
{
}

/// A notification never reaches a caller that waits for another key: what
/// that caller finds is what it would have found without the notification.
pub proof fn lemma_notification_leaves_other_keys_alone(
    stored: Map<u32, Message>,
    message: Message,
    other: RootMessageKey,
    remaining_ms: u64,
)
    requires
        message@.len() >= 3,
        other != (RootMessageKey { device: message@[0], command: message@[1], id: message@[2] }),
    ensures
        wait_outcome(
            stored.insert(key_code(message@[0], message@[1], message@[2]), message),
            other.spec_code(),
            remaining_ms,
        ) == wait_outcome(stored, other.spec_code(), remaining_ms),
{
    lemma_key_code_injective(
        other,
        RootMessageKey { device: message@[0], command: message@[1], id: message@[2] },
    );
}

/// The reply to a request reaches the caller of the request: a notification
/// that starts with the three bytes that the request starts with is what a
/// wait under the key of the request receives.
pub proof fn lemma_reply_reaches_its_request(
    stored: Map<u32, Message>,
    request: Request,
    message: Message,
    remaining_ms: u64,
)
    requires
        request.consistent(),
        request.reply is Some,
        message@.len() >= 3,
        message@[0] == request.payload@[0],
        message@[1] == request.payload@[1],
        message@[2] == request.payload@[2],
    ensures
        wait_outcome(
            stored.insert(key_code(message@[0], message@[1], message@[2]), message),
            request.reply->0.spec_code(),
            remaining_ms,
        ) == Waited::Received(message),
{
}

} // verus!
