use rootrobot::irobot::root::link::{
    find_characteristic, Channel, Characteristic, Peripheral, INDICATE, ROOT_IDENTIFIER_UUID,
    ROOT_RX_CHARACTERISTIC, ROOT_TX_CHARACTERISTIC,
};
use rootrobot::irobot::root::root_robot::{
    Delivery, Request, RootDeviceId, RootMessageKey, Transmission, WriteType,
};
use rootrobot::irobot::root::{
    is_root_robot, LEDLightsState, MarkerPosition, Message, RootError, RootRobot,
};

fn key(device: u8, command: u8, id: u8) -> Option<RootMessageKey> {
    Some(RootMessageKey { device, command, id })
}

fn link(connected: bool) -> Peripheral {
    Peripheral {
        connected,
        services: vec![0x1800, ROOT_IDENTIFIER_UUID],
        characteristics: vec![
            Characteristic { uuid: 0x2A00, properties: 0x02 },
            Characteristic { uuid: ROOT_TX_CHARACTERISTIC, properties: 0x10 },
            Characteristic { uuid: ROOT_RX_CHARACTERISTIC, properties: 0x0C },
            Characteristic { uuid: ROOT_TX_CHARACTERISTIC, properties: 0x30 },
            Characteristic { uuid: ROOT_RX_CHARACTERISTIC, properties: 0x04 },
        ],
    }
}

#[test]
fn device_and_state_codes_are_those_of_the_protocol() {
    assert_eq!(RootDeviceId::General.code(), 0x00);
    assert_eq!(RootDeviceId::Motors.code(), 0x01);
    assert_eq!(RootDeviceId::Marker.code(), 0x02);
    assert_eq!(RootDeviceId::LEDLights.code(), 0x03);
    assert_eq!(RootDeviceId::Sound.code(), 0x05);
    assert_eq!(RootDeviceId::CliffSensor.code(), 0x14);
    assert_eq!(MarkerPosition::NothingDown.code(), 0x00);
    assert_eq!(MarkerPosition::MarkerDown.code(), 0x01);
    assert_eq!(LEDLightsState::Off.code(), 0x00);
    assert_eq!(LEDLightsState::On.code(), 0x01);
    assert_eq!(LEDLightsState::Blink.code(), 0x02);
    assert_eq!(LEDLightsState::Spin.code(), 0x03);
}

#[test]
fn key_codes_keep_keys_apart() {
    assert_eq!(RootMessageKey { device: 0x01, command: 0x08, id: 0x11 }.code(), 0x01_08_11);
    assert_eq!(RootMessageKey { device: 0, command: 0, id: 0 }.code(), 0);
    assert_eq!(RootMessageKey { device: 0xFF, command: 0xFF, id: 0xFF }.code(), 0xFF_FF_FF);
    assert_ne!(
        RootMessageKey { device: 1, command: 0, id: 0 }.code(),
        RootMessageKey { device: 0, command: 1, id: 0 }.code()
    );
    assert_eq!(RootMessageKey::of_notification(&vec![1, 2]), None);
    assert_eq!(
        RootMessageKey::of_notification(&vec![1, 2, 3, 4]),
        Some(RootMessageKey { device: 1, command: 2, id: 3 })
    );
}

#[test]
fn get_versions_asks_the_main_board() {
    assert_eq!(
        RootRobot::get_versions(),
        Request {
            payload: vec![0x00, 0x00, 0x10, 0xA5],
            write_type: WriteType::WithResponse,
            reply: key(0x00, 0x00, 0x10)
        }
    );
}

#[test]
fn stop_and_reset_waits_for_nothing() {
    assert_eq!(
        RootRobot::stop_and_reset(),
        Request { payload: vec![0x00, 0x03], write_type: WriteType::WithoutResponse, reply: None }
    );
}

#[test]
fn drive_distance_spells_the_distance() {
    assert_eq!(
        RootRobot::drive_distance(100),
        Request {
            payload: vec![0x01, 0x08, 0x11, 0x00, 0x00, 0x00, 0x64],
            write_type: WriteType::WithResponse,
            reply: key(0x01, 0x08, 0x11)
        }
    );
    assert_eq!(
        RootRobot::drive_distance(-100).payload,
        vec![0x01, 0x08, 0x11, 0xFF, 0xFF, 0xFF, 0x9C]
    );
}

#[test]
fn rotate_angle_spells_the_angle() {
    assert_eq!(
        RootRobot::rotate_angle(900),
        Request {
            payload: vec![0x01, 0x0C, 0x12, 0x00, 0x00, 0x03, 0x84],
            write_type: WriteType::WithResponse,
            reply: key(0x01, 0x0C, 0x12)
        }
    );
    assert_eq!(
        RootRobot::rotate_angle(-450).payload,
        vec![0x01, 0x0C, 0x12, 0xFF, 0xFF, 0xFE, 0x3E]
    );
}

#[test]
fn reset_position_waits_for_nothing() {
    assert_eq!(
        RootRobot::reset_position(),
        Request {
            payload: vec![0x01, 0x0F, 0x00],
            write_type: WriteType::WithoutResponse,
            reply: None
        }
    );
}

#[test]
fn drive_arc_spells_angle_then_radius() {
    assert_eq!(
        RootRobot::drive_arc(1800, -20),
        Request {
            payload: vec![0x01, 0x1B, 0x1B, 0x00, 0x00, 0x07, 0x08, 0xFF, 0xFF, 0xFF, 0xEC],
            write_type: WriteType::WithResponse,
            reply: key(0x01, 0x1B, 0x1B)
        }
    );
}

#[test]
fn set_marker_position_spells_the_position() {
    assert_eq!(
        RootRobot::set_marker_position(MarkerPosition::MarkerDown),
        Request {
            payload: vec![0x02, 0x00, 0x13, 0x01],
            write_type: WriteType::WithResponse,
            reply: key(0x02, 0x00, 0x13)
        }
    );
    assert_eq!(
        RootRobot::set_marker_position(MarkerPosition::NothingDown).payload,
        vec![0x02, 0x00, 0x13, 0x00]
    );
}

#[test]
fn set_lights_spells_state_and_colour() {
    assert_eq!(
        RootRobot::set_lights(LEDLightsState::Spin, 0x00, 0xFF, 0x00),
        Request {
            payload: vec![0x03, 0x02, 0x01, 0x03, 0x00, 0xFF, 0x00],
            write_type: WriteType::WithoutResponse,
            reply: None
        }
    );
}

#[test]
fn say_phrase_spells_the_phrase() {
    assert_eq!(
        RootRobot::say_phrase("hello"),
        Request {
            payload: vec![0x05, 0x04, 0x00, 0x68, 0x65, 0x6C, 0x6C, 0x6F],
            write_type: WriteType::WithResponse,
            reply: key(0x05, 0x04, 0x00)
        }
    );
    assert_eq!(RootRobot::say_phrase("").payload, vec![0x05, 0x04, 0x00]);
    let longest = RootRobot::say_phrase("fifteen letters");
    assert_eq!(longest.payload.len(), 18);
    assert_eq!(&longest.payload[3..], "fifteen letters".as_bytes());
}

#[test]
fn root_robot_is_known_by_its_service() {
    assert!(is_root_robot(&link(true)));
    assert!(is_root_robot(&link(false)));
    let mut other = link(true);
    other.services = vec![0x1800, 0x180A];
    assert!(!is_root_robot(&other));
    other.services = Vec::new();
    assert!(!is_root_robot(&other));
    other.services = vec![ROOT_RX_CHARACTERISTIC];
    assert!(!is_root_robot(&other));
}

#[test]
fn first_fitting_characteristic_is_found() {
    let link = link(true);
    assert_eq!(find_characteristic(&link.characteristics, Channel::Commands), Some(2));
    assert_eq!(find_characteristic(&link.characteristics, Channel::Replies), Some(3));
    assert_eq!(find_characteristic(&Vec::new(), Channel::Commands), None);
    assert_eq!(
        find_characteristic(
            &vec![Characteristic { uuid: ROOT_TX_CHARACTERISTIC, properties: 0xDF }],
            Channel::Replies
        ),
        None
    );
    assert_eq!(INDICATE, 0x20);
}

#[test]
fn subscribe_wants_a_characteristic_that_indicates() {
    assert_eq!(RootRobot::subscribe(&link(true)), Ok(3));
    let mut mute = link(true);
    mute.characteristics.truncate(3);
    assert_eq!(RootRobot::subscribe(&mute), Err(RootError::TransportUnavailable));
}

#[test]
fn send_msg_frames_the_command_for_the_command_characteristic() {
    let sent = RootRobot::send_msg(
        &link(true),
        vec![0x01, 0x08, 0x11, 0x00, 0x00, 0x00, 0x64],
        WriteType::WithResponse,
    );
    assert_eq!(
        sent,
        Ok(Transmission {
            characteristic: 2,
            packet: vec![
                0x01, 0x08, 0x11, 0x00, 0x00, 0x00, 0x64, 0x00, 0x00, 0x00, 0x00, 0x00, 0x00,
                0x00, 0x00, 0x00, 0x00, 0x00, 0x00, 0x34
            ],
            write_type: WriteType::WithResponse
        })
    );
}

#[test]
fn send_msg_reports_a_link_that_is_down() {
    assert_eq!(
        RootRobot::send_msg(&link(false), vec![0x00, 0x03], WriteType::WithoutResponse),
        Err(RootError::TransportUnavailable)
    );
    let mut deaf = link(true);
    deaf.characteristics.retain(|c| c.uuid != ROOT_RX_CHARACTERISTIC);
    assert_eq!(
        RootRobot::send_msg(&deaf, vec![0x00, 0x03], WriteType::WithoutResponse),
        Err(RootError::TransportUnavailable)
    );
}

#[test]
fn requests_go_out_as_checked_packets() {
    let request = RootRobot::set_marker_position(MarkerPosition::MarkerDown);
    let sent = RootRobot::send_msg(&link(true), request.payload, request.write_type).unwrap();
    assert_eq!(sent.packet.len(), 20);
    assert_eq!(sent.packet[..4], [0x02, 0x00, 0x13, 0x01]);
    assert_eq!(sent.packet[19], 0x5B);
    let stop = RootRobot::stop_and_reset();
    let sent = RootRobot::send_msg(&link(true), stop.payload, stop.write_type).unwrap();
    assert_eq!(sent.packet[19], 0x7E);
    assert_eq!(sent.write_type, WriteType::WithoutResponse);
}

#[test]
fn notification_is_stored_for_its_waiter() {
    let mut robot = RootRobot::new();
    let data = vec![0x01, 0x08, 0x11, 0, 0, 0, 1, 0, 0, 0, 2, 0, 0, 0, 3, 0, 4, 0, 0, 0x99];
    assert_eq!(robot.wait_for_message(RootDeviceId::Motors, 0x08, 0x11, 10), Ok(None));
    assert_eq!(robot.handle_notification(data.clone()), Ok(Delivery::Stored));
    assert_eq!(robot.wait_for_message(RootDeviceId::Motors, 0x0C, 0x12, 10), Ok(None));
    assert_eq!(robot.wait_for_message(RootDeviceId::Marker, 0x08, 0x11, 0), Err(RootError::Timeout));
    assert_eq!(
        robot.wait_for_message(RootDeviceId::Motors, 0x08, 0x11, 0),
        Ok(Some(Message { data }))
    );
    assert_eq!(robot.wait_for_message(RootDeviceId::Motors, 0x08, 0x11, 0), Err(RootError::Timeout));
}

#[test]
fn later_notification_replaces_an_uncollected_one() {
    let mut robot = RootRobot::new();
    assert_eq!(robot.handle_notification(vec![0x02, 0x00, 0x13, 0x00]), Ok(Delivery::Stored));
    assert_eq!(robot.handle_notification(vec![0x02, 0x00, 0x13, 0x01]), Ok(Delivery::Stored));
    assert_eq!(
        robot.wait_for_message(RootDeviceId::Marker, 0x00, 0x13, 5),
        Ok(Some(Message { data: vec![0x02, 0x00, 0x13, 0x01] }))
    );
    assert_eq!(robot.wait_for_message(RootDeviceId::Marker, 0x00, 0x13, 5), Ok(None));
}

#[test]
fn cliff_report_is_never_stored() {
    let mut robot = RootRobot::new();
    let clear = vec![0x14, 0x00, 0x00, 0, 0, 0, 0, 0x00];
    assert_eq!(robot.handle_notification(clear), Ok(Delivery::CliffClear));
    assert_eq!(
        robot.wait_for_message(RootDeviceId::CliffSensor, 0x00, 0x00, 0),
        Err(RootError::Timeout)
    );
    let edge = vec![0x14, 0x00, 0x00, 0, 0, 0, 0, 0x08, 0, 0];
    assert_eq!(
        robot.handle_notification(edge),
        Ok(Delivery::CliffDetected { stop: RootRobot::stop_and_reset() })
    );
    assert_eq!(
        robot.wait_for_message(RootDeviceId::CliffSensor, 0x00, 0x00, 0),
        Err(RootError::Timeout)
    );
}

#[test]
fn short_notification_is_malformed() {
    let mut robot = RootRobot::new();
    assert_eq!(robot.handle_notification(Vec::new()), Err(RootError::MalformedResponse));
    assert_eq!(robot.handle_notification(vec![0x01, 0x08]), Err(RootError::MalformedResponse));
    assert_eq!(
        robot.handle_notification(vec![0x14, 0, 0, 0, 0, 0, 0]),
        Err(RootError::MalformedResponse)
    );
    assert_eq!(robot.handle_notification(vec![0x01, 0x08, 0x11]), Ok(Delivery::Stored));
    assert_eq!(
        robot.wait_for_message(RootDeviceId::Motors, 0x08, 0x11, 0),
        Ok(Some(Message { data: vec![0x01, 0x08, 0x11] }))
    );
}

#[test]
fn request_is_acknowledged_exactly_if_a_reply_is_awaited() {
    let requests = vec![
        RootRobot::get_versions(),
        RootRobot::stop_and_reset(),
        RootRobot::drive_distance(-7),
        RootRobot::rotate_angle(1),
        RootRobot::reset_position(),
        RootRobot::drive_arc(3, 4),
        RootRobot::set_marker_position(MarkerPosition::NothingDown),
        RootRobot::set_lights(LEDLightsState::Blink, 1, 2, 3),
        RootRobot::say_phrase("hi"),
    ];
    for request in requests {
        assert!(request.payload.len() < 20);
        assert_eq!(request.write_type == WriteType::WithResponse, request.reply.is_some());
        if let Some(key) = request.reply {
            assert_eq!(request.payload[..3], [key.device, key.command, key.id]);
        }
    }
}

#[test]
fn reply_is_collected_under_the_key_of_its_request() {
    let mut robot = RootRobot::new();
    let request = RootRobot::drive_arc(900, 10);
    let key = request.reply.unwrap();
    assert_eq!(robot.wait_for_reply(key, 10), Ok(None));
    let mut reply = vec![0u8; 20];
    reply[..3].copy_from_slice(&request.payload[..3]);
    assert_eq!(robot.handle_notification(reply.clone()), Ok(Delivery::Stored));
    assert_eq!(robot.wait_for_reply(key, 0), Ok(Some(Message { data: reply })));
    assert_eq!(robot.wait_for_reply(key, 0), Err(RootError::Timeout));
}
