//! Uevents, the sensor loop and its supervisor.

use killbill::killbilld::sensor::netlink::{
    Received, SensorLoop, SensorStep, UsbNetlinkSensor, FORGED_LOG_INTERVAL_SECS,
};
use killbill::killbilld::sensor::uevent::{parse_product, parse_uevent, UeventParseError};
use killbill::killbilld::sensor::{SensorError, SensorMessage};
use killbill::killbilld::daemon::state::Msg;
use killbill::killbilld::supervisor::{
    Supervisor, SupervisorAction, SupervisorEvent, SupervisorStep, HEALTHY_RUN_SECS, MAX_RESPAWNS,
};
use killbill::proto::protocol::MAX_DEVICE_STRING;
use killbill::proto::sensor_event::{EventKind, SensorEvent, SensorSource, UsbId};

fn wire(segments: &[&str]) -> Vec<u8> {
    let mut buf = Vec::new();
    for segment in segments {
        buf.extend_from_slice(segment.as_bytes());
        buf.push(0);
    }
    buf
}
fn add_yubikey() -> Vec<u8> {
    wire(&[
        "add@/devices/pci0000:00/0000:00:14.0/usb1/1-3",
        "ACTION=add",
        "DEVPATH=/devices/pci0000:00/0000:00:14.0/usb1/1-3",
        "SUBSYSTEM=usb",
        "DEVNAME=bus/usb/001/017",
        "DEVTYPE=usb_device",
        "PRODUCT=1050/407/543",
        "TYPE=0/0/0",
        "BUSNUM=001",
        "DEVNUM=017",
        "SEQNUM=8412",
        "MAJOR=189",
        "MINOR=16",
    ])
}

fn parse(bytes: &[u8]) -> Result<Option<SensorEvent>, UeventParseError> {
    parse_uevent(bytes)
}

#[test]
fn add_of_a_usb_device_yields_an_added_event_with_its_id() {
    let event = parse(&add_yubikey()).unwrap().unwrap();
    assert_eq!(event.source, SensorSource::Usb);
    assert_eq!(event.kind, EventKind::Added);
    assert_eq!(event.identity.usb_id, Some(UsbId::new(0x1050, 0x0407)));
    assert_eq!(event.raw.get("DEVNUM").map(String::as_str), Some("017"));
    assert_eq!(event.raw.get("SEQNUM").map(String::as_str), Some("8412"));
    assert!(!event
        .raw
        .contains_key("add@/devices/pci0000:00/0000:00:14.0/usb1/1-3"));
}

#[test]
fn remove_of_a_usb_device_yields_a_removed_event() {
    let bytes = wire(&[
        "remove@/devices/pci0000:00/0000:00:14.0/usb1/1-3",
        "ACTION=remove",
        "SUBSYSTEM=usb",
        "DEVTYPE=usb_device",
        "PRODUCT=1050/407/543",
    ]);
    let event = parse(&bytes).unwrap().unwrap();
    assert_eq!(event.kind, EventKind::Removed);
    assert_eq!(event.identity.usb_id, Some(UsbId::new(0x1050, 0x0407)));
}

#[test]
fn product_hex_is_read_without_leading_zeros() {
    let bytes = wire(&[
        "add@/devices/x",
        "ACTION=add",
        "SUBSYSTEM=usb",
        "DEVTYPE=usb_device",
        "PRODUCT=1d6b/2/606",
    ]);
    let event = parse(&bytes).unwrap().unwrap();
    assert_eq!(event.identity.usb_id, Some(UsbId::new(0x1d6b, 0x0002)));
}

#[test]
fn serial_is_captured_when_the_kernel_provides_it() {
    let bytes = wire(&[
        "add@/devices/x",
        "ACTION=add",
        "SUBSYSTEM=usb",
        "DEVTYPE=usb_device",
        "PRODUCT=0781/5567/100",
        "SERIAL=4C530001234567890123",
    ]);
    let event = parse(&bytes).unwrap().unwrap();
    assert_eq!(
        event.identity.serial.as_deref(),
        Some("4C530001234567890123")
    );
}

#[test]
fn a_hostile_serial_is_sanitized_at_the_parser() {
    let bytes = wire(&[
        "add@/devices/x",
        "ACTION=add",
        "SUBSYSTEM=usb",
        "DEVTYPE=usb_device",
        "PRODUCT=0781/5567/100",
        "SERIAL=\x1b[2Jowned\x07",
    ]);
    let event = parse(&bytes).unwrap().unwrap();
    let serial = event.identity.serial.unwrap();
    assert!(
        !serial.contains('\x1b') && !serial.contains('\x07'),
        "control characters must not survive: {serial:?}"
    );
    assert!(serial.contains("owned"));
}

#[test]
fn an_over_long_serial_is_truncated() {
    let long = "A".repeat(MAX_DEVICE_STRING * 4);
    let bytes = wire(&[
        "add@/devices/x",
        "ACTION=add",
        "SUBSYSTEM=usb",
        "DEVTYPE=usb_device",
        "PRODUCT=0781/5567/100",
        &format!("SERIAL={long}"),
    ]);
    let event = parse(&bytes).unwrap().unwrap();
    assert_eq!(
        event.identity.serial.unwrap().chars().count(),
        MAX_DEVICE_STRING
    );
}

#[test]
fn a_usb_interface_event_is_ignored() {
    let bytes = wire(&[
        "add@/devices/x/1-3:1.0",
        "ACTION=add",
        "SUBSYSTEM=usb",
        "DEVTYPE=usb_interface",
        "PRODUCT=1050/407/543",
    ]);
    assert_eq!(parse(&bytes).unwrap(), None);
}

#[test]
fn a_non_usb_subsystem_is_ignored() {
    let bytes = wire(&[
        "add@/devices/virtual/block/loop0",
        "ACTION=add",
        "SUBSYSTEM=block",
        "DEVTYPE=disk",
    ]);
    assert_eq!(parse(&bytes).unwrap(), None);
}

#[test]
fn a_missing_subsystem_is_ignored_not_an_error() {
    let bytes = wire(&["add@/devices/x", "ACTION=add", "DEVTYPE=usb_device"]);
    assert_eq!(parse(&bytes).unwrap(), None);
}

#[test]
fn non_add_remove_actions_are_ignored() {
    for action in ["change", "bind", "unbind", "move", "online", "offline"] {
        let mut bytes = wire(&[
            "x@/devices/y",
            "SUBSYSTEM=usb",
            "DEVTYPE=usb_device",
            "PRODUCT=1050/407/543",
        ]);
        bytes.extend_from_slice(format!("ACTION={action}\0").as_bytes());
        assert_eq!(parse(&bytes).unwrap(), None, "action {action:?}");
    }
}

#[test]
fn a_usb_device_with_no_product_still_emits_an_event_without_an_id() {
    let bytes = wire(&[
        "add@/devices/x",
        "ACTION=add",
        "SUBSYSTEM=usb",
        "DEVTYPE=usb_device",
    ]);
    let event = parse(&bytes).unwrap().unwrap();
    assert_eq!(event.kind, EventKind::Added);
    assert_eq!(event.identity.usb_id, None);
}

#[test]
fn a_usb_device_with_a_malformed_product_still_emits_without_an_id() {
    for product in [
        "PRODUCT=garbage",
        "PRODUCT=1050",
        "PRODUCT=/",
        "PRODUCT=zzzz/0407/1",
    ] {
        let bytes = wire(&[
            "add@/devices/x",
            "ACTION=add",
            "SUBSYSTEM=usb",
            "DEVTYPE=usb_device",
            product,
        ]);
        let event = parse(&bytes).unwrap().unwrap();
        assert_eq!(event.identity.usb_id, None, "{product}");
    }
}

#[test]
fn an_empty_payload_is_an_error() {
    assert_eq!(parse(b""), Err(UeventParseError::Empty));
}

#[test]
fn a_libudev_framed_message_is_an_error() {
    let mut bytes = b"libudev\0\xfe\xed\xca\xfe".to_vec();
    bytes.extend_from_slice(b"ACTION=add\0");
    assert_eq!(parse(&bytes), Err(UeventParseError::LibudevFraming));
}

#[test]
fn a_non_utf8_payload_is_an_error() {
    let bytes = b"add@/devices/x\0ACTION=add\0SUBSYSTEM=\xff\xfe\0".to_vec();
    assert_eq!(parse(&bytes), Err(UeventParseError::NotUtf8));
}

#[test]
fn a_segment_that_is_not_key_value_is_an_error() {
    let bytes = wire(&[
        "add@/devices/x",
        "ACTION=add",
        "SUBSYSTEM=usb",
        "this-has-no-equals-sign",
    ]);
    assert_eq!(
        parse(&bytes),
        Err(UeventParseError::MalformedSegment {
            segment: "this-has-no-equals-sign".to_owned(),
        })
    );
}

#[test]
fn a_payload_with_no_action_is_an_error() {
    let bytes = wire(&["add@/devices/x", "SUBSYSTEM=usb", "DEVTYPE=usb_device"]);
    assert_eq!(parse(&bytes), Err(UeventParseError::MissingAction));
}

#[test]
fn a_value_may_contain_an_equals_sign() {
    let bytes = wire(&[
        "add@/devices/x",
        "ACTION=add",
        "SUBSYSTEM=usb",
        "DEVTYPE=usb_device",
        "PRODUCT=1050/407/543",
        "DEVLINKS=/dev/foo=bar",
    ]);
    let event = parse(&bytes).unwrap().unwrap();
    assert_eq!(
        event.raw.get("DEVLINKS").map(String::as_str),
        Some("/dev/foo=bar")
    );
}

#[test]
fn a_trailing_nul_does_not_produce_an_empty_segment_error() {
    let mut bytes = add_yubikey();
    bytes.push(0);
    bytes.push(0);
    assert!(parse(&bytes).unwrap().is_some());
}

#[test]
fn name_is_stable() {
    assert_eq!(UsbNetlinkSensor::new().name(), "usb-netlink");
}

#[test]
fn non_linux_refuses_to_arm_and_refuses_to_run() {
    let sensor = UsbNetlinkSensor::new();
    assert!(matches!(
        sensor.preflight(false, Ok(())),
        Err(SensorError::UnsupportedPlatform)
    ));
    assert!(sensor.preflight(true, Ok(())).is_ok());
    assert_eq!(
        sensor.preflight(true, Err(SensorError::OpenSocket("EPERM".to_owned()))),
        Err(SensorError::OpenSocket("EPERM".to_owned()))
    );
}

#[test]
fn every_sensor_error_has_its_message() {
    let e = || "EPERM".to_owned();
    assert_eq!(
        SensorError::OpenSocket(e()).to_text(),
        "could not open the netlink uevent socket: EPERM"
    );
    assert_eq!(
        SensorError::BindSocket(e()).to_text(),
        "could not bind the netlink uevent socket to the kernel group: EPERM"
    );
    assert_eq!(
        SensorError::ConfigureSocket(e()).to_text(),
        "could not configure the netlink uevent socket: EPERM"
    );
    assert_eq!(
        SensorError::Recv(e()).to_text(),
        "reading from the netlink uevent socket failed: EPERM"
    );
    assert_eq!(SensorError::Panicked.to_text(), "the sensor thread panicked");
    assert_eq!(
        SensorError::UnsupportedPlatform.to_text(),
        "the USB sensor is only available on Linux"
    );
}

#[test]
fn every_uevent_error_has_its_message() {
    for e in [
        UeventParseError::Empty,
        UeventParseError::LibudevFraming,
        UeventParseError::NotUtf8,
        UeventParseError::MalformedSegment { segment: "x".to_owned() },
        UeventParseError::MissingAction,
    ] {
        assert!(!e.to_text().is_empty());
    }
    assert!(UeventParseError::MalformedSegment { segment: "a\"b".to_owned() }
        .to_text()
        .contains("\"a\\\"b\""));
}

#[test]
fn products_are_two_hex_fields_and_a_revision() {
    assert_eq!(parse_product("1050/407/543"), Some(UsbId::new(0x1050, 0x0407)));
    assert_eq!(parse_product("1D6B/2/1"), Some(UsbId::new(0x1d6b, 2)));
    assert_eq!(parse_product("10500/407/543"), None);
    assert_eq!(parse_product(""), None);
}

#[test]
fn only_the_kernel_is_believed() {
    let mut s = SensorLoop::new();
    let forged = Received::Datagram { bytes: add_yubikey(), port: Some(77) };
    assert_eq!(s.on_receive(&forged, 100), SensorStep::ReportForged { total: 1 });
    assert_eq!(s.on_receive(&forged, 101), SensorStep::Wait);
    let unnamed = Received::Datagram { bytes: add_yubikey(), port: None };
    assert_eq!(
        s.on_receive(&unnamed, 100 + FORGED_LOG_INTERVAL_SECS),
        SensorStep::ReportForged { total: 3 }
    );
    let real = Received::Datagram { bytes: add_yubikey(), port: Some(0) };
    assert!(matches!(
        s.on_receive(&real, 102),
        SensorStep::Send(SensorMessage::Event(SensorEvent { kind: EventKind::Added, .. }))
    ));
}

#[test]
fn what_cannot_be_read_counts_as_lost() {
    let mut s = SensorLoop::new();
    assert_eq!(s.on_receive(&Received::Idle, 0), SensorStep::Wait);
    assert_eq!(
        s.on_receive(&Received::Lost, 0),
        SensorStep::Send(SensorMessage::EventsLost)
    );
    let junk = Received::Datagram { bytes: vec![0xff, 0xfe], port: Some(0) };
    assert_eq!(s.on_receive(&junk, 0), SensorStep::SendLost(UeventParseError::NotUtf8));
    let other = wire(&["add@/x", "ACTION=add", "SUBSYSTEM=net"]);
    assert_eq!(
        s.on_receive(&Received::Datagram { bytes: other, port: Some(0) }, 0),
        SensorStep::Wait
    );
}

#[test]
fn the_supervisor_backs_off_and_gives_up() {
    let mut s = Supervisor::new();
    let waits: Vec<SupervisorStep> = (0..MAX_RESPAWNS).map(|_| s.on_stopped(0)).collect();
    assert_eq!(
        waits,
        [1, 2, 5, 15, 30].map(|backoff_secs| SupervisorStep::Respawn { backoff_secs })
    );
    assert_eq!(s.on_stopped(0), SupervisorStep::GiveUp);
    assert_eq!(
        s.on_stopped(HEALTHY_RUN_SECS),
        SupervisorStep::Respawn { backoff_secs: 1 },
        "a healthy run starts the count over"
    );
}

#[test]
fn the_core_hears_of_everything_the_sensor_says_and_of_its_end() {
    let mut s = Supervisor::new();
    for (said, heard) in [
        (SensorMessage::Started, "SensorStarted"),
        (SensorMessage::EventsLost, "SensorLost"),
    ] {
        match s.on_event(SupervisorEvent::Message(said), false) {
            SupervisorAction::Forward(msg) => assert_eq!(format!("{msg:?}"), heard),
            other => panic!("got {other:?}"),
        }
    }
    let event = parse(&add_yubikey()).unwrap().unwrap();
    assert!(matches!(
        s.on_event(SupervisorEvent::Message(SensorMessage::Event(event)), true),
        SupervisorAction::Forward(Msg::Sensor(_))
    ));
    assert!(matches!(s.on_event(SupervisorEvent::Quiet, false), SupervisorAction::Listen));
    assert!(matches!(s.on_event(SupervisorEvent::Quiet, true), SupervisorAction::StopSensor));
    assert!(matches!(
        s.on_event(SupervisorEvent::SpawnFailed, false),
        SupervisorAction::GiveUp
    ));
    assert!(matches!(
        s.on_event(SupervisorEvent::Gone { ran_secs: 0 }, true),
        SupervisorAction::End
    ));
    for _ in 0..MAX_RESPAWNS {
        assert!(matches!(
            s.on_event(SupervisorEvent::Gone { ran_secs: 0 }, false),
            SupervisorAction::Restart { .. }
        ));
    }
    assert!(matches!(
        s.on_event(SupervisorEvent::Gone { ran_secs: 0 }, false),
        SupervisorAction::GiveUp
    ));
}
