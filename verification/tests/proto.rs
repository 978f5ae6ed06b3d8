//! Ids, actions, time stamps, strings and frames.

use killbill::proto::action::{Action, KillReason, PowerAction};
use killbill::proto::clock::{civil_from_days, format_rfc3339, rfc3339_now, unix_seconds};
use killbill::proto::debug::reply_text;
use killbill::proto::protocol::{
    decode, encode, sanitize_device_string, Command, ConfigChange, ConfigPayload, DeviceInfo,
    LuksDestroyInfo, OnSensorGap, ProtocolError, Reply, StatusPayload, WhitelistEntry,
    MAX_BODY_LEN, MAX_CONTROL_FRAME, MAX_DEVICE_STRING,
};
use killbill::proto::sensor_event::{
    DeviceIdentity, EventKind, RawFields, SensorEvent, SensorSource, UsbId,
};

const ARM: &[u8] = b"{\"cmd\":\"arm\"}";
const DISARM: &[u8] = b"{\"cmd\":\"disarm\"}";

#[test]
fn usb_id_round_trips_through_string() {
    let id = UsbId::new(0x1050, 0x0407);
    assert_eq!(id.to_text(), "1050:0407");
    assert_eq!("1050:0407".parse::<UsbId>().unwrap(), id);
}

#[test]
fn usb_id_display_is_zero_padded_lowercase() {
    assert_eq!(UsbId::new(0x0a, 0x0b).to_text(), "000a:000b");
}

#[test]
fn usb_id_rejects_malformed_input() {
    for bad in [
        "",
        "1050",
        "1050:",
        ":0407",
        "12:34",
        "12345:6789",
        "105g:0407",
        "0x10:0x04",
        "1050:0407:0000",
        " 1050:0407",
    ] {
        assert!(
            bad.parse::<UsbId>().is_err(),
            "expected {bad:?} to be rejected"
        );
    }
}

#[test]
fn a_rejected_id_is_named() {
    assert_eq!(
        UsbId::parse("no\"pe").unwrap_err().to_text(),
        "invalid USB id \"no\\\"pe\": expected four hex digits, a colon, four hex digits (e.g. 1050:0407)"
    );
    assert_eq!(UsbId::parse("ABCD:ef01"), Ok(UsbId::new(0xabcd, 0xef01)));
}

#[test]
fn kill_reason_display_uses_hex_usb_ids() {
    let text = KillReason::CountExceeded {
        id: UsbId::new(0x1050, 0x0407),
        max: 1,
        seen: 2,
    }
    .to_text();
    assert!(text.contains("1050:0407"), "got: {text}");
    assert!(text.contains("limit 1"), "got: {text}");

    assert_eq!(
        KillReason::DeviceRemoved { id: None }.to_text(),
        "an unidentified device was disconnected"
    );
}

#[test]
fn every_kill_reason_has_its_sentence() {
    let id = UsbId::new(0x1050, 0x0407);
    assert_eq!(
        KillReason::UnknownDevice { id }.to_text(),
        "unknown device 1050:0407 was connected"
    );
    assert_eq!(
        KillReason::UnidentifiedDevice.to_text(),
        "a device with no readable USB id was connected"
    );
    assert_eq!(
        KillReason::CountExceeded { id, max: 1, seen: 12 }.to_text(),
        "too many copies of 1050:0407 connected (12 present, limit 1)"
    );
    assert_eq!(
        KillReason::WhitelistedDeviceRemoved { id }.to_text(),
        "whitelisted device 1050:0407 was disconnected"
    );
    assert_eq!(
        KillReason::DeviceRemoved { id: Some(id) }.to_text(),
        "device 1050:0407 was disconnected"
    );
    assert_eq!(KillReason::SensorGap.to_text(), "the sensor lost device events");
}

#[test]
fn defaults_are_the_documented_ones() {
    assert_eq!(PowerAction::default(), PowerAction::PowerOff);
    assert_eq!(PowerAction::PowerOff.as_str(), "poweroff");
    assert_eq!(PowerAction::Halt.as_str(), "halt");
    assert_eq!(PowerAction::NoAction.as_str(), "none");
    assert_eq!(OnSensorGap::default(), OnSensorGap::Warn);
    assert_eq!(OnSensorGap::Warn.as_str(), "warn");
    assert_eq!(OnSensorGap::Kill.as_str(), "kill");
    assert_eq!(SensorSource::Usb.as_str(), "usb");
    let a = Action {
        reason: KillReason::UnidentifiedDevice,
        power: PowerAction::default(),
        luks_destroy: false,
        dry_run: true,
    };
    assert_eq!(a, a.clone());
}

#[test]
fn raw_fields_hold_one_value_for_each_key() {
    let mut raw = RawFields::new();
    raw.insert("ACTION".to_owned(), "add".to_owned());
    raw.insert("SUBSYSTEM".to_owned(), "usb".to_owned());
    raw.insert("ACTION".to_owned(), "remove".to_owned());
    assert_eq!(raw.get("ACTION").map(String::as_str), Some("remove"));
    assert!(raw.contains_key("SUBSYSTEM"));
    assert!(!raw.contains_key("PRODUCT"));
    let event = SensorEvent {
        source: SensorSource::Usb,
        kind: EventKind::Added,
        identity: DeviceIdentity::default(),
        raw,
    };
    assert_eq!(event.identity.usb_id, None);
}

#[test]
fn requires_root_is_a_closed_allow_list() {
    assert!(!Command::GetStatus.requires_root());
    assert!(!Command::ListDevices.requires_root());
    assert!(!Command::WhitelistList.requires_root());
    assert!(Command::Arm.requires_root());
    assert!(Command::Disarm.requires_root());
    assert!(Command::ReloadConfig.requires_root());
    assert!(Command::RunDryRun.requires_root());
    assert!(Command::Subscribe.requires_root());
    assert!(Command::WhitelistRemove(UsbId::new(0x1050, 0x0407)).requires_root());
    assert!(Command::GetConfig.requires_root());
    assert!(Command::ConfigSet(ConfigChange::DryRun(true)).requires_root());
    assert!(Command::SetLuksDestroyEngaged(true).requires_root());
}

#[test]
fn rfc3339_now_has_the_right_shape() {
    let s = rfc3339_now();
    assert_eq!(s.len(), 20, "got: {s}");
    assert!(s.ends_with('Z'), "got: {s}");
    assert_eq!(s.as_bytes()[4], b'-');
    assert_eq!(s.as_bytes()[7], b'-');
    assert_eq!(s.as_bytes()[10], b'T');
    assert_eq!(s.as_bytes()[13], b':');
    assert_eq!(s.as_bytes()[16], b':');
}

#[test]
fn format_rfc3339_matches_known_instants() {
    assert_eq!(
        format_rfc3339(0),
        "1970-01-01T00:00:00Z",
        "the epoch itself"
    );
    assert_eq!(
        format_rfc3339(86_400),
        "1970-01-02T00:00:00Z",
        "one day later"
    );
    assert_eq!(
        format_rfc3339(946_684_800),
        "2000-01-01T00:00:00Z"
    );
    assert_eq!(
        format_rfc3339(946_684_800 + 59 * 86_400),
        "2000-02-29T00:00:00Z",
        "leap day"
    );
    assert_eq!(
        format_rfc3339(-86_400),
        "1969-12-31T00:00:00Z"
    );
    assert_eq!(
        format_rfc3339(946_684_800 + 3661),
        "2000-01-01T01:01:01Z"
    );
}

#[test]
fn sanitize_device_string_keeps_printable_ascii_and_replaces_the_rest() {
    assert_eq!(sanitize_device_string("YubiKey 5C"), "YubiKey 5C");
    assert_eq!(
        sanitize_device_string("4C530001234567890123"),
        "4C530001234567890123"
    );
    let printable: String = (0x20u8..=0x7e).map(char::from).collect();
    assert_eq!(sanitize_device_string(&printable), printable);

    assert_eq!(sanitize_device_string("\x1b[2Jgotcha"), "\u{fffd}[2Jgotcha");
    assert_eq!(sanitize_device_string("a\tb\nc"), "a\u{fffd}b\u{fffd}c");
    assert_eq!(sanitize_device_string("Café"), "Caf\u{fffd}");
}

#[test]
fn sanitize_device_string_admits_nothing_outside_printable_ascii() {
    let hostile = [
        "\u{1b}[2J",
        "\u{9b}0m",
        "\u{202e}gnihtemos",
        "a\u{200b}b",
        "\u{feff}x",
        "y\u{2066}z",
        "\u{061c}m",
        "\u{e0041}tag",
        "e\u{fe0f}",
        "a\u{0301}\u{0301}",
        "l\u{2028}p",
        "\u{00ad}soft",
    ];
    for input in hostile {
        let out = sanitize_device_string(input);
        assert!(
            out.chars()
                .all(|c| c.is_ascii_graphic() || c == ' ' || c == '\u{fffd}'),
            "something outside printable ASCII survived {input:?}: {out:?}"
        );
    }
}

#[test]
fn sanitize_device_string_caps_length() {
    let n = sanitize_device_string(&"A".repeat(MAX_DEVICE_STRING * 3))
        .chars()
        .count();
    assert_eq!(n, MAX_DEVICE_STRING);
}

#[test]
fn frame_round_trips() {
    let frame = encode(ARM).unwrap();
    let (decoded, consumed) = decode(&frame).unwrap();
    assert_eq!(decoded, ARM);
    assert_eq!(consumed, frame.len());
}

#[test]
fn decode_reports_frame_length_so_a_buffer_can_advance() {
    let mut buf = encode(ARM).unwrap();
    let first_len = buf.len();
    buf.extend(encode(DISARM).unwrap());

    let (a, consumed) = decode(&buf).unwrap();
    assert_eq!(a, ARM);
    assert_eq!(consumed, first_len);
    let (b, _) = decode(&buf[consumed..]).unwrap();
    assert_eq!(b, DISARM);
}

#[test]
fn decode_rejects_short_header() {
    let err = decode(&[0, 0, 1]).unwrap_err();
    assert!(matches!(err, ProtocolError::ShortHeader(3)));
}

#[test]
fn decode_rejects_truncated_body() {
    let mut frame = encode(ARM).unwrap();
    frame.pop();
    let err = decode(&frame).unwrap_err();
    assert!(matches!(err, ProtocolError::Truncated { .. }));
}

#[test]
fn decode_rejects_oversized_length_without_allocating() {
    let frame = [0xff, 0xff, 0xff, 0xff];
    let err = decode(&frame).unwrap_err();
    assert!(matches!(err, ProtocolError::FrameTooLarge { .. }));
}

/// The longest string whose JSON is exactly [`MAX_BODY_LEN`] bytes: the quotes take two.
fn max_body_payload() -> String {
    let s = "x".repeat(MAX_BODY_LEN - 2);
    assert_eq!(
        serde_json::to_vec(&s).unwrap().len(),
        MAX_BODY_LEN,
        "the JSON quoting overhead assumed here has changed"
    );
    s
}

#[test]
fn encode_rejects_a_body_that_would_not_fit_a_readers_buffer() {
    assert!(encode(&serde_json::to_vec(&max_body_payload()).unwrap()).is_ok());

    let one_too_long = format!("{}x", max_body_payload());
    let err = encode(&serde_json::to_vec(&one_too_long).unwrap()).unwrap_err();
    assert!(matches!(err, ProtocolError::FrameTooLarge { len } if len == MAX_BODY_LEN + 1));
}

#[test]
fn a_max_size_frame_survives_a_reader_sized_buffer() {
    let body = max_body_payload();
    let frame = encode(&serde_json::to_vec(&body).unwrap()).unwrap();
    assert_eq!(
        frame.len(),
        MAX_CONTROL_FRAME,
        "a maximal frame must fill the reader buffer exactly, not overflow it"
    );

    let mut buf = vec![0u8; MAX_CONTROL_FRAME];
    let n = frame.len();
    buf[..n].copy_from_slice(&frame);
    let (decoded, consumed) = decode(&buf[..n]).unwrap();
    assert_eq!(serde_json::from_slice::<String>(decoded).unwrap(), body);
    assert_eq!(consumed, n);
}

#[test]
fn decode_rejects_a_declared_length_over_the_body_limit() {
    let header = ((MAX_BODY_LEN + 1) as u32).to_be_bytes();
    let err = decode(&header).unwrap_err();
    assert!(matches!(err, ProtocolError::FrameTooLarge { .. }));
}

#[test]
fn a_frame_is_a_big_endian_length_and_the_body() {
    let body = vec![7u8; 0x0102];
    let frame = encode(&body).unwrap();
    assert_eq!(frame[..4], [0, 0, 1, 2]);
    assert_eq!(frame[4..], body[..]);
}

#[test]
fn every_protocol_error_has_its_message() {
    assert_eq!(
        ProtocolError::FrameTooLarge { len: 70000 }.to_text(),
        "frame body is 70000 bytes, over the 65532 byte limit"
    );
    assert_eq!(
        ProtocolError::Truncated { expected: 9, actual: 4 }.to_text(),
        "frame is truncated: header declares 9 body bytes, 4 present"
    );
    assert_eq!(
        ProtocolError::ShortHeader(3).to_text(),
        "frame header is incomplete: need 4 bytes, got 3"
    );
}

#[test]
fn dates_before_and_after_the_epoch() {
    assert_eq!(civil_from_days(0), (1970, 1, 1));
    assert_eq!(civil_from_days(-1), (1969, 12, 31));
    assert_eq!(civil_from_days(11_016), (2000, 2, 29));
    assert_eq!(civil_from_days(-719_469), (0, 2, 29));
    assert_eq!(format_rfc3339(-1), "1969-12-31T23:59:59Z");
    assert_eq!(unix_seconds(Ok(5)), 5);
    assert_eq!(unix_seconds(Err(5)), -5);
}

#[test]
fn a_reply_in_full_names_every_field() {
    assert_eq!(reply_text(&Reply::Done), "Ok");
    let status = Reply::Status(StatusPayload {
        armed: true,
        dry_run: false,
        power_action: PowerAction::NoAction,
        whitelist_len: 1,
        device_count: 20,
        config_error: Some("x".to_owned()),
        sensor_ok: true,
        events_lost: false,
        config_stale: false,
    });
    assert_eq!(
        reply_text(&status),
        "Status(StatusPayload { armed: true, dry_run: false, power_action: None, whitelist_len: 1, \
         device_count: 20, config_error: Some(\"x\"), sensor_ok: true, events_lost: false, \
         config_stale: false })"
    );
    let id = UsbId::new(0x1050, 0x0407);
    assert_eq!(
        reply_text(&Reply::Whitelist(vec![WhitelistEntry {
            id,
            label: None,
            max_count: Some(2),
        }])),
        "Whitelist([WhitelistEntry { id: UsbId { vendor: 4176, product: 1031 }, label: None, \
         max_count: Some(2) }])"
    );
    assert_eq!(
        reply_text(&Reply::Devices(vec![DeviceInfo {
            source: SensorSource::Usb,
            id: None,
            serial: Some("1".to_owned()),
            label: None,
            whitelisted: false,
        }])),
        "Devices([DeviceInfo { source: Usb, id: None, serial: Some(\"1\"), label: None, \
         whitelisted: false }])"
    );
    assert_eq!(
        reply_text(&Reply::DryRun(vec![
            KillReason::UnidentifiedDevice,
            KillReason::DeviceRemoved { id: None },
        ])),
        "DryRun([UnidentifiedDevice, DeviceRemoved { id: None }])"
    );
    assert_eq!(
        reply_text(&Reply::Config(ConfigPayload {
            armed_at_boot: false,
            sensors: vec!["usb".to_owned()],
            dry_run: false,
            power_action: PowerAction::PowerOff,
            on_sensor_gap: OnSensorGap::Warn,
            luks_destroy: Some(LuksDestroyInfo {
                acknowledged: true,
                target_header: "/dev/sda".to_owned(),
                engaged: false,
            }),
            validation_error: None,
        })),
        "Config(ConfigPayload { armed_at_boot: false, sensors: [\"usb\"], dry_run: false, \
         power_action: PowerOff, on_sensor_gap: Warn, luks_destroy: Some(LuksDestroyInfo { \
         acknowledged: true, target_header: \"/dev/sda\", engaged: false }), \
         validation_error: None })"
    );
}

#[test]
fn every_day_has_a_date() {
    assert_eq!(civil_from_days(i64::MAX), (25_252_734_927_768_524, 7, 27));
    assert_eq!(civil_from_days(i64::MIN), (-25_252_734_927_764_585, 6, 7));
    assert!(civil_from_days(i64::MAX - 1) < civil_from_days(i64::MAX));
    assert!(civil_from_days(i64::MIN) < civil_from_days(i64::MIN + 1));
}

#[test]
fn raw_fields_are_the_same_in_any_order() {
    let fields = |pairs: &[(&str, &str)]| {
        let mut raw = RawFields::new();
        for (k, v) in pairs {
            raw.insert((*k).to_owned(), (*v).to_owned());
        }
        raw
    };
    let a = fields(&[("ACTION", "add"), ("SEQNUM", "1")]);
    assert_eq!(a, fields(&[("SEQNUM", "1"), ("ACTION", "add")]));
    assert_eq!(a, fields(&[("SEQNUM", "0"), ("ACTION", "add"), ("SEQNUM", "1")]));
    assert_ne!(a, fields(&[("ACTION", "add")]));
    assert_ne!(a, fields(&[("ACTION", "add"), ("SEQNUM", "2")]));
}

#[test]
fn an_id_read_in_upper_case_is_written_in_lower_case() {
    for text in ["1D6B:00fF", "abCD:EF01", "0000:0407"] {
        assert_eq!(text.parse::<UsbId>().unwrap().to_text(), text.to_lowercase());
    }
    assert_eq!("1d6b-0002".parse::<UsbId>().unwrap_err().input, "1d6b-0002");
}
