use hyperx::capture::{diff_captures, parse_hex_capture, ByteChange, CaptureParseError, CapturedReport};
use hyperx::device::UsbId;
use hyperx::hid::{non_empty, HidError, HidTransport, MockHidTransport};
use hyperx::hid_descriptor::{parse_report_layouts, DescriptorError};
use hyperx::registry::{find_supported_device, pulsefire_raid};
use hyperx::wire::{format_hex, Direction};

#[test]
fn recognizes_pulsefire_raid() {
    let found = find_supported_device(UsbId {
        vendor_id: 0x0951,
        product_id: 0x16E4,
    });

    assert_eq!(found, Some(pulsefire_raid()));
}

#[test]
fn does_not_guess_unknown_hyperx_device() {
    assert_eq!(
        find_supported_device(UsbId {
            vendor_id: 0x0951,
            product_id: 0xFFFF,
        }),
        None
    );
}

#[test]
fn usb_ids_format_as_upper_hex_pairs() {
    assert_eq!(
        UsbId {
            vendor_id: 0x0951,
            product_id: 0x16E4,
        }
        .to_string(),
        "0951:16E4"
    );
}

#[test]
fn mock_transport_verifies_tx_and_supplies_rx() {
    let mut transport = MockHidTransport::new(1);
    transport.expect_feature_report(&[0x07, 0x0A, 0xA0]);
    transport.queue_feature_response(&[0x07, 0x01]);

    assert_eq!(
        transport.send_feature_report(&[0x07, 0x0A, 0xA0]).unwrap(),
        3
    );
    let mut response = [0_u8; 8];
    assert_eq!(transport.get_feature_report(&mut response).unwrap(), 2);
    assert_eq!(&response[..2], &[0x07, 0x01]);
    transport.assert_drained().unwrap();
}

#[test]
fn mock_transport_rejects_an_unexpected_packet() {
    let mut transport = MockHidTransport::new(1);
    transport.expect_feature_report(&[0x07, 0x0A]);

    let error = transport.send_feature_report(&[0x07, 0x0B]).unwrap_err();
    assert!(error.to_string().contains("report mismatch"));
}

#[test]
fn mock_transport_reports_exhaustion_and_leftovers() {
    let mut transport = MockHidTransport::new(2);
    assert_eq!(transport.interface_number(), 2);
    assert!(transport.write(&[0x01]).is_err());
    let mut buffer = [0_u8; 4];
    assert!(transport.read_timeout(&mut buffer, 10).is_err());
    transport.queue_input_report(&[0xAA, 0xBB]);
    assert!(transport.assert_drained().is_err());
    assert_eq!(transport.read_timeout(&mut buffer, 10).unwrap(), 2);
    assert_eq!(&buffer[..2], &[0xAA, 0xBB]);
    transport.expect_output_report(&[0x05]);
    assert_eq!(transport.write(&[0x05]).unwrap(), 1);
    transport.assert_drained().unwrap();
}

#[test]
fn hid_errors_describe_their_cause() {
    assert_eq!(
        HidError::Transport("timeout".to_owned()).to_string(),
        "HID transport error: timeout"
    );
    assert_eq!(
        HidError::Backend("busy".to_owned()).to_string(),
        "HID backend error: busy"
    );
    assert_eq!(non_empty(Some("")), None);
    assert_eq!(non_empty(Some("Raid")), Some("Raid".to_owned()));
    assert_eq!(non_empty(None), None);
}

#[test]
fn parses_directions_comments_and_optional_prefixes() {
    let capture =
        parse_hex_capture("# test\nTX 07 0A FF 00\nRX 0x07 01 # response\n\n01 02\n").unwrap();

    assert_eq!(capture.len(), 3);
    assert_eq!(capture[0].direction, Some(Direction::Tx));
    assert_eq!(capture[0].bytes, [0x07, 0x0A, 0xFF, 0x00]);
    assert_eq!(capture[1].direction, Some(Direction::Rx));
    assert_eq!(capture[2].direction, None);
}

#[test]
fn reports_the_line_and_invalid_token() {
    assert_eq!(
        parse_hex_capture("# header\nTX 07 XYZ"),
        Err(CaptureParseError::InvalidByte {
            line: 2,
            token: "XYZ".to_owned(),
        })
    );
}

#[test]
fn capture_accepts_lower_case_directions_and_reports_line_numbers() {
    let capture = parse_hex_capture("tx 0a\n  rx 0XFF  \n").unwrap();
    assert_eq!(capture[0].direction, Some(Direction::Tx));
    assert_eq!(capture[0].bytes, [0x0A]);
    assert_eq!(capture[1].bytes, [0xFF]);
    assert_eq!(
        parse_hex_capture("07 123"),
        Err(CaptureParseError::InvalidByte {
            line: 1,
            token: "123".to_owned(),
        })
    );
}

#[test]
fn diffs_offsets_lengths_and_missing_reports() {
    let before = parse_hex_capture("TX 07 0A 00\nRX 07 01").unwrap();
    let after = parse_hex_capture("TX 07 0A FF 10\n").unwrap();
    let diff = diff_captures(&before, &after);

    assert_eq!(diff.len(), 2);
    assert_eq!(
        diff[0].changes,
        [
            ByteChange {
                offset: 2,
                before: Some(0),
                after: Some(0xFF),
            },
            ByteChange {
                offset: 3,
                before: None,
                after: Some(0x10),
            },
        ]
    );
    assert_eq!(diff[1].before_direction, Some(Direction::Rx));
    assert_eq!(diff[1].after_len, 0);
}

#[test]
fn identical_captures_have_no_differences() {
    let capture = parse_hex_capture("TX 01 02\nRX 03").unwrap();
    assert!(diff_captures(&capture, &capture).is_empty());
}

#[test]
fn parses_numbered_feature_report_and_hidapi_length() {
    let descriptor = [
        0x85, 0x07, // Report ID 7
        0x75, 0x08, // Report Size 8 bits
        0x96, 0x07, 0x01, // Report Count 263
        0xB1, 0x02, // Feature
    ];

    let layouts = parse_report_layouts(&descriptor).unwrap();
    assert_eq!(layouts.len(), 1);
    assert_eq!(layouts[0].report_id, 7);
    assert_eq!(layouts[0].feature_bytes(), 263);
    assert_eq!(layouts[0].hidapi_feature_bytes(), 264);
}

#[test]
fn accumulates_main_items_and_separates_report_ids() {
    let descriptor = [
        0x85, 0x01, 0x75, 0x01, 0x95, 0x08, 0x81, 0x02, // ID 1, 8 input bits
        0x95, 0x10, 0x91, 0x02, // ID 1, 16 output bits
        0x85, 0x02, 0x75, 0x08, 0x95, 0x03, 0xB1, 0x02, // ID 2, 24 feature bits
    ];

    let layouts = parse_report_layouts(&descriptor).unwrap();
    assert_eq!(layouts.len(), 2);
    assert_eq!(layouts[0].input_bytes(), 1);
    assert_eq!(layouts[0].output_bytes(), 2);
    assert_eq!(layouts[1].feature_bytes(), 3);
}

#[test]
fn rejects_truncated_items() {
    assert_eq!(
        parse_report_layouts(&[0x76, 0x08]),
        Err(DescriptorError::TruncatedShortItem { offset: 0 })
    );
    assert_eq!(
        parse_report_layouts(&[0xFE, 0x04, 0x01, 0xAA]),
        Err(DescriptorError::TruncatedLongItem { offset: 0 })
    );
}

#[test]
fn unnumbered_reports_and_rounding_up_partial_bytes() {
    let descriptor = [0x75, 0x01, 0x95, 0x03, 0x81, 0x02];
    let layouts = parse_report_layouts(&descriptor).unwrap();
    assert_eq!(layouts.len(), 1);
    assert_eq!(layouts[0].report_id, 0);
    assert_eq!(layouts[0].input_bytes(), 1);
    assert_eq!(layouts[0].hidapi_feature_bytes(), 0);
    assert_eq!(parse_report_layouts(&[]), Ok(Vec::new()));
}

#[test]
fn golden_hex_format_is_uppercase_and_space_separated() {
    assert_eq!(format_hex(&[0x07, 0x0A, 0x00, 0xA0]), "07 0A 00 A0");
}

#[test]
fn empty_report_formats_cleanly() {
    assert_eq!(format_hex(&[]), "");
}

#[test]
fn directions_have_short_labels() {
    assert_eq!(Direction::Tx.to_string(), "TX");
    assert_eq!(Direction::Rx.to_string(), "RX");
}

#[test]
fn capture_comparison_report_lists_each_differing_report() {
    let before = parse_hex_capture("TX 07 0A 00\nRX 07 01").unwrap();
    let after = parse_hex_capture("TX 07 0A FF 10\nTX 07 01").unwrap();
    assert_eq!(
        hyperx::reports::capture_comparison_lines(&before, &after),
        vec![
            "Compared 2 baseline report(s) with 2 changed report(s).",
            "Report 1: TX 3 B -> TX 4 B",
            "  offset 0x0002: 00 -> FF",
            "  offset 0x0003: -- -> 10",
            "Report 2: RX 2 B -> TX 2 B",
            "  direction changed; payload is identical",
        ]
    );
    assert_eq!(
        hyperx::reports::capture_comparison_lines(&before, &before),
        vec![
            "Compared 2 baseline report(s) with 2 changed report(s).",
            "No differences found.",
        ]
    );
}

#[test]
fn formatted_capture_lines_parse_back_to_the_same_reports() {
    let reports = vec![
        CapturedReport {
            direction: Some(Direction::Tx),
            bytes: vec![0x07, 0x03, 0x04, 0x64],
        },
        CapturedReport {
            direction: Some(Direction::Rx),
            bytes: vec![0x07, 0x81, 0xAB],
        },
        CapturedReport {
            direction: None,
            bytes: vec![0x00],
        },
    ];
    let text = reports
        .iter()
        .map(|report| {
            let prefix = match report.direction {
                Some(direction) => format!("{} ", direction.to_string()),
                None => String::new(),
            };
            format!("{prefix}{}", format_hex(&report.bytes))
        })
        .collect::<Vec<_>>()
        .join("\n");
    assert_eq!(text, "TX 07 03 04 64\nRX 07 81 AB\n00");
    assert_eq!(parse_hex_capture(&text).unwrap(), reports);
}
