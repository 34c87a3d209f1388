use hyperx::discovery_report::configuration_lines;
use hyperx::hid_descriptor::ReportLayout;
use hyperx::device::{HidInterfaceInfo, UsbId};
use hyperx::discovery_report::{
    collections_with_usb_id, device_listing_lines, model_collections, sort_collections,
    supported_device_lines, unsupported_lines,
};
use hyperx::registry::pulsefire_raid;

fn collection(interface_number: i32, usage_page: u16, usage: u16, path: &str) -> HidInterfaceInfo {
    HidInterfaceInfo {
        path: path.to_owned(),
        vendor_id: 0x0951,
        product_id: 0x16E4,
        release_number: 0x1124,
        interface_number,
        usage_page,
        usage,
        manufacturer: None,
        product: None,
        serial_number: None,
    }
}

fn keyboard() -> HidInterfaceInfo {
    HidInterfaceInfo {
        path: "kbd".to_owned(),
        vendor_id: 0x046D,
        product_id: 0xC31C,
        release_number: 0x0110,
        interface_number: -1,
        usage_page: 0x0001,
        usage: 0x0006,
        manufacturer: Some("Logitech".to_owned()),
        product: None,
        serial_number: None,
    }
}

#[test]
fn sort_collections_orders_by_interface_then_usage_and_keeps_ties_in_place() {
    let sorted = sort_collections(vec![
        collection(2, 0xFF00, 0xFF00, "c"),
        collection(1, 0xFF01, 0x0001, "b"),
        collection(0, 0x0001, 0x0002, "a"),
        collection(1, 0xFF01, 0x0001, "b2"),
    ]);
    let paths: Vec<&str> = sorted.iter().map(|info| info.path.as_str()).collect();
    assert_eq!(paths, vec!["a", "b", "b2", "c"]);
}

#[test]
fn model_collections_keep_only_the_model_in_collection_order() {
    let interfaces = vec![
        collection(2, 0xFF00, 0xFF00, "c"),
        keyboard(),
        collection(0, 0x0001, 0x0002, "a"),
    ];
    let raid = UsbId { vendor_id: 0x0951, product_id: 0x16E4 };
    let mine = model_collections(&interfaces, raid);
    assert_eq!(mine.len(), 2);
    assert_eq!(mine[0].path, "a");
    assert_eq!(mine[1].path, "c");
    let others = collections_with_usb_id(&interfaces, raid, false);
    assert_eq!(others.len(), 1);
    assert_eq!(others[0].path, "kbd");
}

#[test]
fn supported_device_lines_describe_identity_strings_and_collections() {
    let mut first = collection(0, 0x0001, 0x0002, "a");
    first.product = Some("Pulsefire".to_owned());
    let mut second = collection(1, 0xFF01, 0x0001, "b");
    second.manufacturer = Some("HyperX".to_owned());
    second.product = Some("ignored".to_owned());
    let lines = supported_device_lines(&pulsefire_raid(), &[first, second]);
    assert_eq!(
        lines,
        vec![
            "HyperX Pulsefire Raid",
            "VID: 0x0951",
            "PID: 0x16E4",
            "Manufacturer: HyperX",
            "Product: Pulsefire",
            "Serial: <not available>",
            "Release: 0x1124",
            "Interfaces:",
            "  Interface 0",
            "    Usage Page: 0x0001",
            "    Usage: 0x0002",
            "    Path: a",
            "  Interface 1 [configuration]",
            "    Usage Page: 0xFF01",
            "    Usage: 0x0001",
            "    Path: b",
            "",
        ]
    );
}

#[test]
fn unsupported_lines_count_and_list_collections_with_signed_interfaces() {
    let lines = unsupported_lines(&[keyboard()]);
    assert_eq!(
        lines,
        vec![
            "Other HID collections: 1",
            "  046D:C31C interface=-1 usage_page=0x0001 usage=0x0006 path=kbd",
        ]
    );
}

#[test]
fn device_listing_reports_missing_model_and_other_collections_on_request() {
    let interfaces = vec![keyboard()];
    assert_eq!(
        device_listing_lines(&interfaces, false, &pulsefire_raid()),
        vec!["No supported HyperX mice found."]
    );
    assert_eq!(
        device_listing_lines(&interfaces, true, &pulsefire_raid()),
        vec![
            "No supported HyperX mice found.",
            "Other HID collections: 1",
            "  046D:C31C interface=-1 usage_page=0x0001 usage=0x0006 path=kbd",
        ]
    );
}

#[test]
fn device_listing_sorts_the_model_collections() {
    let interfaces = vec![collection(2, 0xFF00, 0xFF00, "c"), keyboard(), collection(1, 0xFF01, 0x0001, "b")];
    let lines = device_listing_lines(&interfaces, false, &pulsefire_raid());
    assert_eq!(lines[0], "HyperX Pulsefire Raid");
    assert_eq!(lines[7], "Interfaces:");
    assert_eq!(lines[8], "  Interface 1 [configuration]");
    assert_eq!(lines[12], "  Interface 2");
    assert_eq!(lines.len(), 17);
}

#[test]
fn configuration_lines_list_report_sizes_and_the_raw_descriptor() {
    let configuration = collection(1, 0xFF01, 0x0001, "b");
    let layouts = [
        ReportLayout { report_id: 0, input_bits: 9, output_bits: 0, feature_bits: 0 },
        ReportLayout { report_id: 7, input_bits: 0, output_bits: 8, feature_bits: 263 * 8 },
    ];
    let descriptor = [0x06u8, 0x01, 0xFF];
    let lines = configuration_lines(&configuration, &descriptor, &layouts, true);
    assert_eq!(
        lines,
        vec![
            "Configuration collection:",
            "  Interface: 1",
            "  Usage Page: 0xFF01",
            "  Usage: 0x0001",
            "  Report descriptor: 3 bytes",
            "Reports:",
            "  ID 0x00: input=2 B, output=0 B, feature=0 B (hidapi feature buffer=0 B)",
            "  ID 0x07: input=0 B, output=1 B, feature=263 B (hidapi feature buffer=264 B)",
            "Raw descriptor:",
            "  06 01 FF",
        ]
    );
    let short = configuration_lines(&configuration, &descriptor, &[], false);
    assert_eq!(short.len(), 6);
    assert_eq!(short[5], "Reports:");
}
