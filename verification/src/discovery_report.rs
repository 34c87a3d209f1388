//! The device listing: the collections of the supported model in a stable
//! order, their description, and the description of the configuration
//! collection's reports.
use vstd::prelude::*;
use crate::device::{DeviceDescriptor, HidInterfaceInfo, InterfaceSelector, UsbId};
use crate::hid_descriptor::{bytes_for_bits_spec, ReportLayout};
use crate::cli::{first_present, first_value, InterfaceStringField};
use crate::ngenuity_diff::texts;
use crate::text::{
    byte_hex_upper, decimal_chars, push_byte_hex_upper, push_decimal, push_u16_hex_upper,
    string_push_str, u16_hex_upper,
};
use crate::wire::{format_hex, hex_text};

verus! {

/// The order of collections within a device: by interface number, then
/// usage page, then usage.
pub open spec fn collection_le(a: HidInterfaceInfo, b: HidInterfaceInfo) -> bool {
    a.interface_number < b.interface_number || (a.interface_number == b.interface_number && (
    a.usage_page < b.usage_page || (a.usage_page == b.usage_page && a.usage <= b.usage)))
}

pub open spec fn collections_sorted(s: Seq<HidInterfaceInfo>) -> bool {
    forall|i: int, j: int| 0 <= i < j < s.len() ==> collection_le(#[trigger] s[i], #[trigger] s[j])
}

fn collection_lt(a: &HidInterfaceInfo, b: &HidInterfaceInfo) -> (lt: bool)
    ensures
        lt == !collection_le(*b, *a),
{
    a.interface_number < b.interface_number || (a.interface_number == b.interface_number && (
    a.usage_page < b.usage_page || (a.usage_page == b.usage_page && a.usage < b.usage)))
}

/// Where `item` goes in a sorted sequence: after every collection that
/// does not come after it, from position `k` on.
pub open spec fn insert_point(sorted: Seq<HidInterfaceInfo>, item: HidInterfaceInfo, k: int) -> int
    decreases sorted.len() - k,
{
    if k < 0 || k >= sorted.len() {
        sorted.len() as int
    } else if !collection_le(sorted[k], item) {
        k
    } else {
        insert_point(sorted, item, k + 1)
    }
}

/// The stable sort of a sequence of collections by collection order:
/// each collection is inserted after the equal ones before it.
pub open spec fn stable_sort(s: Seq<HidInterfaceInfo>) -> Seq<HidInterfaceInfo>
    decreases s.len(),
{
    if s.len() == 0 {
        s
    } else {
        let t = stable_sort(s.drop_last());
        t.insert(insert_point(t, s.last(), 0), s.last())
    }
}

/// The collections in collection order, equal ones in their given order.
pub fn sort_collections(interfaces: Vec<HidInterfaceInfo>) -> (sorted: Vec<HidInterfaceInfo>)
    ensures
        sorted@ == stable_sort(interfaces@),
        collections_sorted(sorted@),
        sorted@.to_multiset() == interfaces@.to_multiset(),
{
    let mut sorted: Vec<HidInterfaceInfo> = Vec::new();
    let mut i: usize = 0;
    assert(interfaces@.take(0) =~= sorted@);
    while i < interfaces.len()
        invariant
            i <= interfaces@.len(),
            sorted@ == stable_sort(interfaces@.take(i as int)),
            collections_sorted(sorted@),
            sorted@.to_multiset() == interfaces@.take(i as int).to_multiset(),
        decreases interfaces.len() - i,
    {
        let item = interfaces[i].duplicate();
        let mut p: usize = 0;
        while p < sorted.len() && !collection_lt(&item, &sorted[p])
            invariant
                p <= sorted@.len(),
                forall|q: int| 0 <= q < p ==> collection_le(#[trigger] sorted@[q], item),
                insert_point(sorted@, item, 0) == insert_point(sorted@, item, p as int),
            decreases sorted.len() - p,
        {
            p += 1;
        }
        let ghost before = sorted@;
        assert(insert_point(before, item, 0) == p as int);
        sorted.insert(p, item);
        assert(collections_sorted(sorted@)) by {
            assert forall|a: int, b: int| 0 <= a < b < sorted@.len() implies collection_le(
                #[trigger] sorted@[a],
                #[trigger] sorted@[b],
            ) by {
                if a < p && b == p {
                } else if a < p && b > p {
                    assert(sorted@[b] == before[b - 1]);
                } else if a == p && b > p {
                    assert(sorted@[b] == before[b - 1]);
                    assert(p < before.len());
                    assert(collection_le(before[p as int], before[b - 1]) || p == b - 1);
                } else if a > p {
                    assert(sorted@[a] == before[a - 1]);
                    assert(sorted@[b] == before[b - 1]);
                } else {
                    assert(sorted@[a] == before[a]);
                    assert(sorted@[b] == before[b]);
                }
            }
        }
        let ghost prefix = interfaces@.take(i + 1);
        assert(prefix.drop_last() =~= interfaces@.take(i as int));
        assert(prefix.last() == item);
        assert(interfaces@.take(i + 1) =~= interfaces@.take(i as int).push(item));
        proof {
            vstd::seq_lib::to_multiset_insert(before, p as int, item);
            vstd::seq_lib::to_multiset_build(interfaces@.take(i as int), item);
        }
        i += 1;
    }
    assert(interfaces@.take(i as int) =~= interfaces@);
    sorted
}

/// The collections of `s` whose USB identity is (`keep`) or is not
/// (`!keep`) `usb_id`, in their order.
pub open spec fn with_usb_id(s: Seq<HidInterfaceInfo>, usb_id: UsbId, keep: bool) -> Seq<HidInterfaceInfo>
    decreases s.len(),
{
    if s.len() == 0 {
        s
    } else {
        let rest = with_usb_id(s.drop_last(), usb_id, keep);
        if ((s.last().vendor_id == usb_id.vendor_id && s.last().product_id == usb_id.product_id) == keep) {
            rest.push(s.last())
        } else {
            rest
        }
    }
}

/// The collections of one model (`keep`) or of every other device.
pub fn collections_with_usb_id(interfaces: &[HidInterfaceInfo], usb_id: UsbId, keep: bool) -> (selected: Vec<
    HidInterfaceInfo,
>)
    ensures
        selected@ == with_usb_id(interfaces@, usb_id, keep),
{
    let mut selected: Vec<HidInterfaceInfo> = Vec::new();
    let mut i: usize = 0;
    assert(interfaces@.take(0) =~= Seq::<HidInterfaceInfo>::empty());
    while i < interfaces.len()
        invariant
            i <= interfaces@.len(),
            selected@ == with_usb_id(interfaces@.take(i as int), usb_id, keep),
        decreases interfaces.len() - i,
    {
        let info = &interfaces[i];
        let prefix = Ghost(interfaces@.take(i + 1));
        assert(prefix@.drop_last() =~= interfaces@.take(i as int));
        assert(prefix@.last() == interfaces@[i as int]);
        if (info.vendor_id == usb_id.vendor_id && info.product_id == usb_id.product_id) == keep {
            selected.push(info.duplicate());
        }
        i += 1;
    }
    assert(interfaces@.take(i as int) =~= interfaces@);
    selected
}

/// The collections of one model, in collection order.
pub fn model_collections(interfaces: &[HidInterfaceInfo], usb_id: UsbId) -> (collections: Vec<HidInterfaceInfo>)
    ensures
        collections@ == stable_sort(with_usb_id(interfaces@, usb_id, true)),
{
    sort_collections(collections_with_usb_id(interfaces, usb_id, true))
}

/// An integer as `Display` prints it.
pub open spec fn signed_decimal(n: int) -> Seq<char> {
    if n < 0 {
        "-"@ + decimal_chars((-n) as nat)
    } else {
        decimal_chars(n as nat)
    }
}

pub(crate) fn push_signed_decimal(text: &mut String, n: i32)
    ensures
        final(text)@ == old(text)@ + signed_decimal(n as int),
{
    if n < 0 {
        let mut part = "-".to_owned();
        push_decimal(&mut part, (0i64 - n as i64) as u64);
        string_push_str(text, part.as_str());
    } else {
        push_decimal(text, n as u64);
    }
}

pub open spec fn optional_text(value: Option<Seq<char>>) -> Seq<char> {
    match value {
        Some(v) => v,
        None => "<not available>"@,
    }
}

pub open spec fn matches_selector(info: HidInterfaceInfo, selector: InterfaceSelector) -> bool {
    info.interface_number == selector.interface_number && info.usage_page == selector.usage_page
        && info.usage == selector.usage
}

/// The four lines describing one collection.
pub open spec fn collection_text(info: HidInterfaceInfo, selector: InterfaceSelector) -> Seq<Seq<char>> {
    seq![
        "  Interface "@ + signed_decimal(info.interface_number as int) + (if matches_selector(info, selector) {
            " [configuration]"@
        } else {
            ""@
        }),
        "    Usage Page: 0x"@ + u16_hex_upper(info.usage_page),
        "    Usage: 0x"@ + u16_hex_upper(info.usage),
        "    Path: "@ + info.path@,
    ]
}

pub open spec fn collections_text(s: Seq<HidInterfaceInfo>, selector: InterfaceSelector, n: nat) -> Seq<Seq<char>>
    decreases n,
{
    if n == 0 || n > s.len() {
        seq![]
    } else {
        collections_text(s, selector, (n - 1) as nat) + collection_text(s[n - 1], selector)
    }
}

/// The description of a supported device found as the given collections:
/// its identity, its strings from the first collection that has them, the
/// release of the first collection, then every collection and a blank line.
pub open spec fn supported_device_text(d: DeviceDescriptor, s: Seq<HidInterfaceInfo>) -> Seq<Seq<char>> {
    seq![
        d.name@,
        "VID: 0x"@ + u16_hex_upper(d.usb_id.vendor_id),
        "PID: 0x"@ + u16_hex_upper(d.usb_id.product_id),
        "Manufacturer: "@ + optional_text(first_present(s, InterfaceStringField::Manufacturer, 0)),
        "Product: "@ + optional_text(first_present(s, InterfaceStringField::Product, 0)),
        "Serial: "@ + optional_text(first_present(s, InterfaceStringField::SerialNumber, 0)),
    ] + (if s.len() > 0 {
        seq!["Release: 0x"@ + u16_hex_upper(s[0].release_number)]
    } else {
        seq![]
    }) + seq!["Interfaces:"@] + collections_text(s, d.configuration_interface, s.len()) + seq![""@]
}

fn push_line(lines: &mut Vec<String>, line: String)
    ensures
        texts(final(lines)@) == texts(old(lines)@).push(line@),
{
    let ghost before = lines@;
    lines.push(line);
    assert(texts(lines@) =~= texts(before).push(line@));
}

fn optional_line(label: &str, value: Option<String>) -> (line: String)
    ensures
        line@ == label@ + optional_text(
            match value {
                Some(v) => Some(v@),
                None => None,
            },
        ),
{
    let mut line = label.to_owned();
    match value {
        Some(v) => string_push_str(&mut line, v.as_str()),
        None => string_push_str(&mut line, "<not available>"),
    }
    line
}

/// The lines describing a supported device and its collections.
pub fn supported_device_lines(descriptor: &DeviceDescriptor, interfaces: &[HidInterfaceInfo]) -> (lines: Vec<
    String,
>)
    ensures
        texts(lines@) == supported_device_text(*descriptor, interfaces@),
{
    let mut lines: Vec<String> = Vec::new();
    push_line(&mut lines, descriptor.name.to_owned());
    let mut vid = "VID: 0x".to_owned();
    push_u16_hex_upper(&mut vid, descriptor.usb_id.vendor_id);
    push_line(&mut lines, vid);
    let mut pid = "PID: 0x".to_owned();
    push_u16_hex_upper(&mut pid, descriptor.usb_id.product_id);
    push_line(&mut lines, pid);
    push_line(&mut lines, optional_line("Manufacturer: ", first_value(interfaces, InterfaceStringField::Manufacturer)));
    push_line(&mut lines, optional_line("Product: ", first_value(interfaces, InterfaceStringField::Product)));
    push_line(&mut lines, optional_line("Serial: ", first_value(interfaces, InterfaceStringField::SerialNumber)));
    if interfaces.len() > 0 {
        let mut release = "Release: 0x".to_owned();
        push_u16_hex_upper(&mut release, interfaces[0].release_number);
        push_line(&mut lines, release);
    }
    push_line(&mut lines, "Interfaces:".to_owned());
    let ghost head = texts(lines@);
    let mut i: usize = 0;
    while i < interfaces.len()
        invariant
            i <= interfaces@.len(),
            texts(lines@) == head + collections_text(interfaces@, descriptor.configuration_interface, i as nat),
        decreases interfaces.len() - i,
    {
        let info = &interfaces[i];
        let ghost prev = texts(lines@);
        let mut first = "  Interface ".to_owned();
        push_signed_decimal(&mut first, info.interface_number);
        string_push_str(&mut first, if info.matches(descriptor.configuration_interface) {
            " [configuration]"
        } else {
            ""
        });
        push_line(&mut lines, first);
        let mut page = "    Usage Page: 0x".to_owned();
        push_u16_hex_upper(&mut page, info.usage_page);
        push_line(&mut lines, page);
        let mut usage = "    Usage: 0x".to_owned();
        push_u16_hex_upper(&mut usage, info.usage);
        push_line(&mut lines, usage);
        let mut path = "    Path: ".to_owned();
        string_push_str(&mut path, info.path.as_str());
        push_line(&mut lines, path);
        assert(texts(lines@) =~= prev + collection_text(interfaces@[i as int], descriptor.configuration_interface));
        proof {
            vstd::seq_lib::lemma_concat_associative(
                head,
                collections_text(interfaces@, descriptor.configuration_interface, i as nat),
                collection_text(interfaces@[i as int], descriptor.configuration_interface),
            );
        }
        i += 1;
    }
    push_line(&mut lines, "".to_owned());
    assert(texts(lines@) =~= supported_device_text(*descriptor, interfaces@));
    lines
}

/// One line per collection of another device, after a count.
pub open spec fn unsupported_text(s: Seq<HidInterfaceInfo>) -> Seq<Seq<char>> {
    seq!["Other HID collections: "@ + decimal_chars(s.len())] + Seq::new(
        s.len(),
        |i: int|
            "  "@ + u16_hex_upper(s[i].vendor_id) + ":"@ + u16_hex_upper(s[i].product_id) + " interface="@
                + signed_decimal(s[i].interface_number as int) + " usage_page=0x"@ + u16_hex_upper(
                s[i].usage_page,
            ) + " usage=0x"@ + u16_hex_upper(s[i].usage) + " path="@ + s[i].path@,
    )
}

/// The lines listing collections of devices that are not supported.
pub fn unsupported_lines(interfaces: &[HidInterfaceInfo]) -> (lines: Vec<String>)
    ensures
        texts(lines@) == unsupported_text(interfaces@),
{
    let mut lines: Vec<String> = Vec::new();
    let mut count = "Other HID collections: ".to_owned();
    push_decimal(&mut count, interfaces.len() as u64);
    push_line(&mut lines, count);
    let ghost head = texts(lines@);
    let ghost f = |i: int|
        "  "@ + u16_hex_upper(interfaces@[i].vendor_id) + ":"@ + u16_hex_upper(interfaces@[i].product_id)
            + " interface="@ + signed_decimal(interfaces@[i].interface_number as int) + " usage_page=0x"@
            + u16_hex_upper(interfaces@[i].usage_page) + " usage=0x"@ + u16_hex_upper(interfaces@[i].usage)
            + " path="@ + interfaces@[i].path@;
    let mut i: usize = 0;
    while i < interfaces.len()
        invariant
            i <= interfaces@.len(),
            texts(lines@) == head + Seq::new(i as nat, f),
            f == (|i: int|
                "  "@ + u16_hex_upper(interfaces@[i].vendor_id) + ":"@ + u16_hex_upper(interfaces@[i].product_id)
                    + " interface="@ + signed_decimal(interfaces@[i].interface_number as int)
                    + " usage_page=0x"@ + u16_hex_upper(interfaces@[i].usage_page) + " usage=0x"@
                    + u16_hex_upper(interfaces@[i].usage) + " path="@ + interfaces@[i].path@),
        decreases interfaces.len() - i,
    {
        let info = &interfaces[i];
        let mut line = "  ".to_owned();
        push_u16_hex_upper(&mut line, info.vendor_id);
        string_push_str(&mut line, ":");
        push_u16_hex_upper(&mut line, info.product_id);
        string_push_str(&mut line, " interface=");
        push_signed_decimal(&mut line, info.interface_number);
        string_push_str(&mut line, " usage_page=0x");
        push_u16_hex_upper(&mut line, info.usage_page);
        string_push_str(&mut line, " usage=0x");
        push_u16_hex_upper(&mut line, info.usage);
        string_push_str(&mut line, " path=");
        string_push_str(&mut line, info.path.as_str());
        assert(line@ == f(i as int));
        push_line(&mut lines, line);
        assert(Seq::new((i + 1) as nat, f) =~= Seq::new(i as nat, f).push(f(i as int)));
        i += 1;
    }
    assert(texts(lines@) =~= unsupported_text(interfaces@));
    lines
}

/// The device listing: the supported model's collections in collection
/// order, or a line saying that none was found, then, when asked, every
/// collection of other devices.
pub open spec fn device_listing_text(interfaces: Seq<HidInterfaceInfo>, show_all: bool, d: DeviceDescriptor) -> Seq<
    Seq<char>,
> {
    let mine = stable_sort(with_usb_id(interfaces, d.usb_id, true));
    (if mine.len() == 0 {
        seq!["No supported HyperX mice found."@]
    } else {
        supported_device_text(d, mine)
    }) + (if show_all {
        unsupported_text(with_usb_id(interfaces, d.usb_id, false))
    } else {
        seq![]
    })
}

/// List the collections of a supported model among the enumerated ones.
pub fn device_listing_lines(interfaces: &[HidInterfaceInfo], show_all: bool, model: &DeviceDescriptor) -> (lines:
    Vec<String>)
    ensures
        texts(lines@) == device_listing_text(interfaces@, show_all, *model),
{
    let raid = model;
    let mine = model_collections(interfaces, raid.usb_id);
    let mut lines = if mine.len() == 0 {
        let mut l: Vec<String> = Vec::new();
        push_line(&mut l, "No supported HyperX mice found.".to_owned());
        l
    } else {
        supported_device_lines(raid, mine.as_slice())
    };
    if show_all {
        let others = collections_with_usb_id(interfaces, raid.usb_id, false);
        let more = unsupported_lines(others.as_slice());
        let ghost before = texts(lines@);
        let ghost added = more@;
        let mut more = more;
        lines.append(&mut more);
        assert(texts(lines@) =~= before + texts(added));
    }
    lines
}

/// One line of the report table: the sizes of a report ID in bytes.
pub open spec fn layout_text(l: ReportLayout) -> Seq<char> {
    "  ID 0x"@ + byte_hex_upper(l.report_id) + ": input="@ + decimal_chars(
        bytes_for_bits_spec(l.input_bits) as nat,
    ) + " B, output="@ + decimal_chars(bytes_for_bits_spec(l.output_bits) as nat) + " B, feature="@
        + decimal_chars(bytes_for_bits_spec(l.feature_bits) as nat) + " B (hidapi feature buffer="@
        + decimal_chars(
        (bytes_for_bits_spec(l.feature_bits) + (if l.report_id != 0 {
            1int
        } else {
            0
        })) as nat,
    ) + " B)"@
}

/// The description of the configuration collection, its report descriptor
/// and the report sizes parsed from it, with the raw descriptor on request.
pub open spec fn configuration_text(
    configuration: HidInterfaceInfo,
    descriptor: Seq<u8>,
    layouts: Seq<ReportLayout>,
    show_descriptor: bool,
) -> Seq<Seq<char>> {
    seq![
        "Configuration collection:"@,
        "  Interface: "@ + signed_decimal(configuration.interface_number as int),
        "  Usage Page: 0x"@ + u16_hex_upper(configuration.usage_page),
        "  Usage: 0x"@ + u16_hex_upper(configuration.usage),
        "  Report descriptor: "@ + decimal_chars(descriptor.len()) + " bytes"@,
        "Reports:"@,
    ] + Seq::new(layouts.len(), |i: int| layout_text(layouts[i])) + (if show_descriptor {
        seq!["Raw descriptor:"@, "  "@ + hex_text(descriptor)]
    } else {
        seq![]
    })
}

fn layout_line(l: ReportLayout) -> (line: String)
    ensures
        line@ == layout_text(l),
{
    let mut line = "  ID 0x".to_owned();
    push_byte_hex_upper(&mut line, l.report_id);
    string_push_str(&mut line, ": input=");
    push_decimal(&mut line, l.input_bytes() as u64);
    string_push_str(&mut line, " B, output=");
    push_decimal(&mut line, l.output_bytes() as u64);
    string_push_str(&mut line, " B, feature=");
    push_decimal(&mut line, l.feature_bytes() as u64);
    string_push_str(&mut line, " B (hidapi feature buffer=");
    assert(bytes_for_bits_spec(l.feature_bits) < u32::MAX);
    push_decimal(&mut line, l.hidapi_feature_bytes() as u64);
    string_push_str(&mut line, " B)");
    line
}

/// The lines describing the configuration collection and its reports.
pub fn configuration_lines(
    configuration: &HidInterfaceInfo,
    descriptor: &[u8],
    layouts: &[ReportLayout],
    show_descriptor: bool,
) -> (lines: Vec<String>)
    ensures
        texts(lines@) == configuration_text(*configuration, descriptor@, layouts@, show_descriptor),
{
    let mut lines: Vec<String> = Vec::new();
    push_line(&mut lines, "Configuration collection:".to_owned());
    let mut interface = "  Interface: ".to_owned();
    push_signed_decimal(&mut interface, configuration.interface_number);
    push_line(&mut lines, interface);
    let mut page = "  Usage Page: 0x".to_owned();
    push_u16_hex_upper(&mut page, configuration.usage_page);
    push_line(&mut lines, page);
    let mut usage = "  Usage: 0x".to_owned();
    push_u16_hex_upper(&mut usage, configuration.usage);
    push_line(&mut lines, usage);
    let mut size = "  Report descriptor: ".to_owned();
    push_decimal(&mut size, descriptor.len() as u64);
    string_push_str(&mut size, " bytes");
    push_line(&mut lines, size);
    push_line(&mut lines, "Reports:".to_owned());
    let ghost head = texts(lines@);
    let mut i: usize = 0;
    while i < layouts.len()
        invariant
            i <= layouts@.len(),
            texts(lines@) == head + Seq::new(i as nat, |k: int| layout_text(layouts@[k])),
        decreases layouts.len() - i,
    {
        push_line(&mut lines, layout_line(layouts[i]));
        assert(Seq::new((i + 1) as nat, |k: int| layout_text(layouts@[k])) =~= Seq::new(
            i as nat,
            |k: int| layout_text(layouts@[k]),
        ).push(layout_text(layouts@[i as int])));
        i += 1;
    }
    if show_descriptor {
        push_line(&mut lines, "Raw descriptor:".to_owned());
        let mut raw = "  ".to_owned();
        string_push_str(&mut raw, format_hex(descriptor).as_str());
        push_line(&mut lines, raw);
    }
    assert(texts(lines@) =~= configuration_text(*configuration, descriptor@, layouts@, show_descriptor));
    lines
}

} // verus!
