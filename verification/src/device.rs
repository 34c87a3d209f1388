//! USB identities, HID collection metadata and static model descriptions.
use vstd::prelude::*;
use crate::capability::CapabilitySet;
use crate::text::{push_u16_hex_upper, string_push, u16_hex_upper};

verus! {

#[derive(Clone, Copy, Debug, PartialEq, Eq, Hash, Structural)]
pub struct UsbId {
    pub vendor_id: u16,
    pub product_id: u16,
}

impl UsbId {
    /// `VVVV:PPPP` in upper-case hexadecimal.
    pub fn to_string(&self) -> (text: String)
        ensures
            text@ == u16_hex_upper(self.vendor_id) + seq![':'] + u16_hex_upper(self.product_id),
    {
        let mut text = String::new();
        push_u16_hex_upper(&mut text, self.vendor_id);
        string_push(&mut text, ':');
        push_u16_hex_upper(&mut text, self.product_id);
        text
    }
}

/// Static metadata for a supported device model.
#[derive(Clone, Copy, Debug, PartialEq, Eq)]
pub struct DeviceDescriptor {
    pub id: &'static str,
    pub name: &'static str,
    pub usb_id: UsbId,
    pub capabilities: CapabilitySet,
    /// Interface selected for known configuration traffic.
    pub configuration_interface: InterfaceSelector,
}

#[derive(Clone, Copy, Debug, PartialEq, Eq, Structural)]
pub struct InterfaceSelector {
    pub interface_number: i32,
    pub usage_page: u16,
    pub usage: u16,
}

/// One top-level HID collection returned by the HID backend.
#[derive(Clone, Debug, PartialEq, Eq)]
pub struct HidInterfaceInfo {
    pub path: String,
    pub vendor_id: u16,
    pub product_id: u16,
    pub release_number: u16,
    pub interface_number: i32,
    pub usage_page: u16,
    pub usage: u16,
    pub manufacturer: Option<String>,
    pub product: Option<String>,
    pub serial_number: Option<String>,
}

fn duplicate_text(value: &Option<String>) -> (copy: Option<String>)
    ensures
        copy == *value,
{
    match value {
        Some(text) => Some(text.clone()),
        None => None,
    }
}

impl HidInterfaceInfo {
    /// A copy with equal fields.
    pub fn duplicate(&self) -> (copy: Self)
        ensures
            copy == *self,
    {
        HidInterfaceInfo {
            path: self.path.clone(),
            vendor_id: self.vendor_id,
            product_id: self.product_id,
            release_number: self.release_number,
            interface_number: self.interface_number,
            usage_page: self.usage_page,
            usage: self.usage,
            manufacturer: duplicate_text(&self.manufacturer),
            product: duplicate_text(&self.product),
            serial_number: duplicate_text(&self.serial_number),
        }
    }

    pub fn usb_id(&self) -> (id: UsbId)
        ensures
            id == (UsbId { vendor_id: self.vendor_id, product_id: self.product_id }),
    {
        UsbId { vendor_id: self.vendor_id, product_id: self.product_id }
    }

    /// True when this collection is exactly the selected interface/usage tuple.
    pub fn matches(&self, selector: InterfaceSelector) -> (m: bool)
        ensures
            m == (self.interface_number == selector.interface_number && self.usage_page
                == selector.usage_page && self.usage == selector.usage),
    {
        self.interface_number == selector.interface_number && self.usage_page
            == selector.usage_page && self.usage == selector.usage
    }
}

} // verus!
