//! Supported models and their static descriptions.
use vstd::prelude::*;
use crate::capability::{Capability, CapabilitySet, DpiCapabilities, LightingZone, PollingRate};
use crate::device::{DeviceDescriptor, InterfaceSelector, UsbId};

verus! {

/// Pulsefire Raid sensor limits: 200 to 16000 DPI in steps of 50, at most
/// five stages.
pub fn pulsefire_raid_dpi() -> (caps: DpiCapabilities)
    ensures
        caps == (DpiCapabilities { minimum: 200, maximum: 16000, step: 50, max_stages: 5 }),
{
    DpiCapabilities { minimum: 200, maximum: 16000, step: 50, max_stages: 5 }
}

/// The vendor collection that carries the configuration feature reports.
pub open spec fn configuration_selector() -> InterfaceSelector {
    InterfaceSelector { interface_number: 1, usage_page: 0xFF01, usage: 0x0001 }
}

/// The vendor collection carrying eight-byte acknowledgements of profile
/// saves; feature reports stay on the configuration collection.
pub fn pulsefire_raid_acknowledgement_interface() -> (selector: InterfaceSelector)
    ensures
        selector == (InterfaceSelector { interface_number: 2, usage_page: 0xFF00, usage: 0xFF00 }),
{
    InterfaceSelector { interface_number: 2, usage_page: 0xFF00, usage: 0xFF00 }
}

/// Every field of the Pulsefire Raid descriptor.
pub open spec fn is_pulsefire_raid_descriptor(descriptor: DeviceDescriptor) -> bool {
    &&& descriptor.usb_id == (UsbId { vendor_id: 0x0951, product_id: 0x16E4 })
    &&& descriptor.configuration_interface == configuration_selector()
    &&& descriptor.capabilities.dpi == Some(
        DpiCapabilities { minimum: 200, maximum: 16000, step: 50, max_stages: 5 },
    )
    &&& descriptor.capabilities.button_count == 11
    &&& descriptor.id@ == "pulsefire-raid"@
    &&& descriptor.name@ == "HyperX Pulsefire Raid"@
    &&& descriptor.capabilities.features@ == seq![
        Capability::Dpi,
        Capability::DpiStages,
        Capability::PollingRate,
        Capability::ButtonRemapping,
        Capability::Macros,
        Capability::Lighting,
        Capability::OnboardProfile,
    ]
    &&& descriptor.capabilities.lighting_zones@.len() == 2
    &&& descriptor.capabilities.lighting_zones@[0].id@ == "wheel"@
    &&& descriptor.capabilities.lighting_zones@[0].name@ == "Scroll Wheel"@
    &&& descriptor.capabilities.lighting_zones@[1].id@ == "logo"@
    &&& descriptor.capabilities.lighting_zones@[1].name@ == "Logo"@
    &&& descriptor.capabilities.polling_rates@ == seq![
        PollingRate::Hz125,
        PollingRate::Hz250,
        PollingRate::Hz500,
        PollingRate::Hz1000,
    ]
}

/// Pulsefire Raid identity and hardware-level capabilities.
pub fn pulsefire_raid() -> (descriptor: DeviceDescriptor)
    ensures
        is_pulsefire_raid_descriptor(descriptor),
        descriptor.usb_id == (UsbId { vendor_id: 0x0951, product_id: 0x16E4 }),
        descriptor.configuration_interface == configuration_selector(),
        descriptor.capabilities.dpi == Some(
            DpiCapabilities { minimum: 200, maximum: 16000, step: 50, max_stages: 5 },
        ),
        descriptor.capabilities.button_count == 11,
        descriptor.id@ == "pulsefire-raid"@,
        descriptor.name@ == "HyperX Pulsefire Raid"@,
{
    let features: &'static [Capability] = &[
        Capability::Dpi,
        Capability::DpiStages,
        Capability::PollingRate,
        Capability::ButtonRemapping,
        Capability::Macros,
        Capability::Lighting,
        Capability::OnboardProfile,
    ];
    let zones: &'static [LightingZone] = &[
        LightingZone { id: "wheel", name: "Scroll Wheel" },
        LightingZone { id: "logo", name: "Logo" },
    ];
    let rates: &'static [PollingRate] = &[
        PollingRate::Hz125,
        PollingRate::Hz250,
        PollingRate::Hz500,
        PollingRate::Hz1000,
    ];
    DeviceDescriptor {
        id: "pulsefire-raid",
        name: "HyperX Pulsefire Raid",
        usb_id: UsbId { vendor_id: 0x0951, product_id: 0x16E4 },
        capabilities: CapabilitySet {
            features,
            button_count: 11,
            lighting_zones: zones,
            dpi: Some(pulsefire_raid_dpi()),
            polling_rates: rates,
        },
        configuration_interface: InterfaceSelector {
            interface_number: 1,
            usage_page: 0xFF01,
            usage: 0x0001,
        },
    }
}

/// The supported model with this USB identity, if any.
pub fn find_supported_device(usb_id: UsbId) -> (found: Option<DeviceDescriptor>)
    ensures
        usb_id == (UsbId { vendor_id: 0x0951, product_id: 0x16E4 }) ==> (found matches Some(d)
            && is_pulsefire_raid_descriptor(d)),
        usb_id != (UsbId { vendor_id: 0x0951, product_id: 0x16E4 }) ==> found is None,
{
    let candidate = pulsefire_raid();
    if candidate.usb_id == usb_id {
        Some(candidate)
    } else {
        None
    }
}

} // verus!
