//! What the server tells of the serial ports of the machine. The ports are
//! found by the caller, who hands over what the driver reports of each.

use crate::model::{option_view};
use crate::text::{push_upper_hex_u16, upper_hex_u16_text};
use vstd::prelude::*;
use vstd::string::*;

verus! {

/// What the driver reports of the kind of a port.
#[derive(Debug)]
pub enum PortKind {
    /// A port on the USB bus, with the identifiers of its device.
    Usb { vid: u16, pid: u16, manufacturer: Option<String>, product: Option<String> },
    /// A port on the PCI bus.
    Pci,
    /// A port over Bluetooth.
    Bluetooth,
    /// A port of which nothing is known.
    Unknown,
}

/// What a [`PortKind`] holds.
pub enum PortKindView {
    Usb { vid: u16, pid: u16, manufacturer: Option<Seq<char>>, product: Option<Seq<char>> },
    Pci,
    Bluetooth,
    Unknown,
}

impl View for PortKind {
    type V = PortKindView;

    open spec fn view(&self) -> PortKindView {
        match self {
            PortKind::Usb { vid, pid, manufacturer, product } => PortKindView::Usb {
                vid: *vid,
                pid: *pid,
                manufacturer: option_view(*manufacturer),
                product: option_view(*product),
            },
            PortKind::Pci => PortKindView::Pci,
            PortKind::Bluetooth => PortKindView::Bluetooth,
            PortKind::Unknown => PortKindView::Unknown,
        }
    }
}

impl PortKindView {
    /// The description shown for a port of this kind. A USB device is shown
    /// by its manufacturer and product, with a stand-in for each that is missing.
    pub open spec fn description(self) -> Seq<char> {
        match self {
            PortKindView::Usb { manufacturer, product, .. } => (match manufacturer {
                Some(name) => name,
                None => "Unknown"@,
            }) + " "@ + (match product {
                Some(name) => name,
                None => "USB Serial Device"@,
            }),
            PortKindView::Pci => "PCI Serial Port"@,
            PortKindView::Bluetooth => "Bluetooth Serial Port"@,
            PortKindView::Unknown => "Serial Port"@,
        }
    }

    /// The hardware identifier shown for a port of this kind, if it has
    /// one. For a USB device it gives the vendor and product numbers, each
    /// as four uppercase hexadecimal digits.
    pub open spec fn hardware_id(self) -> Option<Seq<char>> {
        match self {
            PortKindView::Usb { vid, pid, .. } => Some(
                "USB VID:"@ + upper_hex_u16_text(vid) + " PID:"@ + upper_hex_u16_text(pid),
            ),
            PortKindView::Pci => Some("PCI"@),
            PortKindView::Bluetooth => Some("Bluetooth"@),
            PortKindView::Unknown => None,
        }
    }
}

/// A port as the driver reports it.
#[derive(Debug)]
pub struct DetectedPort {
    pub port_name: String,
    pub port_type: PortKind,
}

/// What a [`DetectedPort`] holds.
pub struct DetectedPortView {
    pub port_name: Seq<char>,
    pub port_type: PortKindView,
}

impl View for DetectedPort {
    type V = DetectedPortView;

    open spec fn view(&self) -> DetectedPortView {
        DetectedPortView { port_name: self.port_name@, port_type: self.port_type@ }
    }
}

/// A port as the server shows it.
#[derive(Debug)]
pub struct PortInfo {
    pub name: String,
    pub description: String,
    pub hardware_id: Option<String>,
    pub available: bool,
}

/// What a [`PortInfo`] holds.
pub struct PortInfoView {
    pub name: Seq<char>,
    pub description: Seq<char>,
    pub hardware_id: Option<Seq<char>>,
    pub available: bool,
}

impl View for PortInfo {
    type V = PortInfoView;

    open spec fn view(&self) -> PortInfoView {
        PortInfoView {
            name: self.name@,
            description: self.description@,
            hardware_id: option_view(self.hardware_id),
            available: self.available,
        }
    }
}

impl Clone for PortInfo {
    fn clone(&self) -> (r: Self)
        ensures
            r@ == self@,
    {
        PortInfo {
            name: self.name.clone(),
            description: self.description.clone(),
            hardware_id: crate::model::clone_optional_text(&self.hardware_id),
            available: self.available,
        }
    }
}

impl DetectedPortView {
    /// The port as the server shows it.
    pub open spec fn info(self) -> PortInfoView {
        PortInfoView {
            name: self.port_name,
            description: self.port_type.description(),
            hardware_id: self.port_type.hardware_id(),
            available: true,
        }
    }
}

/// The description shown for a port of the given kind.
pub fn get_port_description(port: &DetectedPort) -> (r: String)
    ensures
        r@ == port@.port_type.description(),
{
    match &port.port_type {
        PortKind::Usb { manufacturer, product, .. } => {
            let mut out = match manufacturer {
                Some(name) => name.clone(),
                None => String::from_str("Unknown"),
            };
            out.append(" ");
            match product {
                Some(name) => out.append(name.as_str()),
                None => out.append("USB Serial Device"),
            }
            out
        },
        PortKind::Pci => String::from_str("PCI Serial Port"),
        PortKind::Bluetooth => String::from_str("Bluetooth Serial Port"),
        PortKind::Unknown => String::from_str("Serial Port"),
    }
}

impl PortInfo {
    /// The port `port` as the server shows it.
    pub fn describe(port: &DetectedPort) -> (r: PortInfo)
        ensures
            r@ == port@.info(),
    {
        let hardware_id = match &port.port_type {
            PortKind::Usb { vid, pid, .. } => {
                let mut id = String::from_str("USB VID:");
                push_upper_hex_u16(&mut id, *vid);
                id.append(" PID:");
                push_upper_hex_u16(&mut id, *pid);
                Some(id)
            },
            PortKind::Pci => Some(String::from_str("PCI")),
            PortKind::Bluetooth => Some(String::from_str("Bluetooth")),
            PortKind::Unknown => None,
        };
        PortInfo {
            name: port.port_name.clone(),
            description: get_port_description(port),
            hardware_id,
            available: true,
        }
    }

    /// The ports that the driver found, each as the server shows it.
    pub fn list_ports(ports: &Vec<DetectedPort>) -> (r: Vec<PortInfo>)
        ensures
            r@.len() == ports@.len(),
            forall|i: int| 0 <= i < r@.len() ==> (#[trigger] r@[i])@ == ports@[i]@.info(),
    {
        let mut out: Vec<PortInfo> = Vec::new();
        let mut i: usize = 0;
        while i < ports.len()
            invariant
                i <= ports.len(),
                out@.len() == i,
                forall|j: int| 0 <= j < i ==> (#[trigger] out@[j])@ == ports@[j]@.info(),
            decreases ports.len() - i,
        {
            out.push(PortInfo::describe(&ports[i]));
            i += 1;
        }
        out
    }
}

} // verus!
