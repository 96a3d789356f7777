//! The USB port: how it presents itself, and what it is told of its power.

use vstd::prelude::*;

verus! {

/// The size of a USB packet.
pub const USB_PACKAGE_SIZE: usize = 64;

/// The bytes set aside for the configuration descriptor.
pub const CONFIG_DESC_LEN: usize = 256;

/// The bytes set aside for the binary object store descriptor.
pub const BOS_DESC_LEN: usize = 256;

/// The bytes set aside for the vendor descriptor.
pub const MSOS_DESC_LEN: usize = 128;

/// The bytes set aside for control requests.
pub const CONTROL_BUF_LEN: usize = 128;

/// How long a listener is given to connect before the scale starts.
pub const LISTENER_MS: u64 = 1000;

/// Whether power is on the bus, and whether the regulator is ready.
#[derive(Clone, Copy, Debug, PartialEq, Eq, Structural)]
pub struct VbusStatus {
    pub usb_detected: bool,
    pub power_ready: bool,
}

/// What the USB regulator status register says: bit 0 is power on the bus, bit 1 is the
/// regulator being ready.
pub fn vbus_status(usbregstatus: u32) -> (status: VbusStatus)
    ensures
        status.usb_detected == (usbregstatus % 2 == 1),
        status.power_ready == (usbregstatus / 2 % 2 == 1),
{
    let usb_detected: bool = (usbregstatus & 1) != 0;
    let power_ready: bool = (usbregstatus & (1u32 << 1)) != 0;
    assert((usbregstatus & 1 != 0) == (usbregstatus % 2 == 1)) by (bit_vector);
    assert((usbregstatus & (1u32 << 1) != 0) == (usbregstatus / 2 % 2 == 1)) by (bit_vector);
    VbusStatus { usb_detected, power_ready }
}

/// An event of the chip, as far as the USB port is concerned.
#[derive(Clone, Copy, Debug, PartialEq, Eq, Structural)]
pub enum SocEvent {
    PowerUsbDetected,
    PowerUsbRemoved,
    PowerUsbPowerReady,
    /// Any event that is not about USB power.
    Other,
}

/// What the USB port is told of its power.
#[derive(Clone, Copy, Debug, PartialEq, Eq, Structural)]
pub enum VbusReport {
    /// Power came to the bus, or left it.
    Detected { detected: bool },
    /// The regulator is ready.
    Ready,
}

/// What the USB port is to be told of an event, if anything.
pub open spec fn report_of(event: SocEvent) -> Option<VbusReport> {
    match event {
        SocEvent::PowerUsbDetected => Some(VbusReport::Detected { detected: true }),
        SocEvent::PowerUsbRemoved => Some(VbusReport::Detected { detected: false }),
        SocEvent::PowerUsbPowerReady => Some(VbusReport::Ready),
        SocEvent::Other => None,
    }
}

/// What the USB port is to be told of an event of the chip, if anything.
pub fn softdevice_task(event: SocEvent) -> (report: Option<VbusReport>)
    ensures
        report == report_of(event),
{
    match event {
        SocEvent::PowerUsbDetected => Some(VbusReport::Detected { detected: true }),
        SocEvent::PowerUsbRemoved => Some(VbusReport::Detected { detected: false }),
        SocEvent::PowerUsbPowerReady => Some(VbusReport::Ready),
        SocEvent::Other => None,
    }
}

/// The USB port hears of every event about its power and of no other, and can tell the
/// events apart by what it hears.
pub proof fn law_power_events_are_forwarded(one: SocEvent, two: SocEvent)
    ensures
        report_of(one) is None <==> one == SocEvent::Other,
        report_of(one) == report_of(two) ==> one == two,
{
}

/// How the scale presents itself on the bus.
pub struct UsbSettings {
    pub vendor_id: u16,
    pub product_id: u16,
    pub manufacturer: &'static str,
    pub product: &'static str,
    pub serial_number: &'static str,
    /// The packet size of the control endpoint.
    pub max_packet_size_0: u8,
    /// The packet size of the serial line.
    pub serial_packet_size: u16,
}

/// A packet size that a full-speed control endpoint may have.
pub open spec fn is_control_packet_size(size: u8) -> bool {
    size == 8 || size == 16 || size == 32 || size == 64
}

/// How the scale presents itself on the bus.
pub fn setup_usb() -> (settings: UsbSettings)
    ensures
        settings.vendor_id == 0xC0DE,
        settings.product_id == 0xCAFE,
        settings.manufacturer@ == "Wumpftech"@,
        settings.product@ == "Wumpftech Serial"@,
        settings.serial_number@ == "wumpf1"@,
        settings.max_packet_size_0 == USB_PACKAGE_SIZE,
        is_control_packet_size(settings.max_packet_size_0),
        settings.serial_packet_size == 64,
{
    UsbSettings {
        vendor_id: 0xC0DE,
        product_id: 0xCAFE,
        manufacturer: "Wumpftech",
        product: "Wumpftech Serial",
        serial_number: "wumpf1",
        max_packet_size_0: USB_PACKAGE_SIZE as u8,
        serial_packet_size: 64,
    }
}

} // verus!
