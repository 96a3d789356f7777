//! How the radio stack is set up, and which interrupt priorities it leaves to others.

use vstd::prelude::*;
#[allow(unused_imports)]
use vstd::string::{is_ascii_spec_bytes, StringSliceAdditionalSpecFns};

verus! {

/// An interrupt priority: the lower the number, the more urgent.
#[derive(Clone, Copy, Debug, PartialEq, Eq, Structural)]
pub enum Priority {
    P0,
    P1,
    P2,
    P3,
    P4,
    P5,
    P6,
    P7,
}

/// The radio stack keeps this priority for itself.
pub open spec fn reserved(priority: Priority) -> bool {
    priority == Priority::P0 || priority == Priority::P1 || priority == Priority::P4
}

/// The priorities of the interrupts that the scale uses.
#[derive(Clone, Copy, Debug, PartialEq, Eq, Structural)]
pub struct InterruptPriorities {
    pub gpiote: Priority,
    pub time: Priority,
    pub usbd: Priority,
    pub twispi0: Priority,
    pub clock_power: Priority,
}

impl InterruptPriorities {
    /// None of the interrupts gets in the way of the radio stack.
    pub open spec fn leaves_reserved_alone(self) -> bool {
        &&& !reserved(self.gpiote)
        &&& !reserved(self.time)
        &&& !reserved(self.usbd)
        &&& !reserved(self.twispi0)
        &&& !reserved(self.clock_power)
    }
}

/// The priorities to set before the radio stack is switched on.
pub fn interrupt_priorities() -> (priorities: InterruptPriorities)
    ensures
        priorities == (InterruptPriorities {
            gpiote: Priority::P2,
            time: Priority::P2,
            usbd: Priority::P2,
            twispi0: Priority::P2,
            clock_power: Priority::P2,
        }),
        priorities.leaves_reserved_alone(),
{
    InterruptPriorities {
        gpiote: Priority::P2,
        time: Priority::P2,
        usbd: Priority::P2,
        twispi0: Priority::P2,
        clock_power: Priority::P2,
    }
}

/// Where the low-frequency clock comes from.
#[derive(Clone, Copy, Debug, PartialEq, Eq, Structural)]
pub enum ClockSource {
    /// The oscillator on the chip.
    Rc,
    /// A crystal beside it.
    Xtal,
}

/// How far the low-frequency clock may be off.
#[derive(Clone, Copy, Debug, PartialEq, Eq, Structural)]
pub enum ClockAccuracy {
    Ppm250,
    Ppm500,
}

/// How the radio stack is set up.
pub struct SoftdeviceSettings {
    pub clock_source: ClockSource,
    /// The time between two calibrations of the oscillator, in quarters of a second.
    pub rc_ctiv: u8,
    /// After how many of them it is calibrated even if the temperature has not changed.
    pub rc_temp_ctiv: u8,
    pub clock_accuracy: ClockAccuracy,
    /// How many connections there can be at once.
    pub conn_count: u8,
    /// The time set aside for a connection, in steps of 1.25 ms.
    pub event_length: u16,
    /// The largest attribute packet.
    pub att_mtu: u16,
    /// The bytes of the attribute table, or the stack's own choice.
    pub attr_tab_size: Option<u32>,
    pub adv_set_count: u8,
    pub periph_role_count: u8,
    pub central_role_count: u8,
    pub central_sec_count: u8,
    pub device_name: &'static str,
    /// How many bytes of the name are in use, without an end mark.
    pub device_name_len: u16,
    /// How many bytes the name may ever have.
    pub device_name_max_len: u16,
    /// Whether a peer may change the name.
    pub device_name_writable: bool,
    /// Whether the stack keeps the name in its own memory.
    pub device_name_in_stack: bool,
    /// Whether the stack may survey the channels.
    pub channel_survey: bool,
}

impl SoftdeviceSettings {
    /// The oscillator on the chip is calibrated, and a crystal is not.
    pub open spec fn calibration_fits_clock(self) -> bool {
        match self.clock_source {
            ClockSource::Rc => self.rc_ctiv > 0 && self.rc_temp_ctiv > 0,
            ClockSource::Xtal => self.rc_ctiv == 0 && self.rc_temp_ctiv == 0,
        }
    }

    /// Every connection has a role, and every role a connection.
    pub open spec fn roles_fill_connections(self) -> bool {
        self.periph_role_count + self.central_role_count == self.conn_count
    }

    /// The whole name is in use, and there is room for it.
    pub open spec fn name_fits(self) -> bool {
        self.device_name.spec_bytes().len() == self.device_name_len <= self.device_name_max_len
    }
}

/// The name of the device, in ASCII.
pub open spec fn device_name_bytes() -> Seq<u8> {
    seq![0x43, 0x61, 0x74, 0x53, 0x63, 0x61, 0x6C, 0x65, 0x73]
}

/// How the radio stack of the scale is set up.
pub fn softdevice_config() -> (settings: SoftdeviceSettings)
    ensures
        settings.clock_source == ClockSource::Rc,
        settings.rc_ctiv == 16,
        settings.rc_temp_ctiv == 2,
        settings.clock_accuracy == ClockAccuracy::Ppm500,
        settings.conn_count == 6,
        settings.event_length == 24,
        settings.att_mtu == 256,
        settings.attr_tab_size == None::<u32>,
        settings.adv_set_count == 1,
        settings.periph_role_count == 3,
        settings.central_role_count == 3,
        settings.central_sec_count == 0,
        settings.device_name@ == "CatScales"@,
        settings.device_name.spec_bytes() == device_name_bytes(),
        settings.device_name_len == 9,
        settings.device_name_max_len == 9,
        !settings.device_name_writable,
        settings.device_name_in_stack,
        !settings.channel_survey,
        settings.calibration_fits_clock(),
        settings.roles_fill_connections(),
        settings.name_fits(),
{
    let device_name: &'static str = "CatScales";
    proof {
        reveal_strlit("CatScales");
        is_ascii_spec_bytes(device_name);
        assert(device_name.spec_bytes() =~= device_name_bytes());
    }
    SoftdeviceSettings {
        clock_source: ClockSource::Rc,
        rc_ctiv: 16,
        rc_temp_ctiv: 2,
        clock_accuracy: ClockAccuracy::Ppm500,
        conn_count: 6,
        event_length: 24,
        att_mtu: 256,
        attr_tab_size: None,
        adv_set_count: 1,
        periph_role_count: 3,
        central_role_count: 3,
        central_sec_count: 0,
        device_name,
        device_name_len: 9,
        device_name_max_len: 9,
        device_name_writable: false,
        device_name_in_stack: true,
        channel_survey: false,
    }
}

} // verus!
