//! The way into the bootloader: a value left in a register that outlives the reset.

use vstd::prelude::*;

verus! {

/// Bootloader: serial update on the next reset.
pub const GPREGRET_ENTER_SERIAL_DFU: u8 = 0x4E;

/// Bootloader: drag-and-drop and serial update on the next reset.
pub const GPREGRET_ENTER_UF2_DFU: u8 = 0x57;

/// Bootloader: update over the air on the next reset.
pub const GPREGRET_ENTER_OTA_DFU: u8 = 0xA8;

/// The retention register that the bootloader looks at.
pub const GPREGRET: u32 = 0;

/// One thing to ask of the power peripheral.
#[derive(Clone, Copy, Debug, PartialEq, Eq, Structural)]
pub enum PowerRequest {
    /// Clear these bits of a retention register.
    ClearBits { register: u32, mask: u32 },
    /// Set these bits of a retention register.
    SetBits { register: u32, mask: u32 },
    /// Reset the processor.
    SystemReset,
}

/// What a request makes of an 8-bit retention register.
pub open spec fn retained(register: u32, held: u8, request: PowerRequest) -> u8 {
    match request {
        PowerRequest::ClearBits { register: r, mask } => if r == register {
            held & !(mask as u8)
        } else {
            held
        },
        PowerRequest::SetBits { register: r, mask } => if r == register {
            held | (mask as u8)
        } else {
            held
        },
        PowerRequest::SystemReset => held,
    }
}

/// What requests, one after the other, make of an 8-bit retention register.
pub open spec fn retained_after(register: u32, held: u8, requests: Seq<PowerRequest>) -> u8
    decreases requests.len(),
{
    if requests.len() == 0 {
        held
    } else {
        retained(register, retained_after(register, held, requests.drop_last()), requests.last())
    }
}

/// The requests that take the scale into its bootloader, in this order: clear the
/// register, set the value for a serial update, reset.
pub open spec fn dfu_requests() -> Seq<PowerRequest> {
    seq![
        PowerRequest::ClearBits { register: GPREGRET, mask: 0xFF },
        PowerRequest::SetBits { register: GPREGRET, mask: GPREGRET_ENTER_SERIAL_DFU as u32 },
        PowerRequest::SystemReset,
    ]
}

/// What to ask of the power peripheral to come up in the bootloader.
pub fn reset_into_dfu() -> (requests: [PowerRequest; 3])
    ensures
        requests@ == dfu_requests(),
{
    let requests: [PowerRequest; 3] = [
        PowerRequest::ClearBits { register: GPREGRET, mask: 0xFF },
        PowerRequest::SetBits { register: GPREGRET, mask: GPREGRET_ENTER_SERIAL_DFU as u32 },
        PowerRequest::SystemReset,
    ];
    assert(requests@ =~= dfu_requests());
    requests
}

/// Whatever the register held, the bootloader finds exactly the value for a serial
/// update in it, and every other register is as it was.
pub proof fn law_bootloader_finds_exact_value(register: u32, held: u8)
    ensures
        register == GPREGRET ==> retained_after(register, held, dfu_requests())
            == GPREGRET_ENTER_SERIAL_DFU,
        register != GPREGRET ==> retained_after(register, held, dfu_requests()) == held,
{
    let requests = dfu_requests();
    assert(requests.drop_last().drop_last().drop_last() =~= Seq::empty());
    reveal_with_fuel(retained_after, 4);
    assert((held & !(0xFFu32 as u8)) | (0x4Eu32 as u8) == 0x4E) by (bit_vector);
}

/// The register is written before the processor resets, and nothing is asked of the
/// peripheral afterwards.
pub proof fn law_reset_comes_last(i: int)
    requires
        0 <= i < dfu_requests().len(),
    ensures
        dfu_requests()[i] == PowerRequest::SystemReset <==> i == dfu_requests().len() - 1,
{
}

} // verus!
