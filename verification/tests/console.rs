use cat_scale::console::{trim_ascii, BootloaderHandler, Command};
use cat_scale::dfu::{
    reset_into_dfu, PowerRequest, GPREGRET, GPREGRET_ENTER_OTA_DFU, GPREGRET_ENTER_SERIAL_DFU,
    GPREGRET_ENTER_UF2_DFU,
};

fn command(data: &[u8]) -> Command {
    BootloaderHandler::new().handle_data(data)
}

#[test]
fn letters_are_commands() {
    assert_eq!(command(b"r"), Command::ResetIntoDfu);
    assert_eq!(command(b"p"), Command::TestPanic);
}

#[test]
fn anything_else_does_nothing() {
    for data in [
        &b""[..],
        b"R",
        b"P",
        b"rr",
        b"rp",
        b"r p",
        b"reset",
        b"x",
        b"\0r",
        b"r\0",
    ] {
        assert_eq!(command(data), Command::Nop);
    }
}

#[test]
fn white_space_around_a_command_is_ignored() {
    for data in [&b"r\n"[..], b"\r\nr\r\n", b" \t r", b"r\x0C", b"\n\n\n r \n"] {
        assert_eq!(command(data), Command::ResetIntoDfu);
    }
    assert_eq!(command(b"\tp\r\n"), Command::TestPanic);
}

#[test]
fn vertical_tab_is_no_white_space() {
    assert_eq!(command(b"\x0Br"), Command::Nop);
}

#[test]
fn blank_messages_do_nothing() {
    assert_eq!(command(b" \t\r\n\x0C"), Command::Nop);
}

#[test]
fn trimming_agrees_with_std() {
    for data in [
        &b""[..],
        b" ",
        b"  \n\t",
        b"abc",
        b"  abc",
        b"abc  ",
        b" a b ",
        b"\x0B a \x0B",
        b"\r\n\x0Cx\x0C",
        b"\xA0x\xA0",
    ] {
        assert_eq!(trim_ascii(data), data.trim_ascii());
        assert_eq!(trim_ascii(trim_ascii(data)), trim_ascii(data));
    }
}

#[test]
fn every_single_byte_is_treated_as_std_treats_it() {
    for byte in 0..=255u8 {
        let data = [byte, b'r', byte];
        assert_eq!(trim_ascii(&data), data.trim_ascii());
    }
}

#[test]
fn bootloader_requests_in_order() {
    assert_eq!(
        reset_into_dfu(),
        [
            PowerRequest::ClearBits {
                register: 0,
                mask: 0xFF
            },
            PowerRequest::SetBits {
                register: 0,
                mask: 0x4E
            },
            PowerRequest::SystemReset,
        ]
    );
}

#[test]
fn bootloader_finds_the_exact_value() {
    for held in 0..=255u8 {
        let mut register = held;
        let mut resets = 0;
        for request in reset_into_dfu() {
            match request {
                PowerRequest::ClearBits { register: r, mask } => {
                    assert_eq!(r, GPREGRET);
                    register &= !(mask as u8);
                }
                PowerRequest::SetBits { register: r, mask } => {
                    assert_eq!(r, GPREGRET);
                    register |= mask as u8;
                }
                PowerRequest::SystemReset => resets += 1,
            }
        }
        assert_eq!(register, GPREGRET_ENTER_SERIAL_DFU);
        assert_eq!(resets, 1);
    }
}

#[test]
fn bootloader_values() {
    assert_eq!(GPREGRET_ENTER_SERIAL_DFU, 0x4E);
    assert_eq!(GPREGRET_ENTER_UF2_DFU, 0x57);
    assert_eq!(GPREGRET_ENTER_OTA_DFU, 0xA8);
}
