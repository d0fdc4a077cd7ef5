//! The wire format on plain bytes.

use icmu::frame::{copy_response_data, read_status_data};
use icmu::opcode::Opcode;

#[test]
fn opcodes_have_their_wire_codes() {
    assert_eq!(Opcode::Activate.byte(), 0xB0);
    assert_eq!(Opcode::SdadTransmission.byte(), 0xA6);
    assert_eq!(Opcode::SdadStatus.byte(), 0xF5);
    assert_eq!(Opcode::ReadRegister.byte(), 0x97);
    assert_eq!(Opcode::WriteRegister.byte(), 0xD2);
    assert_eq!(Opcode::RegisterStatusData.byte(), 0xAD);
}

#[test]
fn copy_response_data_leaves_out_first_byte() {
    let mut data = [0u8; 3];
    copy_response_data(&[0xEE, 0x01, 0x02, 0x03], &mut data);
    assert_eq!(data, [0x01, 0x02, 0x03]);
}

#[test]
fn copy_response_data_of_one_byte_copies_nothing() {
    let mut data: [u8; 0] = [];
    copy_response_data(&[0xEE], &mut data);
    assert_eq!(data, []);
}

#[test]
fn read_status_data_takes_second_and_third_byte() {
    let ok: Result<(), u8> = Ok(());
    assert_eq!(read_status_data(&[0x00, 0x11, 0x22], ok), Ok((0x11, 0x22)));
}

#[test]
fn read_status_data_passes_error_on() {
    let failed: Result<(), &str> = Err("bus fault");
    assert_eq!(read_status_data(&[0x00, 0x11, 0x22], failed), Err("bus fault"));
}
