use vl53l0x_core::com::{decode_16bit, Com};
use vl53l0x_core::types::{GpioFunctionality, GpioPolarity, SeqStepEnables};

#[test]
fn read_register_single_byte_frame() {
    let com = Com::new(0x29);
    let op = com.read_register_op(0xC0);
    assert_eq!(op.address, 0x29);
    assert_eq!(op.write_bytes, vec![0xC0]);
    assert_eq!(op.read_len, 1);
}

#[test]
fn read_registers_frame_and_length() {
    let com = Com::new(0x29);
    let op = com.read_registers_op(0x14, 4);
    // The auto-increment flag is disabled: the register address goes out
    // unchanged.
    assert_eq!(op.write_bytes, vec![0x14]);
    assert_eq!(op.read_len, 4);
}

#[test]
fn read_6bytes_frame() {
    let com = Com::new(0x29);
    let op = com.read_6bytes_op(0x14);
    assert_eq!(op.write_bytes, vec![0x14]);
    assert_eq!(op.read_len, 6);
}

#[test]
fn read_16bit_composes_big_endian() {
    let com = Com::new(0x29);
    let op = com.read_16bit_op(0x1E);
    assert_eq!(op.write_bytes, vec![0x1E]);
    assert_eq!(op.read_len, 2);
    // A register whose raw bytes are [0x01, 0x02] reads as 258.
    let response: [u8; 2] = [0x01, 0x02];
    assert_eq!(decode_16bit(&response), 258);
}

#[test]
fn write_byte_frame_and_single_discard() {
    let com = Com::new(0x29);
    let op = com.write_byte_op(0x80, 0x01);
    assert_eq!(op.write_bytes, vec![0x80, 0x01]);
    assert_eq!(op.read_len, 1);
}

#[test]
fn write_16bit_emits_big_endian_frame() {
    let com = Com::new(0x29);
    let op = com.write_16bit_op(0x44, 0xABCD);
    assert_eq!(op.write_bytes, vec![0x44, 0xAB, 0xCD]);
    assert_eq!(op.read_len, 1);
}

#[test]
fn write_32bit_emits_big_endian_frame() {
    let com = Com::new(0x29);
    let op = com.write_32bit_op(0x55, 0x12345678);
    assert_eq!(op.write_bytes, vec![0x55, 0x12, 0x34, 0x56, 0x78]);
    assert_eq!(op.read_len, 1);
}

#[test]
fn write_6bytes_frame_and_six_byte_discard() {
    let com = Com::new(0x29);
    let data: [u8; 6] = [1, 2, 3, 4, 5, 6];
    let op = com.write_6bytes_op(0x24, &data);
    assert_eq!(op.write_bytes, vec![0x24, 1, 2, 3, 4, 5, 6]);
    // The one write whose discard read-back is six bytes, not one.
    assert_eq!(op.read_len, 6);
}

#[test]
fn configuration_types_hold_their_values() {
    let f = GpioFunctionality::NewSampleReady;
    let p = GpioPolarity::ActiveLow;
    assert_eq!(f, GpioFunctionality::NewSampleReady);
    assert_ne!(p, GpioPolarity::ActiveHigh);
    let enables = SeqStepEnables { tcc: true, dss: false, msrc: true, pre_range: true, final_range: false };
    assert!(enables.tcc && !enables.dss);
}
