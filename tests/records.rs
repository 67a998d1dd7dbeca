use virtio_input::{
    copy_config_response, Error, InputConfigSelect, InputEvent, CONFIG_DATA_LEN, EVENT_WIRE_LEN,
};

fn block(prefix: &[u8]) -> [u8; CONFIG_DATA_LEN] {
    let mut data = [0xffu8; CONFIG_DATA_LEN];
    data[..prefix.len()].copy_from_slice(prefix);
    data
}

#[test]
fn copy_five_bytes() {
    let data = block(&[9, 8, 7, 6, 5]);
    let mut out = vec![0u8; 6];
    assert_eq!(copy_config_response(5, &data, &mut out), Ok(5));
    assert_eq!(out, vec![9, 8, 7, 6, 5, 0]);
}

#[test]
fn copy_into_exact_buffer() {
    let data = block(&[1, 2, 3]);
    let mut out = [0u8; 3];
    assert_eq!(copy_config_response(3, &data, &mut out), Ok(3));
    assert_eq!(out, [1, 2, 3]);
}

#[test]
fn copy_refuses_buffer_one_short() {
    let data = block(&[9, 8, 7, 6, 5]);
    let mut out = [0u8; 4];
    assert_eq!(copy_config_response(5, &data, &mut out), Err(Error::BufferTooSmall));
    assert_eq!(out, [0u8; 4]);
}

#[test]
fn copy_full_block() {
    let data = block(&[]);
    let mut out = [0u8; CONFIG_DATA_LEN];
    assert_eq!(copy_config_response(CONFIG_DATA_LEN as u8, &data, &mut out), Ok(128));
    assert!(out.iter().all(|b| *b == 0xff));
}

#[test]
fn copy_refuses_size_beyond_block() {
    let data = block(&[]);
    let mut out = [0u8; 200];
    assert_eq!(copy_config_response(129, &data, &mut out), Err(Error::InvalidParam));
    assert!(out.iter().all(|b| *b == 0));
}

#[test]
fn copy_empty_response() {
    let data = block(&[1]);
    let mut out: [u8; 0] = [];
    assert_eq!(copy_config_response(0, &data, &mut out), Ok(0));
}

#[test]
fn select_codes() {
    assert_eq!(InputConfigSelect::IdName.code(), 0x01);
    assert_eq!(InputConfigSelect::IdSerial.code(), 0x02);
    assert_eq!(InputConfigSelect::IdDevids.code(), 0x03);
    assert_eq!(InputConfigSelect::PropBits.code(), 0x10);
    assert_eq!(InputConfigSelect::EvBits.code(), 0x11);
    assert_eq!(InputConfigSelect::AbsInfo.code(), 0x12);
}

#[test]
fn default_record_is_zero() {
    assert_eq!(InputEvent::default(), InputEvent { event_type: 0, code: 0, value: 0 });
}

#[test]
fn record_encodes_little_endian() {
    let e = InputEvent { event_type: 0x0003, code: 0x0135, value: 0x0102_0304 };
    assert_eq!(e.to_bytes(), [0x03, 0x00, 0x35, 0x01, 0x04, 0x03, 0x02, 0x01]);
}

#[test]
fn record_decodes_little_endian() {
    let b = [0x01, 0x00, 0x1e, 0x00, 0xff, 0xff, 0xff, 0xff];
    let e = InputEvent::from_bytes(&b);
    assert_eq!(e, InputEvent { event_type: 1, code: 0x1e, value: u32::MAX });
}

#[test]
fn record_wire_round_trip() {
    let e = InputEvent { event_type: 0xabcd, code: 0x8001, value: 0x8000_00ff };
    assert_eq!(InputEvent::from_bytes(&e.to_bytes()), e);
    let b: [u8; EVENT_WIRE_LEN] = [9, 8, 7, 6, 5, 4, 3, 2];
    assert_eq!(InputEvent::from_bytes(&b).to_bytes(), b);
    assert_eq!(InputEvent::default().to_bytes(), [0u8; EVENT_WIRE_LEN]);
}
