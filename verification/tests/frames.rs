use michiru::zstack::{CmdType, Message, ParseError, Subsystem};

fn frame(cmd0: u8, cmd1: u8, data: &[u8]) -> Vec<u8> {
    let mut buf = vec![0xfe, data.len() as u8, cmd0, cmd1];
    buf.extend_from_slice(data);
    let mut check = cmd0 ^ cmd1 ^ (data.len() as u8);
    for b in data {
        check ^= b;
    }
    buf.push(check);
    buf
}

#[test]
fn parse_sound_frame() {
    let buf = frame(0x21, 0x01, &[0xAA, 0xBB]);
    let (msg, used) = Message::parse(&buf).unwrap();
    assert_eq!(used, buf.len());
    assert_eq!(msg.command_id, [0x21, 0x01]);
    assert_eq!(msg.data, vec![0xAA, 0xBB]);
    assert!(msg.verify().is_ok());
    assert_eq!(msg.cmd_type(), Ok(CmdType::SyncRequest));
    assert_eq!(msg.subsystem(), Ok(Subsystem::Sys));
    assert_eq!(msg.cmd_id(), 0x01);
}

#[test]
fn parse_leaves_trailing_bytes() {
    let mut buf = frame(0x45, 0x80, &[]);
    let frame_len = buf.len();
    buf.extend_from_slice(&[0xfe, 0x00]);
    let (msg, used) = Message::parse(&buf).unwrap();
    assert_eq!(used, frame_len);
    assert!(msg.data.is_empty());
    assert_eq!(msg.cmd_type(), Ok(CmdType::AsyncRequest));
    assert_eq!(msg.subsystem(), Ok(Subsystem::Zdo));
}

#[test]
fn corrupted_frame_fails_verification() {
    let mut buf = frame(0x21, 0x01, &[0xAA, 0xBB]);
    buf[4] ^= 0x10;
    let (msg, _) = Message::parse(&buf).unwrap();
    assert!(msg.verify().is_err());
}

#[test]
fn incomplete_and_misframed_buffers() {
    assert_eq!(Message::parse(&[]), Err(ParseError::Incomplete));
    assert_eq!(Message::parse(&[0xfe]), Err(ParseError::Incomplete));
    assert_eq!(Message::parse(&[0xfe, 5, 1, 2]), Err(ParseError::Incomplete));
    assert_eq!(Message::parse(&[0x00, 2, 1]), Err(ParseError::BadStartByte));
}

#[test]
fn command_field_tables() {
    assert_eq!(CmdType::try_from(0x00), Ok(CmdType::Poll));
    assert_eq!(CmdType::try_from(0x03), Ok(CmdType::SyncResponse));
    assert_eq!(CmdType::try_from(0x04), Err(()));
    assert_eq!(Subsystem::try_from(0x07), Ok(Subsystem::Util));
    assert_eq!(Subsystem::try_from(0x0f), Ok(Subsystem::AppConfig));
    assert_eq!(Subsystem::try_from(0x15), Ok(Subsystem::GreenPower));
    assert_eq!(Subsystem::try_from(0x0a), Err(()));
    assert_eq!(Subsystem::try_from(0x00), Err(()));
}
