use usb_pd_sink::fusb302::{Fusb302MessageBuffer, MESSAGE_BUFFER_SIZE};
use usb_pd_sink::pd::{parse_rx_stream, Pd, PdState};
use usb_pd_sink::proto::Header;
use usb_pd_sink::Error;

#[test]
fn rx_pass_skips_leading_non_sop_token() {
    // A non-SOP token, then a SOP token, a header with one data object,
    // four payload bytes and the four CRC bytes the chip already checked.
    let header = Header::new().with_num_data_objects(1);
    let raw = header.encode();
    let stream = vec![
        0x00,
        0xe0,
        (raw % 256) as u8,
        (raw / 256) as u8,
        0xaa,
        0xbb,
        0xcc,
        0xdd,
        1,
        2,
        3,
        4,
    ];
    let msgs = parse_rx_stream(&stream).unwrap();
    assert_eq!(msgs.len(), 1);
    assert_eq!(msgs[0].header, header);
    assert_eq!(msgs[0].payload, vec![0xaa, 0xbb, 0xcc, 0xdd]);
}

#[test]
fn rx_pass_empty_stream() {
    let msgs = parse_rx_stream(&[]).unwrap();
    assert!(msgs.is_empty());
}

#[test]
fn rx_pass_control_message_has_empty_payload() {
    let header = Header::new().with_message_type(1);
    let raw = header.encode();
    let stream = vec![0xe0, (raw % 256) as u8, (raw / 256) as u8, 0, 0, 0, 0];
    let msgs = parse_rx_stream(&stream).unwrap();
    assert_eq!(msgs.len(), 1);
    assert_eq!(msgs[0].header, header);
    assert!(msgs[0].payload.is_empty());
}

#[test]
fn rx_pass_frames_several_messages() {
    let h1 = Header::new().with_num_data_objects(1);
    let r1 = h1.encode();
    let h2 = Header::new().with_message_type(6);
    let r2 = h2.encode();
    let mut stream = vec![0x20, 0x40];
    stream.extend([0xe0, (r1 % 256) as u8, (r1 / 256) as u8, 9, 8, 7, 6, 0, 0, 0, 0]);
    stream.push(0x1f);
    stream.extend([0xff, (r2 % 256) as u8, (r2 / 256) as u8, 0, 0, 0, 0]);
    let msgs = parse_rx_stream(&stream).unwrap();
    assert_eq!(msgs.len(), 2);
    assert_eq!(msgs[0].header, h1);
    assert_eq!(msgs[0].payload, vec![9, 8, 7, 6]);
    assert_eq!(msgs[1].header, h2);
    assert!(msgs[1].payload.is_empty());
}

#[test]
fn rx_pass_payload_length_follows_object_count() {
    for n in 0..=7u8 {
        let header = Header::new().with_num_data_objects(n);
        let raw = header.encode();
        let mut stream = vec![0xe0, (raw % 256) as u8, (raw / 256) as u8];
        for i in 0..(4 * n as usize + 4) {
            stream.push(i as u8);
        }
        let msgs = parse_rx_stream(&stream).unwrap();
        assert_eq!(msgs.len(), 1);
        assert_eq!(msgs[0].payload.len(), 4 * n as usize);
    }
}

#[test]
fn rx_pass_truncated_streams_fail() {
    // SOP token with an incomplete header.
    assert!(matches!(parse_rx_stream(&[0xe0, 0x00]), Err(Error::Index)));
    // Complete header declaring one object, but payload and CRC cut short.
    let raw = Header::new().with_num_data_objects(1).encode();
    let stream = vec![0xe0, (raw % 256) as u8, (raw / 256) as u8, 0xaa];
    assert!(matches!(parse_rx_stream(&stream), Err(Error::Index)));
}

#[test]
fn tx_buffer_capacity_error_leaves_length_unchanged() {
    let mut msg = Fusb302MessageBuffer::new();
    assert_eq!(msg.len, 3);
    for i in 0..7u32 {
        assert_eq!(msg.write_data(i), Ok(()));
    }
    assert_eq!(msg.len, MESSAGE_BUFFER_SIZE);
    let before = msg.message_bytes();
    assert_eq!(msg.write_data(99), Err(Error::Index));
    assert_eq!(msg.len, MESSAGE_BUFFER_SIZE);
    assert_eq!(msg.message_bytes(), before);
}

#[test]
fn tx_buffer_stages_header_and_objects_little_endian() {
    let mut msg = Fusb302MessageBuffer::new();
    msg.write_header(0x1082);
    msg.write_data(0x0403_0201).unwrap();
    let bytes = msg.message_bytes();
    assert_eq!(bytes, vec![0x43, 0x82, 0x10, 0x01, 0x02, 0x03, 0x04]);
}

#[test]
fn tx_framing_sequences() {
    let mut msg = Fusb302MessageBuffer::new();
    msg.write_data(0).unwrap();
    // Three SOP1 tokens, one SOP2 token, and the pack token carrying the
    // message length (register address byte excluded).
    assert_eq!(
        msg.sop_sequence(),
        vec![0x43, 0x12, 0x12, 0x12, 0x13, 0x80 + 6]
    );
    assert_eq!(
        Fusb302MessageBuffer::eop_sequence(),
        vec![0x43, 0xff, 0x14, 0xfe, 0xa1]
    );
}

#[test]
fn source_capabilities_build_request_reply() {
    // The offers of the selection scenario, as a wire payload.
    let offers: [u32; 3] = [
        300 + 1024 * 100,  // 5 V / 3 A
        200 + 1024 * 180,  // 9 V / 2 A
        100 + 1024 * 400,  // 20 V / 1 A
    ];
    let mut payload = Vec::new();
    for o in offers {
        payload.extend(o.to_le_bytes());
    }

    let mut pd = Pd::new();
    let header = Header::new()
        .with_message_type(1)
        .with_num_data_objects(3)
        .with_message_id(4);
    let msg = pd.handle_message(header, &payload).expect("capabilities must be handled");

    // The offer list is replaced wholesale.
    assert_eq!(pd.pdos.len(), 3);
    assert_eq!(pd.pdos[1].voltage(), 9000);
    // The ID counter advanced by one.
    assert_eq!(pd.message_id, 1);

    // The staged reply: a request header under the old message ID with one
    // data object, then the request for the 9 V offer at position 2.
    let expected_header = Header::new()
        .with_message_type(2)
        .with_spec_revision(2)
        .with_message_id(0)
        .with_num_data_objects(1)
        .encode();
    let expected_request: u32 = 200 + 1024 * 200 + 16777216 + 268435456 * 2;
    let mut expected = vec![0x43];
    expected.extend(expected_header.to_le_bytes());
    expected.extend(expected_request.to_le_bytes());
    assert_eq!(msg.message_bytes(), expected);
}

#[test]
fn unhandled_messages_leave_the_session_alone() {
    let mut pd = Pd::new();
    // A control message (no data objects) is not dispatched.
    let header = Header::new().with_message_type(1);
    assert!(pd.handle_message(header, &[]).is_none());
    assert_eq!(pd.message_id, 0);
    assert!(pd.pdos.is_empty());
    assert_eq!(pd.state, PdState::Reset);
    // A data message of another type is not dispatched either.
    let header = Header::new().with_message_type(4).with_num_data_objects(1);
    assert!(pd.handle_message(header, &[0, 0, 0, 0]).is_none());
    assert_eq!(pd.message_id, 0);
}
