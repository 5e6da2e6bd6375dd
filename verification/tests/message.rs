use hvdef::message::{HvMessage, HvMessageHeader, TimerMessagePayload, MESSAGE_TYPE_TIMER_EXPIRED};

#[test]
fn header_byte_round_trip() {
    let h = HvMessageHeader { typ: 0x8000_0010, len: 24, flags: 1, rsvd: 0xbeef, id: 0x0102_0304_0506_0708 };
    let bytes = h.to_bytes();
    assert_eq!(HvMessageHeader::from_bytes(&bytes), h);
}

#[test]
fn header_layout_is_typ_len_flags_rsvd_id() {
    let h = HvMessageHeader { typ: 0x0403_0201, len: 5, flags: 6, rsvd: 0x0807, id: 0x100f_0e0d_0c0b_0a09 };
    assert_eq!(h.to_bytes(), [1, 2, 3, 4, 5, 6, 7, 8, 9, 0x0a, 0x0b, 0x0c, 0x0d, 0x0e, 0x0f, 0x10]);
}

#[test]
fn timer_payload_byte_round_trip() {
    let p = TimerMessagePayload { timer_index: 7, reserved: 0, expiration_time: u64::MAX, delivery_time: 12345 };
    let bytes = p.to_bytes();
    assert_eq!(TimerMessagePayload::from_bytes(&bytes), p);
}

#[test]
fn timer_payload_layout() {
    let p = TimerMessagePayload {
        timer_index: 0x0403_0201,
        reserved: 0x0807_0605,
        expiration_time: 0x100f_0e0d_0c0b_0a09,
        delivery_time: 0x1817_1615_1413_1211,
    };
    let mut expected = [0u8; 24];
    for (i, b) in expected.iter_mut().enumerate() {
        *b = (i + 1) as u8;
    }
    assert_eq!(p.to_bytes(), expected);
}

#[test]
fn timer_message_scenario() {
    let header = HvMessageHeader { typ: 0x8000_0010, len: 24, flags: 0, rsvd: 0, id: 7 };
    assert_eq!(header.typ, MESSAGE_TYPE_TIMER_EXPIRED);
    let payload = TimerMessagePayload { timer_index: 2, reserved: 0, expiration_time: 100, delivery_time: 200 };
    let mut chunks = [[0u8; 24]; 10];
    chunks[0] = payload.to_bytes();
    let msg = HvMessage { header, payload: chunks };
    let decoded = msg.timer_payload();
    assert_eq!(decoded.timer_index, 2);
    assert_eq!(decoded.reserved, 0);
    assert_eq!(decoded.expiration_time, 100);
    assert_eq!(decoded.delivery_time, 200);
}

#[test]
fn message_from_bytes_reads_header_and_chunks() {
    let header = HvMessageHeader { typ: MESSAGE_TYPE_TIMER_EXPIRED, len: 24, flags: 0, rsvd: 0, id: 9 };
    let mut buf = [0u8; 256];
    buf[..16].copy_from_slice(&header.to_bytes());
    for (i, b) in buf[16..].iter_mut().enumerate() {
        *b = i as u8;
    }
    let msg = HvMessage::from_bytes(&buf);
    assert_eq!(msg.header, header);
    for k in 0..10 {
        for j in 0..24 {
            assert_eq!(msg.payload[k][j], (24 * k + j) as u8);
        }
    }
}

#[test]
fn message_from_bytes_then_timer_payload() {
    let header = HvMessageHeader { typ: MESSAGE_TYPE_TIMER_EXPIRED, len: 24, flags: 0, rsvd: 0, id: 7 };
    let payload = TimerMessagePayload { timer_index: 2, reserved: 0, expiration_time: 100, delivery_time: 200 };
    let mut buf = [0u8; 256];
    buf[..16].copy_from_slice(&header.to_bytes());
    buf[16..40].copy_from_slice(&payload.to_bytes());
    let msg = HvMessage::from_bytes(&buf);
    assert_eq!(msg.timer_payload(), payload);
}
