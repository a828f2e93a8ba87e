use vkot_client::msg::{DecodeError, ServerMsg};

#[test]
fn getch_record_is_tag_zero_and_code_point() {
    assert_eq!(ServerMsg::Getch(0x61).encode(), vec![0, 0x61, 0, 0, 0]);
}

#[test]
fn resized_record_is_tag_one_and_size() {
    assert_eq!(ServerMsg::Resized([80, 24]).encode(), vec![1, 80, 0, 24, 0]);
}

#[test]
fn skey_record_is_tag_two_and_code() {
    assert_eq!(ServerMsg::Skey([7, 9]).encode(), vec![2, 7, 9]);
}

#[test]
fn decodes_concatenated_records() {
    let buf = [0u8, 0x61, 0, 0, 0, 1, 10, 0, 3, 0, 2, 1, 2];
    let mut offset = 0usize;
    let msgs = ServerMsg::from_buf(&buf, &mut offset).unwrap();
    assert_eq!(
        msgs,
        vec![ServerMsg::Getch(0x61), ServerMsg::Resized([10, 3]), ServerMsg::Skey([1, 2])]
    );
    assert_eq!(offset, buf.len());
}

#[test]
fn decode_starts_at_offset() {
    let buf = [0xEEu8, 0xEE, 2, 5, 6];
    let mut offset = 2usize;
    assert_eq!(ServerMsg::from_buf(&buf, &mut offset), Ok(vec![ServerMsg::Skey([5, 6])]));
    assert_eq!(offset, 5);
}

#[test]
fn decode_of_nothing_is_no_message() {
    let mut offset = 0usize;
    assert_eq!(ServerMsg::from_buf(&[], &mut offset), Ok(vec![]));
    assert_eq!(offset, 0);
    let mut past = 9usize;
    assert_eq!(ServerMsg::from_buf(&[2, 0, 0], &mut past), Ok(vec![]));
    assert_eq!(past, 9);
}

#[test]
fn unknown_tag_fails() {
    let mut offset = 0usize;
    assert_eq!(ServerMsg::from_buf(&[3, 0, 0, 0, 0], &mut offset), Err(DecodeError::UnknownTag(3)));
    assert_eq!(offset, 1);
}

#[test]
fn unknown_tag_after_good_records_fails_the_whole_buffer() {
    let mut offset = 0usize;
    let buf = [2u8, 1, 1, 0xFF];
    assert_eq!(ServerMsg::from_buf(&buf, &mut offset), Err(DecodeError::UnknownTag(0xFF)));
    assert_eq!(offset, 4);
}

#[test]
fn truncated_record_fails() {
    let mut offset = 0usize;
    assert_eq!(ServerMsg::from_buf(&[0, 0x61, 0, 0], &mut offset), Err(DecodeError::Truncated));
    assert_eq!(offset, 1);
    let mut offset = 0usize;
    assert_eq!(ServerMsg::from_buf(&[1, 1, 0, 1], &mut offset), Err(DecodeError::Truncated));
    let mut offset = 0usize;
    assert_eq!(ServerMsg::from_buf(&[2, 1], &mut offset), Err(DecodeError::Truncated));
    let mut offset = 0usize;
    assert_eq!(ServerMsg::from_buf(&[2, 1, 1, 2], &mut offset), Err(DecodeError::Truncated));
    assert_eq!(offset, 4);
}

#[test]
fn every_variant_round_trips_at_edge_values() {
    let mut msgs = Vec::new();
    for ch in [0u32, 1, 0x61, 126, 127, 0x10FFFF, u32::MAX - 1, u32::MAX] {
        msgs.push(ServerMsg::Getch(ch));
    }
    for w in [i16::MIN, -1, 0, 1, 80, i16::MAX] {
        for h in [i16::MIN, -1, 0, 1, 24, i16::MAX] {
            msgs.push(ServerMsg::Resized([w, h]));
        }
    }
    for a in [0u8, 1, 127, 128, 255] {
        for b in [0u8, 1, 2, 255] {
            msgs.push(ServerMsg::Skey([a, b]));
        }
    }
    let mut all = Vec::new();
    for m in &msgs {
        let rec = m.encode();
        let mut offset = 0usize;
        assert_eq!(ServerMsg::from_buf(&rec, &mut offset), Ok(vec![*m]));
        assert_eq!(offset, rec.len());
        all.extend(rec);
    }
    let mut offset = 0usize;
    assert_eq!(ServerMsg::from_buf(&all, &mut offset), Ok(msgs));
    assert_eq!(offset, all.len());
}
