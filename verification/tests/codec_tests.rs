use mouse_keyboard_input::codec::{
    convert_event_for_writing, decode, encode, encode_batch, low_bits, ByteOrder, WordSize,
};
use mouse_keyboard_input::key_codes::{EV_KEY, EV_REL, EV_SYN, KEY_A, REL_X, SYN_REPORT};
use mouse_keyboard_input::{input_event, timeval, WireLayout};

const LE64: WireLayout = WireLayout { order: ByteOrder::LittleEndian, word: WordSize::Eight };
const BE64: WireLayout = WireLayout { order: ByteOrder::BigEndian, word: WordSize::Eight };
const LE32: WireLayout = WireLayout { order: ByteOrder::LittleEndian, word: WordSize::Four };
const BE32: WireLayout = WireLayout { order: ByteOrder::BigEndian, word: WordSize::Four };

#[test]
fn a_key_press_on_a_little_endian_machine_with_long_words() {
    let bytes = encode(LE64, EV_KEY, KEY_A, 1);
    let mut expected = vec![0u8; 16];
    expected.extend_from_slice(&[0x01, 0x00, 0x1e, 0x00, 0x01, 0x00, 0x00, 0x00]);
    assert_eq!(bytes, expected);
}

#[test]
fn a_negative_move_on_a_big_endian_machine_with_short_words() {
    let bytes = encode(BE32, EV_REL, 0x0102, -2);
    let mut expected = vec![0u8; 8];
    expected.extend_from_slice(&[0x00, 0x02, 0x01, 0x02, 0xff, 0xff, 0xff, 0xfe]);
    assert_eq!(bytes, expected);
}

#[test]
fn every_field_in_its_byte_order() {
    assert_eq!(
        &encode(LE32, 0x1234, 0xabcd, 0x0102_0304)[8..],
        &[0x34, 0x12, 0xcd, 0xab, 0x04, 0x03, 0x02, 0x01]
    );
    assert_eq!(
        &encode(BE64, 0x1234, 0xabcd, 0x0102_0304)[16..],
        &[0x12, 0x34, 0xab, 0xcd, 0x01, 0x02, 0x03, 0x04]
    );
}

#[test]
fn the_extreme_values() {
    assert_eq!(&encode(LE32, 0, 0, i32::MIN)[12..], &[0x00, 0x00, 0x00, 0x80]);
    assert_eq!(&encode(LE32, 0, 0, i32::MAX)[12..], &[0xff, 0xff, 0xff, 0x7f]);
    assert_eq!(&encode(LE32, u16::MAX, u16::MAX, -1)[8..], &[0xff; 8]);
}

#[test]
fn a_record_has_the_same_size_whatever_it_holds() {
    for layout in [LE64, BE64] {
        assert_eq!(layout.record_size(), 24);
        assert_eq!(encode(layout, 0, 0, 0).len(), 24);
        assert_eq!(encode(layout, u16::MAX, u16::MAX, i32::MIN).len(), 24);
    }
    for layout in [LE32, BE32] {
        assert_eq!(layout.record_size(), 16);
        assert_eq!(encode(layout, 0, 0, 0).len(), 16);
        assert_eq!(encode(layout, u16::MAX, u16::MAX, i32::MIN).len(), 16);
    }
}

#[test]
fn the_timestamp_is_zero() {
    assert_eq!(&encode(LE64, 1, 2, 3)[..16], &[0u8; 16]);
    assert_eq!(&encode(BE32, 1, 2, 3)[..8], &[0u8; 8]);
}

#[test]
fn decoding_gives_the_event_back() {
    let events: [(u16, u16, i32); 7] = [
        (EV_KEY, KEY_A, 1),
        (EV_KEY, KEY_A, 0),
        (EV_REL, REL_X, -250),
        (EV_SYN, SYN_REPORT, 0),
        (u16::MAX, u16::MAX, i32::MAX),
        (0x8000, 0x00ff, i32::MIN),
        (0x0100, 0xff00, -1),
    ];
    for layout in [LE64, BE64, LE32, BE32] {
        for (kind, code, value) in events {
            let bytes = encode(layout, kind, code, value);
            assert_eq!(decode(layout, &bytes), Some((kind, code, value)));
        }
    }
}

#[test]
fn decoding_looks_at_the_length() {
    let bytes = encode(LE64, 1, 2, 3);
    assert_eq!(decode(LE32, &bytes), None);
    assert_eq!(decode(LE64, &bytes[..23]), None);
    assert_eq!(decode(LE64, &[]), None);
    let mut longer = bytes.clone();
    longer.push(0);
    assert_eq!(decode(LE64, &longer), None);
}

#[test]
fn decoding_does_not_look_at_the_timestamp() {
    let mut bytes = encode(LE64, EV_KEY, KEY_A, 1);
    for byte in bytes.iter_mut().take(16) {
        *byte = 0x5a;
    }
    assert_eq!(decode(LE64, &bytes), Some((EV_KEY, KEY_A, 1)));
}

#[test]
fn a_batch_is_its_records_in_their_order() {
    let events: [(u16, u16, i32); 3] = [(EV_REL, REL_X, 5), (EV_KEY, KEY_A, 1), (EV_SYN, SYN_REPORT, 0)];
    let batch = encode_batch(LE64, &events);
    assert_eq!(batch.len(), 72);
    let mut expected = Vec::new();
    for (kind, code, value) in events {
        expected.extend(encode(LE64, kind, code, value));
    }
    assert_eq!(batch, expected);
    for (i, event) in events.iter().enumerate() {
        assert_eq!(decode(LE64, &batch[24 * i..24 * (i + 1)]), Some(*event));
    }
}

#[test]
fn an_empty_batch_is_empty() {
    assert_eq!(encode_batch(BE32, &[]), Vec::<u8>::new());
}

#[test]
fn the_host_layout_is_the_machines() {
    let layout = WireLayout::host();
    let word = if std::mem::size_of::<usize>() == 8 { WordSize::Eight } else { WordSize::Four };
    assert_eq!(layout.word, word);
    let order = if 0x0102u16.to_ne_bytes() == [0x02, 0x01] {
        ByteOrder::LittleEndian
    } else {
        ByteOrder::BigEndian
    };
    assert_eq!(layout.order, order);
    assert_eq!(ByteOrder::host(), order);
    assert_eq!(WordSize::host(), word);
    let bytes = encode(layout, 0x0102, 0x0304, 0x0506_0708);
    let t = layout.record_size() - 8;
    assert_eq!(&bytes[t..t + 2], &0x0102u16.to_ne_bytes());
    assert_eq!(&bytes[t + 2..t + 4], &0x0304u16.to_ne_bytes());
    assert_eq!(&bytes[t + 4..], &0x0506_0708i32.to_ne_bytes());
}

#[test]
fn converting_fills_the_record() {
    let mut record = input_event {
        time: timeval { tv_sec: 7, tv_usec: 9 },
        kind: 0,
        code: 0,
        value: 0,
    };
    let bytes = convert_event_for_writing(EV_KEY, KEY_A, 1, &mut record, LE64);
    assert_eq!(
        record,
        input_event { time: timeval { tv_sec: 0, tv_usec: 0 }, kind: EV_KEY, code: KEY_A, value: 1 }
    );
    assert_eq!(bytes, encode(LE64, EV_KEY, KEY_A, 1));
}

#[test]
fn the_low_bits_of_a_wide_code() {
    assert_eq!(low_bits(0), 0);
    assert_eq!(low_bits(30), 30);
    assert_eq!(low_bits(0xffff), 0xffff);
    assert_eq!(low_bits(0x1_0000), 0);
    assert_eq!(low_bits(0x1_0110), 0x0110);
    assert_eq!(low_bits(-1), 0xffff);
    assert_eq!(low_bits(i32::MIN), 0);
    assert_eq!(low_bits(i32::MAX), 0xffff);
    assert_eq!(low_bits(-2), (-2i32) as u16);
}
