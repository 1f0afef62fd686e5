use mouse_keyboard_input::codec::ByteOrder;
use mouse_keyboard_input::descriptor::DESCRIPTION_SIZE;
use mouse_keyboard_input::{input_id, uinput_user_dev, Error, UINPUT_MAX_NAME_SIZE};

#[test]
fn a_zeroed_description_holds_zero_everywhere() {
    let d = uinput_user_dev::zeroed();
    assert_eq!(d.name, [0i8; 80]);
    assert_eq!(d.id, input_id { bustype: 0, vendor: 0, product: 0, version: 0 });
    assert_eq!(d.ff_effects_max, 0);
    assert_eq!(d.absmax, [0i32; 64]);
    assert_eq!(d.absmin, [0i32; 64]);
    assert_eq!(d.absfuzz, [0i32; 64]);
    assert_eq!(d.absflat, [0i32; 64]);
    assert_eq!(d.to_bytes(ByteOrder::LittleEndian), vec![0u8; 1116]);
}

#[test]
fn a_name_is_written_with_a_zero_behind_it() {
    let mut d = uinput_user_dev::zeroed();
    d.name = [0x55; 80];
    assert_eq!(d.set_name("mouse"), Ok(()));
    let mut expected = [0x55i8; 80];
    expected[0] = b'm' as i8;
    expected[1] = b'o' as i8;
    expected[2] = b'u' as i8;
    expected[3] = b's' as i8;
    expected[4] = b'e' as i8;
    expected[5] = 0;
    assert_eq!(d.name, expected);
}

#[test]
fn a_name_of_seventy_nine_bytes_fits() {
    let mut d = uinput_user_dev::zeroed();
    let name = "n".repeat(79);
    assert_eq!(d.set_name(&name), Ok(()));
    assert_eq!(&d.name[..79], &[b'n' as i8; 79]);
    assert_eq!(d.name[79], 0);
}

#[test]
fn a_name_of_eighty_bytes_is_too_long() {
    assert_eq!(UINPUT_MAX_NAME_SIZE, 80);
    let mut d = uinput_user_dev::zeroed();
    d.set_name("before").unwrap();
    let before = d;
    assert_eq!(d.set_name(&"n".repeat(80)), Err(Error::NameTooLong));
    assert_eq!(d, before);
    assert_eq!(d.set_name(&"n".repeat(500)), Err(Error::NameTooLong));
    assert_eq!(d, before);
}

#[test]
fn a_name_with_a_zero_byte_is_refused() {
    let mut d = uinput_user_dev::zeroed();
    let before = d;
    assert_eq!(d.set_name("ab\0cd"), Err(Error::NameContainsNul));
    assert_eq!(d, before);
    let long = format!("{}\0", "n".repeat(100));
    assert_eq!(d.set_name(&long), Err(Error::NameContainsNul));
    assert_eq!(d, before);
}

#[test]
fn the_empty_name_is_a_name() {
    let mut d = uinput_user_dev::zeroed();
    d.name = [1; 80];
    assert_eq!(d.set_name(""), Ok(()));
    assert_eq!(d.name[0], 0);
    assert_eq!(&d.name[1..], &[1i8; 79]);
}

#[test]
fn bytes_beyond_ascii_keep_their_bits() {
    let mut d = uinput_user_dev::zeroed();
    assert_eq!(d.set_name("é"), Ok(()));
    assert_eq!(d.name[0], 0xc3u8 as i8);
    assert_eq!(d.name[1], 0xa9u8 as i8);
    assert_eq!(d.name[2], 0);
    let bytes = d.to_bytes(ByteOrder::BigEndian);
    assert_eq!(&bytes[..3], &[0xc3, 0xa9, 0x00]);
}

#[test]
fn the_description_is_laid_out_field_by_field() {
    let mut d = uinput_user_dev::zeroed();
    d.set_name("kb").unwrap();
    d.id = input_id { bustype: 0x0011, vendor: 0x0001, product: 0x0203, version: 0xab83 };
    d.ff_effects_max = 0x0a0b_0c0d;
    d.absmax[0] = 1;
    d.absmax[63] = -1;
    d.absmin[0] = 0x0102_0304;
    d.absfuzz[1] = 2;
    d.absflat[63] = i32::MIN;

    let le = d.to_bytes(ByteOrder::LittleEndian);
    assert_eq!(le.len(), DESCRIPTION_SIZE);
    assert_eq!(le.len(), 1116);
    assert_eq!(&le[..3], &[b'k', b'b', 0]);
    assert_eq!(&le[3..80], &[0u8; 77]);
    assert_eq!(&le[80..88], &[0x11, 0x00, 0x01, 0x00, 0x03, 0x02, 0x83, 0xab]);
    assert_eq!(&le[88..92], &[0x0d, 0x0c, 0x0b, 0x0a]);
    assert_eq!(&le[92..96], &[1, 0, 0, 0]);
    assert_eq!(&le[92 + 252..92 + 256], &[0xff, 0xff, 0xff, 0xff]);
    assert_eq!(&le[348..352], &[0x04, 0x03, 0x02, 0x01]);
    assert_eq!(&le[604 + 4..604 + 8], &[2, 0, 0, 0]);
    assert_eq!(&le[1112..1116], &[0x00, 0x00, 0x00, 0x80]);

    let be = d.to_bytes(ByteOrder::BigEndian);
    assert_eq!(be.len(), 1116);
    assert_eq!(&be[80..88], &[0x00, 0x11, 0x00, 0x01, 0x02, 0x03, 0xab, 0x83]);
    assert_eq!(&be[88..92], &[0x0a, 0x0b, 0x0c, 0x0d]);
    assert_eq!(&be[348..352], &[0x01, 0x02, 0x03, 0x04]);
    assert_eq!(&be[1112..1116], &[0x80, 0x00, 0x00, 0x00]);
}
