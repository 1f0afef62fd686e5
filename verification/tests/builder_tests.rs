use mouse_keyboard_input::capability::ControlCall;
use mouse_keyboard_input::codec::{encode, ByteOrder, WordSize};
use mouse_keyboard_input::key_codes::{
    BTN_LEFT, BTN_MIDDLE, BTN_RIGHT, EV_KEY, EV_REL, EV_SYN, KEY_A, REL_HWHEEL, REL_WHEEL, REL_X,
    REL_Y, SYN_REPORT,
};
use mouse_keyboard_input::lifecycle::Stage;
use mouse_keyboard_input::{uinput_user_dev, Error, FakeDevice, Op, WireLayout};

const LE64: WireLayout = WireLayout { order: ByteOrder::LittleEndian, word: WordSize::Eight };

fn created() -> FakeDevice {
    let mut device = FakeDevice::with_layout(LE64);
    device.take_pending();
    device
}

#[test]
fn a_plain_device_is_set_up_as_a_keyboard_and_a_mouse() {
    let mut device = FakeDevice::new();
    assert_eq!(device.stage(), Stage::Created);
    assert_eq!(device.layout(), WireLayout::host());
    let order = device.layout().order;
    let mut expected = vec![Op::Open, Op::Control(ControlCall::EnableEventType(EV_KEY))];
    for code in 1..127u16 {
        expected.push(Op::Control(ControlCall::EnableKey(code)));
    }
    expected.push(Op::Control(ControlCall::EnableKey(BTN_LEFT)));
    expected.push(Op::Control(ControlCall::EnableKey(BTN_RIGHT)));
    expected.push(Op::Control(ControlCall::EnableKey(BTN_MIDDLE)));
    expected.push(Op::Control(ControlCall::EnableEventType(EV_REL)));
    expected.push(Op::Control(ControlCall::EnableRelative(REL_X)));
    expected.push(Op::Control(ControlCall::EnableRelative(REL_Y)));
    expected.push(Op::Control(ControlCall::EnableRelative(REL_HWHEEL)));
    expected.push(Op::Control(ControlCall::EnableRelative(REL_WHEEL)));
    let mut description = uinput_user_dev::zeroed();
    description.set_name("testdevice").unwrap();
    expected.push(Op::Write(description.to_bytes(order)));
    expected.push(Op::Control(ControlCall::Create));
    assert_eq!(device.take_pending(), expected);
}

#[test]
fn each_record_is_a_write_of_its_own() {
    let mut device = created();
    assert_eq!(device.move_mouse_or_wheel(REL_X as i32, 50), Ok(()));
    assert_eq!(device.synchronize(), Ok(()));
    assert_eq!(device.press(KEY_A as i32), Ok(()));
    assert_eq!(device.release(KEY_A as i32), Ok(()));
    let syn = Op::Write(encode(LE64, EV_SYN, SYN_REPORT, 0));
    assert_eq!(
        device.take_pending(),
        vec![
            Op::Write(encode(LE64, EV_REL, REL_X, 50)),
            Op::Write(encode(LE64, EV_SYN, SYN_REPORT, 0)),
            Op::Write(encode(LE64, EV_SYN, SYN_REPORT, 0)),
            Op::Write(encode(LE64, EV_KEY, KEY_A, 1)),
            Op::Write(encode(LE64, EV_SYN, SYN_REPORT, 0)),
            Op::Write(encode(LE64, EV_KEY, KEY_A, 0)),
            syn,
        ]
    );
}

#[test]
fn a_press_is_followed_by_a_synchronization() {
    let mut device = created();
    device.press(KEY_A as i32).unwrap();
    let mut key = vec![0u8; 16];
    key.extend_from_slice(&[0x01, 0x00, 0x1e, 0x00, 0x01, 0x00, 0x00, 0x00]);
    assert_eq!(device.take_pending(), vec![Op::Write(key), Op::Write(vec![0u8; 24])]);
}

#[test]
fn a_wide_code_keeps_its_low_bits() {
    let mut device = created();
    device.press(0x0001_0110).unwrap();
    device.release(-1).unwrap();
    device.move_mouse_or_wheel(0x7fff_0001, -3).unwrap();
    let ops = device.take_pending();
    assert_eq!(ops.len(), 6);
    assert_eq!(ops[0], Op::Write(encode(LE64, EV_KEY, BTN_LEFT, 1)));
    assert_eq!(ops[2], Op::Write(encode(LE64, EV_KEY, 0xffff, 0)));
    assert_eq!(ops[4], Op::Write(encode(LE64, EV_REL, REL_Y, -3)));
    for i in [1, 3, 5] {
        assert_eq!(ops[i], Op::Write(encode(LE64, EV_SYN, SYN_REPORT, 0)));
    }
}

#[test]
fn a_plain_device_writes_only_while_it_is_created() {
    let mut device = FakeDevice::open(LE64);
    assert_eq!(device.stage(), Stage::Open);
    assert_eq!(device.press(1), Err(Error::WriteError));
    assert_eq!(device.release(1), Err(Error::WriteError));
    assert_eq!(device.synchronize(), Err(Error::WriteError));
    assert_eq!(device.move_mouse_or_wheel(0, 1), Err(Error::WriteError));
    assert_eq!(device.take_pending(), vec![Op::Open]);
    device.destroy();
    assert_eq!(device.press(1), Err(Error::WriteError));
    assert_eq!(device.take_pending(), vec![Op::Control(ControlCall::Destroy)]);
}

#[test]
fn a_plain_device_is_built_step_by_step() {
    let mut device = FakeDevice::open(LE64);
    assert_eq!(device.set_name("pad"), Ok(()));
    assert_eq!(device.register_key(KEY_A as i32), Ok(()));
    assert_eq!(device.register_key(KEY_A as i32), Ok(()));
    assert_eq!(device.register_relative(REL_X as i32), Ok(()));
    assert_eq!(device.register_key(0x0001_0000 + BTN_LEFT as i32), Ok(()));
    assert_eq!(device.create(), Ok(()));
    assert_eq!(device.register_all(), Err(Error::AlreadyCreated));
    assert_eq!(device.register_key(1), Err(Error::AlreadyCreated));
    assert_eq!(device.register_relative(1), Err(Error::AlreadyCreated));
    assert_eq!(device.set_name("other"), Err(Error::AlreadyCreated));
    assert_eq!(device.create(), Err(Error::AlreadyCreated));
    let mut description = uinput_user_dev::zeroed();
    description.set_name("pad").unwrap();
    assert_eq!(
        device.take_pending(),
        vec![
            Op::Open,
            Op::Control(ControlCall::EnableEventType(EV_KEY)),
            Op::Control(ControlCall::EnableKey(KEY_A)),
            Op::Control(ControlCall::EnableEventType(EV_REL)),
            Op::Control(ControlCall::EnableRelative(REL_X)),
            Op::Control(ControlCall::EnableKey(BTN_LEFT)),
            Op::Write(description.to_bytes(ByteOrder::LittleEndian)),
            Op::Control(ControlCall::Create),
        ]
    );
}

#[test]
fn registering_everything_twice_takes_no_call_the_second_time() {
    let mut device = FakeDevice::open(LE64);
    device.register_all().unwrap();
    let first = device.take_pending();
    assert_eq!(first.len(), 1 + 2 + 126 + 3 + 4);
    device.register_all().unwrap();
    assert_eq!(device.take_pending(), vec![]);
    let enabled = first
        .iter()
        .filter(|op| **op == Op::Control(ControlCall::EnableEventType(EV_KEY)))
        .count();
    assert_eq!(enabled, 1);
}

#[test]
fn a_plain_device_is_destroyed_once() {
    let mut device = created();
    device.destroy();
    device.destroy();
    assert_eq!(device.stage(), Stage::Destroyed);
    assert_eq!(device.take_pending(), vec![Op::Control(ControlCall::Destroy)]);
}
