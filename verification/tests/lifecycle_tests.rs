use mouse_keyboard_input::capability::ControlCall;
use mouse_keyboard_input::codec::{encode_batch, ByteOrder, WordSize};
use mouse_keyboard_input::key_codes::{EV_ABS, EV_KEY, EV_REL, EV_SYN, KEY_A, REL_X, SYN_REPORT};
use mouse_keyboard_input::lifecycle::{Lifecycle, Stage};
use mouse_keyboard_input::{input_id, uinput_user_dev, Error, GradualMove, Op, WireLayout};

const BE64: WireLayout = WireLayout { order: ByteOrder::BigEndian, word: WordSize::Eight };

#[test]
fn a_device_starts_by_asking_for_its_handle() {
    let mut device = Lifecycle::open(BE64);
    assert_eq!(device.stage(), Stage::Open);
    assert_eq!(device.layout(), BE64);
    assert_eq!(*device.description(), uinput_user_dev::zeroed());
    assert_eq!(device.capabilities().calls(), vec![]);
    assert!(!device.capabilities().frozen());
    assert_eq!(device.take_pending(), vec![Op::Open]);
    assert_eq!(device.take_pending(), vec![]);
}

#[test]
fn the_stages_follow_one_another() {
    let mut device = Lifecycle::open(BE64);
    assert_eq!(device.stage(), Stage::Open);
    device.register(EV_KEY, KEY_A).unwrap();
    assert_eq!(device.stage(), Stage::Registered);
    device.register(EV_REL, REL_X).unwrap();
    assert_eq!(device.stage(), Stage::Registered);
    device.create().unwrap();
    assert_eq!(device.stage(), Stage::Created);
    assert!(device.capabilities().frozen());
    device.emit(&[(EV_SYN, SYN_REPORT, 0)]).unwrap();
    assert_eq!(device.stage(), Stage::Created);
    device.destroy();
    assert_eq!(device.stage(), Stage::Destroyed);
    assert!(device.capabilities().frozen());
}

#[test]
fn a_device_with_nothing_declared_can_be_created() {
    let mut device = Lifecycle::open(BE64);
    assert_eq!(device.create(), Ok(()));
    assert_eq!(
        device.take_pending(),
        vec![Op::Open, Op::Write(vec![0u8; 1116]), Op::Control(ControlCall::Create)]
    );
}

#[test]
fn the_identity_is_declared_before_the_creation() {
    let mut device = Lifecycle::open(BE64);
    let id = input_id { bustype: 3, vendor: 0x045e, product: 0x07a5, version: 0x0111 };
    assert_eq!(device.set_identity(id), Ok(()));
    assert_eq!(device.stage(), Stage::Registered);
    assert_eq!(device.description().id, id);
    device.create().unwrap();
    let other = input_id { bustype: 1, vendor: 1, product: 1, version: 1 };
    assert_eq!(device.set_identity(other), Err(Error::AlreadyCreated));
    assert_eq!(device.description().id, id);
    let ops = device.take_pending();
    let mut description = uinput_user_dev::zeroed();
    description.id = id;
    assert_eq!(ops[1], Op::Write(description.to_bytes(ByteOrder::BigEndian)));
}

#[test]
fn many_capabilities_are_registered_or_none() {
    let mut device = Lifecycle::open(BE64);
    device.take_pending();
    assert_eq!(
        device.register_all(&[(EV_KEY, 1), (EV_ABS, 0), (EV_REL, 0)]),
        Err(Error::CapabilityError)
    );
    assert_eq!(device.stage(), Stage::Open);
    assert_eq!(device.take_pending(), vec![]);
    assert_eq!(device.register_all(&[]), Ok(()));
    assert_eq!(device.stage(), Stage::Open);
    assert_eq!(device.register_all(&[(EV_KEY, 1), (EV_REL, 0), (EV_KEY, 1), (EV_KEY, 2)]), Ok(()));
    assert_eq!(device.stage(), Stage::Registered);
    assert_eq!(
        device.take_pending(),
        vec![
            Op::Control(ControlCall::EnableEventType(EV_KEY)),
            Op::Control(ControlCall::EnableKey(1)),
            Op::Control(ControlCall::EnableEventType(EV_REL)),
            Op::Control(ControlCall::EnableRelative(0)),
            Op::Control(ControlCall::EnableKey(2)),
        ]
    );
    assert_eq!(device.register(EV_ABS, 0), Err(Error::CapabilityError));
    device.create().unwrap();
    device.take_pending();
    assert_eq!(device.register_all(&[(EV_ABS, 0)]), Err(Error::AlreadyCreated));
    assert_eq!(device.register_all(&[]), Err(Error::AlreadyCreated));
    assert_eq!(device.register(EV_ABS, 0), Err(Error::AlreadyCreated));
    assert_eq!(device.take_pending(), vec![]);
}

#[test]
fn a_write_holds_the_records_of_its_batch() {
    let mut device = Lifecycle::open(BE64);
    assert_eq!(device.emit(&[(EV_KEY, KEY_A, 1)]), Err(Error::WriteError));
    device.create().unwrap();
    device.take_pending();
    let batch = [(EV_KEY, KEY_A, 1), (EV_SYN, SYN_REPORT, 0)];
    assert_eq!(device.emit(&batch), Ok(()));
    assert_eq!(device.take_pending(), vec![Op::Write(encode_batch(BE64, &batch))]);
}

#[test]
fn no_move_is_the_default() {
    assert_eq!(GradualMove::default(), GradualMove::calculate(0, 0));
    assert_eq!(
        GradualMove::default(),
        GradualMove { x_direction: 0, y_direction: 0, both_move: 0, move_only_x: 0, move_only_y: 0 }
    );
}
