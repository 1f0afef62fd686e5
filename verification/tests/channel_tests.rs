use mouse_keyboard_input::channel::{send_each, sent_or_closed, sent_or_refused, Refusal};
use mouse_keyboard_input::codec::{decode, encode_batch, ByteOrder, WordSize};
use mouse_keyboard_input::key_codes::{
    BTN_LEFT, EV_KEY, EV_REL, EV_SYN, KEY_A, REL_HWHEEL, REL_WHEEL, REL_X, REL_Y, SYN_REPORT,
};
use mouse_keyboard_input::{
    DeviceDefinitionType, Error, EventParams, FlusherStep, Op, VirtualDevice, WireLayout,
};

const LE64: WireLayout = WireLayout { order: ByteOrder::LittleEndian, word: WordSize::Eight };
const SYN: EventParams = (EV_SYN, SYN_REPORT, 0);

fn created(interval: u64, capacity: usize) -> VirtualDevice {
    let mut device =
        VirtualDevice::with_layout(interval, capacity, DeviceDefinitionType::Combined, LE64)
            .unwrap();
    device.take_pending();
    device
}

fn queue(capacity: usize) -> (
    crossbeam_channel::Sender<EventParams>,
    crossbeam_channel::Receiver<EventParams>,
) {
    crossbeam_channel::bounded(capacity)
}

fn received(receiver: &crossbeam_channel::Receiver<EventParams>) -> Vec<EventParams> {
    let mut events = Vec::new();
    while let Ok(event) = receiver.try_recv() {
        events.push(event);
    }
    events
}

#[test]
fn ten_events_come_out_in_one_write_in_their_order() {
    let mut device = created(1_000_000, 50);
    let sender = device.sender.clone();
    let mut sent = Vec::new();
    for i in 0..10 {
        let event: EventParams = (EV_REL, REL_X, i - 5);
        assert_eq!(VirtualDevice::send_to_channel(event.0, event.1, event.2, &sender), Ok(()));
        sent.push(event);
    }
    assert_eq!(device.write_events_from_channel(), Ok(()));
    let ops = device.take_pending();
    assert_eq!(ops.len(), 1);
    let bytes = match &ops[0] {
        Op::Write(bytes) => bytes.clone(),
        other => panic!("{:?}", other),
    };
    assert_eq!(bytes.len(), 11 * 24);
    for (i, event) in sent.iter().enumerate() {
        assert_eq!(decode(LE64, &bytes[24 * i..24 * (i + 1)]), Some(*event));
    }
    assert_eq!(decode(LE64, &bytes[240..]), Some(SYN));
    sent.push(SYN);
    assert_eq!(bytes, encode_batch(LE64, &sent));
}

#[test]
fn a_flush_of_an_empty_queue_writes_a_synchronization() {
    let mut device = created(1_000_000, 50);
    assert_eq!(device.write_events_from_channel(), Ok(()));
    assert_eq!(device.write_events_from_channel(), Ok(()));
    let one = Op::Write(encode_batch(LE64, &[SYN]));
    assert_eq!(device.take_pending(), vec![one, Op::Write(encode_batch(LE64, &[SYN]))]);
}

#[test]
fn a_flush_takes_what_is_queued_and_leaves_the_queue_empty() {
    let mut device = created(1_000_000, 4);
    let sender = device.sender.clone();
    VirtualDevice::send_click(BTN_LEFT, &sender).unwrap();
    assert_eq!(sender.len(), 3);
    device.write_events_from_channel().unwrap();
    assert_eq!(sender.len(), 0);
    VirtualDevice::send_scroll_y(-1, &sender).unwrap();
    device.write_events_from_channel().unwrap();
    assert_eq!(
        device.take_pending(),
        vec![
            Op::Write(encode_batch(
                LE64,
                &[(EV_KEY, BTN_LEFT, 1), SYN, (EV_KEY, BTN_LEFT, 0), SYN]
            )),
            Op::Write(encode_batch(LE64, &[(EV_REL, REL_WHEEL, -1), SYN])),
        ]
    );
}

#[test]
fn a_flush_of_a_device_that_is_not_created_leaves_the_queue_alone() {
    let mut device = VirtualDevice::open(1_000_000, 4, LE64);
    let sender = device.sender.clone();
    VirtualDevice::send_press(KEY_A, &sender).unwrap();
    assert_eq!(device.write_events_from_channel(), Err(Error::WriteError));
    assert_eq!(sender.len(), 2);
    assert_eq!(device.take_pending(), vec![Op::Open]);
}

#[test]
fn a_flush_is_a_batch_of_what_was_queued() {
    let mut device = created(1_000_000, 4);
    let events = [(EV_KEY, KEY_A, 1), SYN, (EV_KEY, KEY_A, 0)];
    assert_eq!(device.write_batch(&events), Ok(()));
    assert_eq!(device.write_batch(&[]), Ok(()));
    assert_eq!(
        device.take_pending(),
        vec![
            Op::Write(encode_batch(LE64, &[(EV_KEY, KEY_A, 1), SYN, (EV_KEY, KEY_A, 0), SYN])),
            Op::Write(encode_batch(LE64, &[SYN])),
        ]
    );
}

#[test]
fn what_each_send_puts_in_the_queue() {
    let (sender, receiver) = queue(16);
    VirtualDevice::send_to_channel(7, 8, 9, &sender).unwrap();
    assert_eq!(received(&receiver), vec![(7, 8, 9)]);
    VirtualDevice::send_press(KEY_A, &sender).unwrap();
    assert_eq!(received(&receiver), vec![(EV_KEY, KEY_A, 1), SYN]);
    VirtualDevice::send_release(KEY_A, &sender).unwrap();
    assert_eq!(received(&receiver), vec![(EV_KEY, KEY_A, 0)]);
    VirtualDevice::send_click(KEY_A, &sender).unwrap();
    assert_eq!(received(&receiver), vec![(EV_KEY, KEY_A, 1), SYN, (EV_KEY, KEY_A, 0)]);
    VirtualDevice::send_mouse_move_x(50, &sender).unwrap();
    assert_eq!(received(&receiver), vec![(EV_REL, REL_X, 50)]);
    VirtualDevice::send_mouse_move_y(50, &sender).unwrap();
    assert_eq!(received(&receiver), vec![(EV_REL, REL_Y, -50)]);
    VirtualDevice::send_mouse_move(50, -50, &sender).unwrap();
    assert_eq!(received(&receiver), vec![(EV_REL, REL_X, 50), (EV_REL, REL_Y, 50)]);
    VirtualDevice::send_scroll_x(-3, &sender).unwrap();
    assert_eq!(received(&receiver), vec![(EV_REL, REL_HWHEEL, -3)]);
    VirtualDevice::send_scroll_y(100, &sender).unwrap();
    assert_eq!(received(&receiver), vec![(EV_REL, REL_WHEEL, 100)]);
    VirtualDevice::try_send_to_channel(1, 2, 3, &sender).unwrap();
    assert_eq!(received(&receiver), vec![(1, 2, 3)]);
    send_each(&sender, &[(1, 1, 1), (2, 2, 2), (3, 3, 3)]).unwrap();
    assert_eq!(received(&receiver), vec![(1, 1, 1), (2, 2, 2), (3, 3, 3)]);
    send_each(&sender, &[]).unwrap();
    assert_eq!(received(&receiver), vec![]);
}

#[test]
fn a_send_to_a_queue_without_a_receiver_fails() {
    let (sender, receiver) = queue(4);
    drop(receiver);
    assert_eq!(VirtualDevice::send_to_channel(1, 2, 3, &sender), Err(Error::ChannelClosed));
    assert_eq!(VirtualDevice::send_press(KEY_A, &sender), Err(Error::ChannelClosed));
    assert_eq!(VirtualDevice::send_release(KEY_A, &sender), Err(Error::ChannelClosed));
    assert_eq!(VirtualDevice::send_click(KEY_A, &sender), Err(Error::ChannelClosed));
    assert_eq!(VirtualDevice::send_mouse_move_x(1, &sender), Err(Error::ChannelClosed));
    assert_eq!(VirtualDevice::send_mouse_move_y(1, &sender), Err(Error::ChannelClosed));
    assert_eq!(VirtualDevice::send_mouse_move(1, 1, &sender), Err(Error::ChannelClosed));
    assert_eq!(VirtualDevice::send_scroll_x(1, &sender), Err(Error::ChannelClosed));
    assert_eq!(VirtualDevice::send_scroll_y(1, &sender), Err(Error::ChannelClosed));
    assert_eq!(VirtualDevice::try_send_to_channel(1, 2, 3, &sender), Err(Error::ChannelClosed));
    assert_eq!(send_each(&sender, &[(1, 1, 1)]), Err(Error::ChannelClosed));
}

#[test]
fn a_send_that_does_not_wait_fails_on_a_full_queue() {
    let (sender, receiver) = queue(2);
    assert_eq!(VirtualDevice::try_send_to_channel(1, 1, 1, &sender), Ok(()));
    assert_eq!(VirtualDevice::try_send_to_channel(2, 2, 2, &sender), Ok(()));
    assert_eq!(VirtualDevice::try_send_to_channel(3, 3, 3, &sender), Err(Error::QueueFull));
    assert_eq!(received(&receiver), vec![(1, 1, 1), (2, 2, 2)]);
    assert_eq!(VirtualDevice::try_send_to_channel(3, 3, 3, &sender), Ok(()));
}

#[test]
fn what_a_producer_is_told() {
    assert_eq!(sent_or_closed(Ok(())), Ok(()));
    assert_eq!(sent_or_closed(Err((1, 2, 3))), Err(Error::ChannelClosed));
    assert_eq!(sent_or_refused(Ok(())), Ok(()));
    assert_eq!(sent_or_refused(Err(Refusal::Full)), Err(Error::QueueFull));
    assert_eq!(sent_or_refused(Err(Refusal::Disconnected)), Err(Error::ChannelClosed));
}

#[test]
fn the_flusher_rests_for_what_is_left_of_the_interval() {
    let device = created(1_000_000, 4);
    assert_eq!(device.pause_after(0), 1_000_000);
    assert_eq!(device.pause_after(1), 999_999);
    assert_eq!(device.pause_after(400_000), 600_000);
    assert_eq!(device.pause_after(999_999), 1);
}

#[test]
fn the_flusher_does_not_rest_after_a_cycle_that_took_too_long() {
    let device = created(1_000_000, 4);
    assert_eq!(device.pause_after(1_000_000), 0);
    assert_eq!(device.pause_after(1_000_001), 0);
    assert_eq!(device.pause_after(u64::MAX), 0);
    let never = created(0, 4);
    assert_eq!(never.pause_after(0), 0);
    assert_eq!(never.pause_after(5), 0);
}

#[test]
fn cycles_start_an_interval_apart() {
    let device = created(1_000_000, 4);
    let mut start: u64 = 0;
    let mut starts = vec![start];
    for elapsed in [10, 200_000, 0, 999_999, 1_000_000] {
        start += elapsed + device.pause_after(elapsed);
        starts.push(start);
    }
    assert_eq!(starts, vec![0, 1_000_000, 2_000_000, 3_000_000, 4_000_000, 5_000_000]);
    let late = 1_700_000;
    assert_eq!(late + device.pause_after(late), late);
}

#[test]
fn a_queue_has_the_capacity_that_was_asked_for() {
    let device = created(1, 7);
    assert_eq!(device.sender.capacity(), Some(7));
    for i in 0..7 {
        assert_eq!(VirtualDevice::try_send_to_channel(1, 1, i, &device.sender), Ok(()));
    }
    assert_eq!(VirtualDevice::try_send_to_channel(1, 1, 7, &device.sender), Err(Error::QueueFull));
}

#[test]
fn the_queue_of_a_device_is_the_one_that_its_sender_feeds() {
    let mut device = created(1_000_000, 4);
    VirtualDevice::send_scroll_x(1, device.queue()).unwrap();
    assert_eq!(device.queue().capacity(), Some(4));
    assert_eq!(device.sender.len(), 1);
    device.write_events_from_channel().unwrap();
    assert_eq!(
        device.take_pending(),
        vec![Op::Write(encode_batch(LE64, &[(EV_REL, REL_HWHEEL, 1), SYN]))]
    );
}

#[test]
fn the_flusher_goes_on_after_a_cycle_that_was_written() {
    let device = created(1_000_000, 4);
    assert_eq!(device.after_cycle(Ok(()), 250_000, false), FlusherStep::Rest(750_000));
    assert_eq!(device.after_cycle(Ok(()), 1_000_000, false), FlusherStep::Rest(0));
    assert_eq!(device.after_cycle(Ok(()), 3_000_000, false), FlusherStep::Rest(0));
}

#[test]
fn the_flusher_ends_when_a_write_fails_or_it_is_asked_to() {
    let device = created(1_000_000, 4);
    assert_eq!(device.after_cycle(Err(Error::WriteError), 250_000, false), FlusherStep::Stop);
    assert_eq!(device.after_cycle(Err(Error::WriteError), 250_000, true), FlusherStep::Stop);
    assert_eq!(device.after_cycle(Ok(()), 250_000, true), FlusherStep::Stop);
    assert_eq!(device.after_cycle(Ok(()), 5_000_000, true), FlusherStep::Stop);
}

#[test]
fn a_flush_takes_no_more_than_the_queue_holds() {
    let mut device = created(1_000_000, 2);
    assert_eq!(VirtualDevice::try_send_to_channel(1, 1, 1, device.queue()), Ok(()));
    assert_eq!(VirtualDevice::try_send_to_channel(2, 2, 2, device.queue()), Ok(()));
    assert_eq!(VirtualDevice::try_send_to_channel(3, 3, 3, device.queue()), Err(Error::QueueFull));
    device.write_events_from_channel().unwrap();
    assert_eq!(
        device.take_pending(),
        vec![Op::Write(encode_batch(LE64, &[(1, 1, 1), (2, 2, 2), SYN]))]
    );
    assert_eq!(device.queue().len(), 0);
}

#[test]
fn a_move_by_the_smallest_number_is_not_sent() {
    let (sender, receiver) = queue(4);
    assert_eq!(VirtualDevice::send_mouse_move_y(i32::MIN, &sender), Err(Error::OutOfRange));
    assert_eq!(VirtualDevice::send_mouse_move(1, i32::MIN, &sender), Err(Error::OutOfRange));
    assert_eq!(received(&receiver), vec![]);
    assert_eq!(VirtualDevice::send_mouse_move(i32::MIN, i32::MAX, &sender), Ok(()));
    assert_eq!(
        received(&receiver),
        vec![(EV_REL, REL_X, i32::MIN), (EV_REL, REL_Y, -i32::MAX)]
    );
    drop(receiver);
    assert_eq!(VirtualDevice::send_mouse_move_y(i32::MIN, &sender), Err(Error::OutOfRange));
}

#[test]
fn a_queue_without_room_holds_nothing() {
    let mut device = created(1_000_000, 0);
    assert_eq!(device.queue().capacity(), Some(0));
    assert_eq!(VirtualDevice::try_send_to_channel(1, 1, 1, device.queue()), Err(Error::QueueFull));
    assert_eq!(device.write_events_from_channel(), Ok(()));
    assert_eq!(device.take_pending(), vec![Op::Write(encode_batch(LE64, &[SYN]))]);
}
