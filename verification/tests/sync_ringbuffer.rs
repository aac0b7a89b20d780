use rustrtos::sync::primitives::{AtomicCounter, AtomicFlag};
use rustrtos::sync::ringbuffer::RingBuffer;
use rustrtos::util::pow2::is_power_of_two;

#[test]
fn test_basic_operations() {
    let mut buf: RingBuffer<u32, 8> = RingBuffer::new();

    assert!(buf.is_empty());
    assert!(!buf.is_full());
    assert_eq!(buf.capacity(), 8);

    // Push
    assert!(buf.try_push(1));
    assert!(buf.try_push(2));
    assert!(buf.try_push(3));

    assert_eq!(buf.len(), 3);

    // Pop
    assert_eq!(buf.try_pop(), Some(1));
    assert_eq!(buf.try_pop(), Some(2));
    assert_eq!(buf.len(), 1);

    // Clear
    buf.clear();
    assert!(buf.is_empty());
}

#[test]
fn ring_buffer_is_fifo() {
    let mut buf: RingBuffer<u32, 8> = RingBuffer::new();
    for i in 0..8u32 {
        assert!(buf.try_push(i));
    }
    assert!(buf.is_full());
    assert_eq!(buf.available_write(), 0);
    assert_eq!(buf.available_read(), 8);
    assert!(!buf.try_push(8));
    assert_eq!(buf.len(), 8);
    for i in 0..8u32 {
        assert_eq!(buf.try_pop(), Some(i));
    }
    assert_eq!(buf.try_pop(), None);
    assert!(buf.is_empty());
}

#[test]
fn ring_buffer_wraps_around() {
    let mut buf: RingBuffer<u32, 8> = RingBuffer::new();
    for i in 0..5u32 {
        assert!(buf.try_push(i));
    }
    for i in 0..3u32 {
        assert_eq!(buf.try_pop(), Some(i));
    }
    for i in 5..11u32 {
        assert!(buf.try_push(i));
    }
    assert!(buf.is_full());
    assert!(!buf.try_push(11));
    for i in 3..11u32 {
        assert_eq!(buf.try_pop(), Some(i));
    }
    assert_eq!(buf.try_pop(), None);
}

#[test]
fn ring_buffer_slices_are_contiguous_runs() {
    let mut buf: RingBuffer<u8, 8> = RingBuffer::new();
    assert_eq!(buf.read_slice().len(), 0);
    {
        let run = buf.write_slice();
        assert_eq!(run.len(), 8);
        run[0] = 10;
        run[1] = 11;
        run[2] = 12;
        run[3] = 13;
        run[4] = 14;
        run[5] = 15;
    }
    assert_eq!(buf.len(), 0);
    buf.commit_write(6);
    assert_eq!(buf.len(), 6);
    assert_eq!(buf.read_slice(), &[10, 11, 12, 13, 14, 15]);
    buf.commit_read(4);
    assert_eq!(buf.read_slice(), &[14, 15]);
    // Free space: two slots up to the end of the array, then four at its start.
    {
        let run = buf.write_slice();
        assert_eq!(run.len(), 2);
        run[0] = 16;
        run[1] = 17;
    }
    buf.commit_write(2);
    {
        let run = buf.write_slice();
        assert_eq!(run.len(), 4);
        run[0] = 18;
    }
    buf.commit_write(1);
    assert_eq!(buf.len(), 5);
    // Queued data: four elements up to the end of the array, then one at its start.
    assert_eq!(buf.read_slice(), &[14, 15, 16, 17]);
    buf.commit_read(4);
    assert_eq!(buf.read_slice(), &[18]);
    buf.commit_read(1);
    assert!(buf.is_empty());
    assert_eq!(buf.write_slice().len(), 7);
}

#[test]
fn ring_buffer_full_has_no_write_run() {
    let mut buf: RingBuffer<u8, 4> = RingBuffer::new();
    assert_eq!(buf.write(&[1, 2, 3, 4]), 4);
    assert_eq!(buf.write_slice().len(), 0);
    buf.commit_write(0);
    assert_eq!(buf.len(), 4);
    assert_eq!(buf.read_slice(), &[1, 2, 3, 4]);
}

#[test]
fn ring_buffer_bulk_bytes() {
    let mut buf: RingBuffer<u8, 8> = RingBuffer::new();
    assert_eq!(buf.write(&[]), 0);
    assert_eq!(buf.write(&[1, 2, 3, 4, 5]), 5);
    let mut out = [0u8; 3];
    assert_eq!(buf.read(&mut out), 3);
    assert_eq!(out, [1, 2, 3]);
    // Six bytes fit: the write wraps around the end of the array.
    assert_eq!(buf.write(&[6, 7, 8, 9, 10, 11, 12, 13]), 6);
    assert!(buf.is_full());
    assert_eq!(buf.write(&[99]), 0);
    let mut all = [0xEEu8; 10];
    assert_eq!(buf.read(&mut all), 8);
    assert_eq!(all, [4, 5, 6, 7, 8, 9, 10, 11, 0xEE, 0xEE]);
    assert!(buf.is_empty());
    let mut none = [7u8; 2];
    assert_eq!(buf.read(&mut none), 0);
    assert_eq!(none, [7, 7]);
    let mut empty: [u8; 0] = [];
    assert_eq!(buf.write(&[1]), 1);
    assert_eq!(buf.read(&mut empty), 0);
    assert_eq!(buf.len(), 1);
}

#[test]
fn ring_buffer_of_one_slot() {
    let mut buf: RingBuffer<u16, 1> = RingBuffer::new();
    assert!(buf.try_push(5));
    assert!(!buf.try_push(6));
    assert_eq!(buf.try_pop(), Some(5));
    assert!(buf.try_push(7));
    assert_eq!(buf.try_pop(), Some(7));
    assert_eq!(buf.try_pop(), None);
}

#[test]
fn ring_buffer_survives_many_rounds() {
    let mut buf: RingBuffer<u32, 4> = RingBuffer::new();
    for round in 0..1000u32 {
        assert!(buf.try_push(round));
        assert!(buf.try_push(round + 1));
        assert!(buf.try_push(round + 2));
        assert_eq!(buf.try_pop(), Some(round));
        assert_eq!(buf.try_pop(), Some(round + 1));
        assert_eq!(buf.try_pop(), Some(round + 2));
    }
    assert!(buf.is_empty());
}

#[derive(Clone, Copy, Debug, PartialEq)]
enum Command {
    Start,
    Stop,
}

#[test]
fn ring_buffer_of_a_type_without_default() {
    let mut buf: RingBuffer<Command, 2> = RingBuffer::with_fill(Command::Stop);
    assert!(buf.is_empty());
    assert!(buf.try_push(Command::Start));
    assert!(buf.try_push(Command::Stop));
    assert!(!buf.try_push(Command::Start));
    assert_eq!(buf.try_pop(), Some(Command::Start));
    assert_eq!(buf.try_pop(), Some(Command::Stop));
    assert_eq!(buf.try_pop(), None);
    let mut channel: rustrtos::tasks::multicore::IpcChannel<Command, 2> =
        rustrtos::tasks::multicore::IpcChannel::with_fill(Command::Stop);
    assert_eq!(channel.try_send(Command::Start), Ok(()));
    assert_eq!(channel.try_recv(), Some(Command::Start));
}

#[test]
fn power_of_two_check() {
    assert!(!is_power_of_two(0));
    assert!(is_power_of_two(1));
    assert!(is_power_of_two(2));
    assert!(!is_power_of_two(3));
    assert!(is_power_of_two(4096));
    assert!(!is_power_of_two(4097));
    assert!(!is_power_of_two(usize::MAX));
    assert!(is_power_of_two(1 << (usize::BITS - 1)));
}

#[test]
fn atomic_flag_and_counter() {
    let mut flag = AtomicFlag::new();
    assert!(!flag.is_set());
    assert!(!flag.take());
    flag.set();
    assert!(flag.is_set());
    assert!(flag.take());
    assert!(!flag.is_set());
    flag.set();
    flag.clear();
    assert!(!flag.is_set());
    assert!(!AtomicFlag::default().is_set());

    let mut counter = AtomicCounter::new();
    assert_eq!(counter.get(), 0);
    assert_eq!(counter.increment(), 1);
    assert_eq!(counter.add(41), 42);
    assert_eq!(counter.get(), 42);
    counter.reset();
    assert_eq!(counter.get(), 0);
    let mut high = AtomicCounter::with_value(u64::MAX);
    assert_eq!(high.increment(), 0);
    let mut near = AtomicCounter::with_value(u64::MAX - 1);
    assert_eq!(near.add(5), 3);
    assert_eq!(AtomicCounter::default().get(), 0);
}
