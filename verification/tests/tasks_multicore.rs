use rustrtos::tasks::critical::{
    fast_bit_clear, fast_bit_set, fast_bit_test, jitter, simulate_sensor_read, SensorState,
};
use rustrtos::tasks::multicore::{
    Core1, CoreAssignment, CoreId, IpcChannel, IpcSemaphore, IpcSignal, MulticoreStats, TaskType,
};
use rustrtos::tasks::normal::{led_off, led_on, process_sensor_data, set_led, LedEvent, LedState};

#[test]
fn test_core_assignment_default() {
    let assignment = CoreAssignment::default();
    assert_eq!(assignment, CoreAssignment::Auto { io_on_core1: true });
}

#[test]
fn test_core_assignment_resolve() {
    let auto = CoreAssignment::auto();
    assert_eq!(auto.resolve(true, CoreId::Core0), CoreId::Core1);
    assert_eq!(auto.resolve(false, CoreId::Core0), CoreId::Core0);

    let manual = CoreAssignment::manual(CoreId::Core1);
    assert_eq!(manual.resolve(false, CoreId::Core0), CoreId::Core1);
}

#[test]
fn test_task_type_recommendation() {
    assert_eq!(TaskType::IoIntensive.recommended_core(), CoreId::Core1);
    assert_eq!(TaskType::Realtime.recommended_core(), CoreId::Core0);
}

#[test]
fn core_assignment_variants() {
    assert_eq!(CoreAssignment::core0(), CoreAssignment::Manual(CoreId::Core0));
    assert_eq!(CoreAssignment::core1(), CoreAssignment::Manual(CoreId::Core1));
    assert_eq!(CoreAssignment::Any.resolve(true, CoreId::Core1), CoreId::Core1);
    assert_eq!(CoreAssignment::Any.resolve(false, CoreId::Core0), CoreId::Core0);
    let no_io = CoreAssignment::Auto { io_on_core1: false };
    assert_eq!(no_io.resolve(true, CoreId::Core1), CoreId::Core0);
    assert_eq!(CoreAssignment::core0().resolve(true, CoreId::Core1), CoreId::Core0);
    assert_eq!(CoreId::Core0.other(), CoreId::Core1);
    assert_eq!(CoreId::Core1.other(), CoreId::Core0);
}

#[test]
fn task_types() {
    assert!(TaskType::IoIntensive.is_io_intensive());
    assert!(!TaskType::CpuIntensive.is_io_intensive());
    assert!(!TaskType::General.is_io_intensive());
    assert_eq!(TaskType::CpuIntensive.recommended_core(), CoreId::Core1);
    assert_eq!(TaskType::Background.recommended_core(), CoreId::Core1);
    assert_eq!(TaskType::General.recommended_core(), CoreId::Core0);
}

#[test]
fn second_core_is_started_once() {
    let mut core1 = Core1::new();
    assert!(!core1.is_started());
    assert!(!core1.is_ready());
    let stats = MulticoreStats::current(&core1);
    assert_eq!((stats.core0_active, stats.core1_started, stats.core1_ready), (true, false, false));
    assert!(core1.begin_start());
    assert!(core1.is_started());
    assert!(!core1.begin_start());
    assert!(!core1.is_ready());
    assert!(!core1.wait_ready());
    core1.mark_ready();
    assert!(core1.is_ready());
    assert!(core1.wait_ready());
    let stats = MulticoreStats::current(&core1);
    assert_eq!((stats.core0_active, stats.core1_started, stats.core1_ready), (true, true, true));
}

#[test]
fn ipc_channel_is_a_bounded_fifo() {
    let mut channel: IpcChannel<u32, 4> = IpcChannel::new();
    assert_eq!(channel.capacity(), 4);
    assert!(channel.is_empty());
    assert_eq!(channel.try_recv(), None);
    for i in 0..4u32 {
        assert_eq!(channel.try_send(i), Ok(()));
    }
    assert!(channel.is_full());
    assert_eq!(channel.len(), 4);
    assert_eq!(channel.try_send(4), Err(4));
    assert_eq!(channel.try_recv(), Some(0));
    assert_eq!(channel.try_send(5), Ok(()));
    assert_eq!(channel.try_recv(), Some(1));
    assert_eq!(channel.try_recv(), Some(2));
    assert_eq!(channel.try_recv(), Some(3));
    assert_eq!(channel.try_recv(), Some(5));
    assert_eq!(channel.try_recv(), None);
    assert!(!channel.is_full());
}

#[test]
fn signal_latest_value_wins() {
    let mut signal: IpcSignal<u32> = IpcSignal::new();
    assert!(!signal.is_signaled());
    assert_eq!(signal.wait(), None);
    assert_eq!(signal.check_and_clear(), None);
    signal.signal(1);
    signal.signal(2);
    assert!(signal.is_signaled());
    assert_eq!(signal.wait(), Some(2));
    assert!(!signal.is_signaled());
    assert_eq!(signal.wait(), None);
    assert_eq!(signal.check_and_clear(), None);
    signal.signal(3);
    assert_eq!(signal.check_and_clear(), Some(3));
    signal.signal(4);
    assert_eq!(signal.try_wait(), Some(4));
    assert_eq!(signal.try_wait(), None);
}

#[test]
fn signal_without_a_value() {
    let mut signal: IpcSignal<()> = IpcSignal::new();
    assert!(signal.check_and_clear().is_none());
    signal.signal(());
    signal.signal(());
    assert!(signal.is_signaled());
    assert!(signal.check_and_clear().is_some());
    assert!(signal.check_and_clear().is_none());
}

#[test]
fn semaphore_stays_within_bounds() {
    let mut semaphore = IpcSemaphore::new(0, 3);
    assert_eq!(semaphore.max(), 3);
    assert!(!semaphore.try_acquire());
    assert_eq!(semaphore.count(), 0);
    for _ in 0..(3 + 5) {
        semaphore.release();
        assert!(semaphore.count() <= 3);
    }
    assert_eq!(semaphore.count(), 3);
    assert!(semaphore.try_acquire());
    assert!(semaphore.try_acquire());
    assert!(semaphore.try_acquire());
    assert!(!semaphore.try_acquire());
    assert_eq!(semaphore.count(), 0);
    semaphore.release();
    assert_eq!(semaphore.count(), 1);

    let mut full = IpcSemaphore::new(255, 255);
    full.release();
    assert_eq!(full.count(), 255);
    let mut none = IpcSemaphore::new(0, 0);
    none.release();
    assert_eq!(none.count(), 0);
    assert!(!none.try_acquire());
}

#[test]
fn sensor_generator_and_state() {
    let (seed, reading) = simulate_sensor_read(12345);
    assert_eq!(seed, 12345u32.wrapping_mul(1103515245).wrapping_add(12345));
    assert_eq!(seed, 3554416254);
    assert_eq!(reading, 54236);
    let (next, reading) = simulate_sensor_read(seed);
    assert_eq!(next, 2802067423);
    assert_eq!(reading, 42756);
    assert_eq!(simulate_sensor_read(0), (12345, 0));

    let mut state = SensorState::new();
    assert_eq!(state.get_sensor_value(), 0);
    assert_eq!(state.get_sample_count(), 0);
    assert!(state.record(7));
    assert_eq!(state.get_sensor_value(), 7);
    assert_eq!(state.get_sample_count(), 1);
    for i in 1..10000u32 {
        assert!(!state.record(i));
    }
    assert!(state.record(10000));
    assert_eq!(state.get_sample_count(), 10001);
    assert_eq!(state.get_sensor_value(), 10000);
    assert_eq!(jitter(130, 100), 30);
    assert_eq!(jitter(70, 100), 30);
    assert_eq!(jitter(100, 100), 0);
}

#[test]
fn fast_bit_helpers() {
    let mut value = 0u32;
    fast_bit_set(&mut value, 0);
    fast_bit_set(&mut value, 31);
    assert_eq!(value, 0x8000_0001);
    assert!(fast_bit_test(value, 31));
    assert!(!fast_bit_test(value, 30));
    fast_bit_clear(&mut value, 31);
    assert_eq!(value, 1);
    fast_bit_clear(&mut value, 5);
    assert_eq!(value, 1);
}

#[test]
fn filter_and_indicator() {
    assert_eq!(process_sensor_data(0, 800), 100);
    assert_eq!(process_sensor_data(100, 800), 188);
    assert_eq!(process_sensor_data(8, 7), 7);
    assert_eq!(process_sensor_data(u32::MAX, 0), u32::MAX - u32::MAX / 8);

    let mut led = LedState::new();
    assert!(led.step(LedEvent::Tick));
    assert!(!led.step(LedEvent::Tick));
    assert!(led.step(set_led(true)));
    assert!(led.step(led_on()));
    assert!(!led.step(LedEvent::Tick));
    assert!(!led.step(led_off()));
    assert_eq!(led_on(), LedEvent::Force(true));
    assert_eq!(led_off(), LedEvent::Force(false));
}
