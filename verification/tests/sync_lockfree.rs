use rustrtos::mem::bitmap::{claim_lowest, release_bit};
use rustrtos::mem::pool::PoolError;
use rustrtos::mem::psram::{bump_step, PsramError};
use rustrtos::sync::lockfree::{
    advanced_cursor, claimed_index, placed, LockFreeBitmap, LockFreeCounter, LockFreeRegion,
    LockFreeSemaphore, LockFreeSignal,
};
use rustrtos::tasks::multicore::{acquire_step, release_step};

#[test]
fn step_functions() {
    assert_eq!(claim_lowest(0), Some((0, 1)));
    assert_eq!(claim_lowest(0b0111), Some((3, 0b1111)));
    assert_eq!(claim_lowest(0b1011), Some((2, 0b1111)));
    assert_eq!(claim_lowest(u64::MAX >> 1), Some((63, u64::MAX)));
    assert_eq!(claim_lowest(u64::MAX), None);
    assert_eq!(release_bit(0b1010, 1), Some(0b1000));
    assert_eq!(release_bit(0b1010, 0), None);
    assert_eq!(release_bit(u64::MAX, 63), Some(u64::MAX >> 1));
    assert_eq!(acquire_step(0), None);
    assert_eq!(acquire_step(1), Some(0));
    assert_eq!(acquire_step(255), Some(254));
    assert_eq!(release_step(0, 0), None);
    assert_eq!(release_step(2, 3), Some(3));
    assert_eq!(release_step(3, 3), None);
    assert_eq!(release_step(200, 3), None);
    assert_eq!(bump_step(0, 100, 10, 4), Some((0, 10)));
    assert_eq!(bump_step(10, 100, 10, 4), Some((12, 22)));
    assert_eq!(bump_step(10, 100, 10, 0), Some((10, 20)));
    assert_eq!(bump_step(10, 100, 90, 1), Some((10, 100)));
    assert_eq!(bump_step(10, 100, 91, 1), None);
    assert_eq!(bump_step(97, 100, 1, 32), None);
    assert_eq!(bump_step(usize::MAX, usize::MAX, 1, 2), None);
    assert_eq!(bump_step(usize::MAX - 1, usize::MAX, 2, 1), None);
}

#[test]
fn lock_free_bitmap_alone_is_first_fit() {
    let bitmap = LockFreeBitmap::<2>::new();
    assert_eq!(bitmap.capacity(), 128);
    assert_eq!(bitmap.count(), 0);
    for expected in 0..128usize {
        assert_eq!(bitmap.allocate(), Some(expected));
    }
    assert_eq!(bitmap.allocate(), None);
    assert_eq!(bitmap.count(), 128);
    assert_eq!(bitmap.free(70), Ok(()));
    assert_eq!(bitmap.free(3), Ok(()));
    assert_eq!(bitmap.free(3), Err(PoolError::DoubleFree));
    assert_eq!(bitmap.count(), 126);
    assert_eq!(bitmap.free(128), Err(PoolError::InvalidSlot));
    assert!(!bitmap.is_allocated(3));
    assert!(bitmap.is_allocated(4));
    assert!(!bitmap.is_allocated(128));
    assert_eq!(bitmap.allocate(), Some(3));
    assert_eq!(bitmap.allocate(), Some(70));
    assert_eq!(bitmap.allocate(), None);
}

#[test]
fn lock_free_semaphore_stays_within_bounds() {
    let semaphore = LockFreeSemaphore::new(0, 3);
    assert_eq!(semaphore.max(), 3);
    assert!(!semaphore.try_acquire());
    for _ in 0..8 {
        semaphore.release();
        assert!(semaphore.count() <= 3);
    }
    assert_eq!(semaphore.count(), 3);
    assert!(semaphore.try_acquire());
    assert!(semaphore.try_acquire());
    assert!(semaphore.try_acquire());
    assert!(!semaphore.try_acquire());
    assert_eq!(semaphore.count(), 0);
}

#[test]
fn lock_free_signal_and_counter() {
    let signal = LockFreeSignal::new();
    assert!(!signal.is_signaled());
    assert!(!signal.check_and_clear());
    signal.signal();
    signal.signal();
    assert!(signal.is_signaled());
    assert!(signal.check_and_clear());
    assert!(!signal.check_and_clear());
    signal.signal();
    signal.clear();
    assert!(!signal.is_signaled());

    let counter = LockFreeCounter::with_value(0);
    assert_eq!(counter.increment(), 1);
    assert_eq!(counter.add(41), 42);
    assert_eq!(counter.get(), 42);
    counter.reset();
    assert_eq!(counter.get(), 0);
    let high = LockFreeCounter::with_value(u64::MAX);
    assert_eq!(high.increment(), 0);
    assert_eq!(high.add(u64::MAX), u64::MAX);
}

#[test]
fn lock_free_region_bumps_the_cursor() {
    let region = LockFreeRegion::new();
    assert_eq!(region.allocate(0, 4), Err(PsramError::ZeroSize));
    assert_eq!(region.allocate(8, 4), Err(PsramError::NotInitialized));
    let info = region.init(0x3C00_0000, 256).unwrap();
    assert_eq!((info.base, info.size), (0x3C00_0000, 256));
    let again = region.init(0, 16).unwrap();
    assert_eq!((again.base, again.size), (0x3C00_0000, 256));
    assert_eq!(region.allocate(10, 4), Ok(0x3C00_0000));
    assert_eq!(region.allocate(1, 32), Ok(0x3C00_0020));
    assert_eq!(region.allocate(7, 0), Ok(0x3C00_0021));
    assert_eq!(region.allocate(300, 1), Err(PsramError::OutOfMemory));
    let stats = region.stats();
    assert_eq!((stats.total, stats.used, stats.free), (256, 0x28, 256 - 0x28));
    assert_eq!(region.allocate(256 - 0x28, 1), Ok(0x3C00_0028));
    assert_eq!(region.allocate(1, 1), Err(PsramError::OutOfMemory));
    assert_eq!(region.stats().free, 0);
}

#[test]
fn claimed_index_counts_from_the_first_word() {
    assert_eq!(claimed_index(0, 0), Some(0));
    assert_eq!(claimed_index(0, 0b0111), Some(3));
    assert_eq!(claimed_index(1, 0), Some(64));
    assert_eq!(claimed_index(2, 0b1011), Some(130));
    assert_eq!(claimed_index(3, u64::MAX >> 1), Some(255));
    assert_eq!(claimed_index(3, u64::MAX), None);
}

#[test]
fn placed_rounds_the_cursor_up() {
    assert_eq!(placed(0x3C00_0000, 0, 256, 10, 4), Ok(0x3C00_0000));
    assert_eq!(placed(0x3C00_0000, 10, 256, 1, 32), Ok(0x3C00_0020));
    assert_eq!(placed(0x3C00_0000, 33, 256, 7, 0), Ok(0x3C00_0021));
    assert_eq!(placed(0x3C00_0000, 10, 256, 246, 1), Ok(0x3C00_000A));
    assert_eq!(placed(0x3C00_0000, 10, 256, 247, 1), Err(PsramError::OutOfMemory));
    assert_eq!(placed(0x3C00_0000, 250, 256, 1, 32), Err(PsramError::OutOfMemory));
    assert_eq!(placed(usize::MAX - 4, 4, 256, 1, 1), Ok(usize::MAX));
    assert_eq!(placed(usize::MAX - 4, 5, 256, 1, 1), Err(PsramError::OutOfMemory));
    assert_eq!(advanced_cursor(0x3C00_0000, 10, 256, 1, 32), Some(33));
    assert_eq!(advanced_cursor(0x3C00_0000, 10, 256, 247, 1), None);
    assert_eq!(advanced_cursor(usize::MAX - 4, 4, 256, 1, 1), Some(5));
    assert_eq!(advanced_cursor(usize::MAX - 4, 5, 256, 1, 1), None);
}

#[test]
fn lock_free_region_keeps_its_cursor_when_the_address_overflows() {
    let region = LockFreeRegion::new();
    region.init(usize::MAX - 7, 64).unwrap();
    assert_eq!(region.allocate(8, 1), Ok(usize::MAX - 7));
    assert_eq!(region.stats().used, 8);
    assert_eq!(region.allocate(1, 1), Err(PsramError::OutOfMemory));
    assert_eq!(region.stats().used, 8);
}
