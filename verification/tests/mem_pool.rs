use rustrtos::mem::bitmap::{Bitmap64, BitmapLarge};
use rustrtos::mem::bits::{lowest_clear_bit, test_bit, with_bit_cleared, with_bit_set};
use rustrtos::mem::pool::{Backend, MemoryPool, PoolBox, PoolError};

#[test]
fn test_bitmap64_alloc_free() {
    let mut bitmap = Bitmap64::new();

    let idx0 = bitmap.allocate().unwrap();
    assert_eq!(idx0, 0);

    let idx1 = bitmap.allocate().unwrap();
    assert_eq!(idx1, 1);

    bitmap.free(0).unwrap();

    let idx2 = bitmap.allocate().unwrap();
    assert_eq!(idx2, 0);
}

#[test]
fn test_backend_default() {
    assert_eq!(Backend::default(), Backend::Dram);
}

#[test]
fn bit_helpers_on_single_words() {
    assert_eq!(lowest_clear_bit(0), Some(0));
    assert_eq!(lowest_clear_bit(0b1011), Some(2));
    assert_eq!(lowest_clear_bit(u64::MAX), None);
    assert_eq!(lowest_clear_bit(u64::MAX >> 1), Some(63));
    assert_eq!(with_bit_set(0, 5), 32);
    assert_eq!(with_bit_cleared(0xFF, 0), 0xFE);
    assert!(test_bit(1 << 63, 63));
    assert!(!test_bit(1 << 63, 62));
}

#[test]
fn bitmap64_counts_set_bits() {
    let mut bitmap = Bitmap64::new();
    assert_eq!(bitmap.count(), 0);
    for expected in 0..64usize {
        assert_eq!(bitmap.allocate(), Some(expected));
        assert_eq!(bitmap.count(), expected + 1);
    }
    assert_eq!(bitmap.allocate(), None);
    assert_eq!(bitmap.count(), 64);
    assert!(bitmap.is_allocated(63));
    assert!(!bitmap.is_allocated(64));
}

#[test]
fn bitmap64_double_free_is_reported() {
    let mut bitmap = Bitmap64::new();
    assert_eq!(bitmap.allocate(), Some(0));
    assert_eq!(bitmap.allocate(), Some(1));
    assert_eq!(bitmap.free(1), Ok(()));
    assert_eq!(bitmap.count(), 1);
    assert_eq!(bitmap.free(1), Err(PoolError::DoubleFree));
    assert_eq!(bitmap.count(), 1);
    assert_eq!(bitmap.free(64), Err(PoolError::InvalidSlot));
    assert_eq!(bitmap.count(), 1);
}

#[test]
fn bitmap_large_scans_words_in_order() {
    let mut bitmap = BitmapLarge::<4>::new();
    assert_eq!(bitmap.capacity(), 256);
    for expected in 0..256usize {
        assert_eq!(bitmap.allocate(), Some(expected));
    }
    assert_eq!(bitmap.allocate(), None);
    assert_eq!(bitmap.count(), 256);
    assert_eq!(bitmap.free(130), Ok(()));
    assert_eq!(bitmap.free(65), Ok(()));
    assert_eq!(bitmap.count(), 254);
    assert!(!bitmap.is_allocated(65));
    assert!(bitmap.is_allocated(66));
    assert_eq!(bitmap.allocate(), Some(65));
    assert_eq!(bitmap.allocate(), Some(130));
    assert_eq!(bitmap.allocate(), None);
}

#[test]
fn bitmap_large_double_free_is_reported() {
    let mut bitmap = BitmapLarge::<2>::new();
    assert_eq!(bitmap.free(0), Err(PoolError::DoubleFree));
    assert_eq!(bitmap.free(128), Err(PoolError::InvalidSlot));
    assert_eq!(bitmap.allocate(), Some(0));
    assert_eq!(bitmap.free(0), Ok(()));
    assert_eq!(bitmap.free(0), Err(PoolError::DoubleFree));
    assert_eq!(bitmap.count(), 0);
}

#[test]
fn pool_exhaustion_and_reuse() {
    let mut pool: MemoryPool<u32, 5, 0> = MemoryPool::new();
    assert_eq!(pool.capacity(), 5);
    assert!(pool.is_empty());
    let mut leases: Vec<PoolBox<u32, 5, 0>> = Vec::new();
    for i in 0..5u32 {
        let lease = pool.alloc_init(i * 10).unwrap();
        assert_eq!(lease.index(), i as usize);
        leases.push(lease);
    }
    assert!(pool.is_full());
    assert_eq!(pool.allocated_count(), 5);
    assert_eq!(pool.free_count(), 0);
    assert!(matches!(pool.allocate(), Err(PoolError::PoolFull)));
    assert!(matches!(pool.alloc_init(99), Err(PoolError::PoolFull)));
    assert_eq!(pool.allocated_count(), 5);

    let released = leases.remove(2);
    assert_eq!(pool.get(&released), Some(&20));
    assert_eq!(pool.release(released), Ok(()));
    assert_eq!(pool.allocated_count(), 4);
    assert_eq!(pool.free_count(), 1);

    let again = pool.allocate().unwrap();
    assert_eq!(again.index(), 2);
    assert_eq!(pool.get(&again), None);
    assert!(matches!(pool.allocate(), Err(PoolError::PoolFull)));
}

#[test]
fn pool_values_are_read_and_changed_through_the_lease() {
    let mut pool: MemoryPool<String, 3, 1> = MemoryPool::new();
    assert_eq!(pool.backend(), Backend::PsramCached);
    let lease = pool.alloc_init(String::from("first")).unwrap();
    assert_eq!(lease.backend(), Backend::PsramCached);
    assert_eq!(pool.get(&lease).map(|s| s.as_str()), Some("first"));
    if let Some(value) = pool.get_mut(&lease) {
        value.push_str(" changed");
    }
    assert_eq!(pool.get(&lease).map(|s| s.as_str()), Some("first changed"));
    let previous = pool.write(&lease, String::from("second")).unwrap();
    assert_eq!(previous.as_deref(), Some("first changed"));
    assert_eq!(pool.get(&lease).map(|s| s.as_str()), Some("second"));
    let stats = pool.stats();
    assert_eq!(stats.capacity, 3);
    assert_eq!(stats.allocated, 1);
    assert_eq!(stats.free, 2);
    assert_eq!(stats.backend, Backend::PsramCached);
}

#[test]
fn pool_backend_tags() {
    let dram: MemoryPool<u8, 1, 0> = MemoryPool::new();
    let direct: MemoryPool<u8, 1, 2> = MemoryPool::new();
    let auto: MemoryPool<u8, 1, 3> = MemoryPool::new();
    let other: MemoryPool<u8, 1, 200> = MemoryPool::new();
    assert_eq!(dram.backend(), Backend::Dram);
    assert_eq!(direct.backend(), Backend::PsramDirect);
    assert_eq!(auto.backend(), Backend::Auto);
    assert_eq!(other.backend(), Backend::Auto);
}

#[test]
fn pool_of_256_slots_uses_every_bit() {
    let mut pool: MemoryPool<u16, 256, 0> = MemoryPool::new();
    let mut leases = Vec::new();
    for i in 0..256usize {
        let lease = pool.alloc_init(i as u16).unwrap();
        assert_eq!(lease.index(), i);
        leases.push(lease);
    }
    assert!(pool.is_full());
    assert!(matches!(pool.allocate(), Err(PoolError::PoolFull)));
    let last = leases.pop().unwrap();
    assert_eq!(pool.release(last), Ok(()));
    assert_eq!(pool.allocate().unwrap().index(), 255);
}
