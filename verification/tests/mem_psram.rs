use rustrtos::mem::psram::{
    alloc_array, alloc_array_with_config, init, psram_alloc_raw, stats, CacheMode, PsramAllocator,
    PsramBox, PsramConfig, PsramError,
};

#[test]
fn test_cache_mode_default() {
    assert_eq!(CacheMode::default(), CacheMode::Auto);
}

#[test]
fn test_psram_config_default() {
    let config = PsramConfig::default();
    assert_eq!(config.cache_mode, CacheMode::Auto);
    assert!(!config.realtime);
    assert_eq!(config.alignment, 32);
}

#[test]
fn psram_config_presets() {
    let rt = PsramConfig::realtime();
    assert_eq!((rt.cache_mode, rt.realtime, rt.alignment), (CacheMode::Cached, true, 32));
    let bulk = PsramConfig::bulk_transfer();
    assert_eq!((bulk.cache_mode, bulk.realtime, bulk.alignment), (CacheMode::Direct, false, 32));
    let custom = PsramConfig::default().with_cache_mode(CacheMode::Direct).with_alignment(64);
    assert_eq!((custom.cache_mode, custom.realtime, custom.alignment), (CacheMode::Direct, false, 64));
}

#[test]
fn psram_init_is_idempotent() {
    let mut region = PsramAllocator::new();
    assert!(!region.is_initialized());
    let info = init(&mut region, 0x3C00_0000, 8 * 1024 * 1024).unwrap();
    assert_eq!((info.base, info.size), (0x3C00_0000, 8 * 1024 * 1024));
    assert!(region.is_initialized());
    assert_eq!(psram_alloc_raw(&mut region, 100, 4), Ok(0x3C00_0000));
    let again = init(&mut region, 0x1000, 16).unwrap();
    assert_eq!((again.base, again.size), (0x3C00_0000, 8 * 1024 * 1024));
    let s = stats(&region);
    assert_eq!((s.total, s.used, s.free), (8 * 1024 * 1024, 100, 8 * 1024 * 1024 - 100));
}

#[test]
fn psram_allocation_errors() {
    let mut region = PsramAllocator::new();
    assert_eq!(psram_alloc_raw(&mut region, 0, 4), Err(PsramError::ZeroSize));
    assert_eq!(psram_alloc_raw(&mut region, 16, 4), Err(PsramError::NotInitialized));
    init(&mut region, 0x1000, 64).unwrap();
    assert_eq!(psram_alloc_raw(&mut region, 0, 4), Err(PsramError::ZeroSize));
    assert_eq!(psram_alloc_raw(&mut region, 65, 1), Err(PsramError::OutOfMemory));
    assert_eq!(psram_alloc_raw(&mut region, usize::MAX, 1), Err(PsramError::OutOfMemory));
    assert_eq!(psram_alloc_raw(&mut region, 1, usize::MAX), Ok(0x1000));
    assert_eq!(psram_alloc_raw(&mut region, 1, usize::MAX), Err(PsramError::OutOfMemory));
    assert_eq!(stats(&region).used, 1);
}

#[test]
fn psram_allocations_do_not_overlap_and_are_aligned() {
    let mut region = PsramAllocator::new();
    init(&mut region, 0x3C00_0000, 1024).unwrap();
    let requests: [(usize, usize); 6] = [(10, 4), (1, 32), (100, 8), (7, 1), (64, 64), (3, 0)];
    let mut ranges: Vec<(usize, usize)> = Vec::new();
    for (size, align) in requests {
        let addr = psram_alloc_raw(&mut region, size, align).unwrap();
        if align > 0 {
            assert_eq!((addr - 0x3C00_0000) % align, 0);
        }
        assert!(addr >= 0x3C00_0000);
        assert!(addr + size <= 0x3C00_0000 + 1024);
        ranges.push((addr, addr + size));
    }
    for i in 0..ranges.len() {
        for j in (i + 1)..ranges.len() {
            assert!(ranges[i].1 <= ranges[j].0);
        }
    }
    assert_eq!(ranges[0], (0x3C00_0000, 0x3C00_000A));
    assert_eq!(ranges[1].0, 0x3C00_0020);
    assert_eq!(ranges[2].0, 0x3C00_0028);
    assert_eq!(ranges[3].0, 0x3C00_008C);
    assert_eq!(ranges[4].0, 0x3C00_00C0);
    assert_eq!(ranges[5].0, 0x3C00_0100);
    let used = stats(&region).used;
    assert_eq!(used, 0x103);
    assert_eq!(psram_alloc_raw(&mut region, 1024 - used + 1, 1), Err(PsramError::OutOfMemory));
    assert_eq!(stats(&region).used, used);
    assert_eq!(psram_alloc_raw(&mut region, 1024 - used, 1), Ok(0x3C00_0103));
    assert_eq!(stats(&region).free, 0);
    assert_eq!(psram_alloc_raw(&mut region, 1, 1), Err(PsramError::OutOfMemory));
}

#[test]
fn psram_alignment_that_is_no_power_of_two() {
    let mut region = PsramAllocator::new();
    init(&mut region, 0, 100).unwrap();
    assert_eq!(psram_alloc_raw(&mut region, 5, 3), Ok(0));
    assert_eq!(psram_alloc_raw(&mut region, 5, 3), Ok(6));
    assert_eq!(psram_alloc_raw(&mut region, 1, 10), Ok(20));
    assert_eq!(stats(&region).used, 21);
}

#[test]
fn psram_box_holds_value_and_address() {
    let mut region = PsramAllocator::new();
    assert!(matches!(PsramBox::new(&mut region, 5u64), Err(PsramError::NotInitialized)));
    init(&mut region, 0x3C00_0000, 4096).unwrap();
    psram_alloc_raw(&mut region, 3, 1).unwrap();
    let mut boxed = PsramBox::new(&mut region, 0x1122_3344u32).unwrap();
    assert_eq!(boxed.as_ptr(), 0x3C00_0020);
    assert_eq!(boxed.as_mut_ptr(), 0x3C00_0020);
    assert_eq!(*boxed.get(), 0x1122_3344);
    *boxed.get_mut() += 1;
    assert_eq!(*boxed.get(), 0x1122_3345);
    assert_eq!(boxed.config().alignment, 32);
    assert!(boxed.is_in_psram(&region));
    assert_eq!(stats(&region).used, 0x24);

    let wide = PsramBox::new_with_config(&mut region, 1u8, PsramConfig::default().with_alignment(1))
        .unwrap();
    assert_eq!(wide.as_ptr(), 0x3C00_0024);
    assert_eq!(wide.config().alignment, 1);
    let natural =
        PsramBox::new_with_config(&mut region, 1u64, PsramConfig::default().with_alignment(1))
            .unwrap();
    assert_eq!(natural.as_ptr(), 0x3C00_0028);
    assert!(matches!(PsramBox::new(&mut region, ()), Err(PsramError::ZeroSize)));

    let other = PsramAllocator::new();
    assert!(!boxed.is_in_psram(&other));
}

#[test]
fn psram_box_uninit_and_arrays() {
    let mut region = PsramAllocator::new();
    init(&mut region, 0x1000, 4096).unwrap();
    let mut slot = PsramBox::<u16>::new_uninit(&mut region).unwrap();
    assert_eq!(slot.as_ptr(), 0x1000);
    assert!(slot.get().is_none());
    *slot.get_mut() = Some(77);
    let ready = slot.assume_init();
    assert_eq!(*ready.get(), 77);
    assert_eq!(ready.as_ptr(), 0x1000);
    assert_eq!(stats(&region).used, 2);

    let array = alloc_array::<u32, 8>(&mut region).unwrap();
    assert_eq!(array.as_ptr(), 0x1020);
    assert_eq!(*array.get(), [0u32; 8]);
    assert_eq!(stats(&region).used, 0x40);
    let tight =
        alloc_array_with_config::<u8, 3>(&mut region, PsramConfig::bulk_transfer().with_alignment(2))
            .unwrap();
    assert_eq!(tight.as_ptr(), 0x1040);
    assert_eq!(tight.config().cache_mode, CacheMode::Direct);
    assert!(matches!(alloc_array::<u32, 0>(&mut region), Err(PsramError::ZeroSize)));
    assert!(matches!(alloc_array::<u64, 4096>(&mut region), Err(PsramError::OutOfMemory)));
    let uninit = PsramBox::<u8>::new_uninit_with_config(&mut region, PsramConfig::realtime()).unwrap();
    assert_eq!(uninit.as_ptr(), 0x1060);
    assert!(uninit.config().realtime);
    // Elements that are cloned, not copied.
    let texts = alloc_array::<String, 2>(&mut region).unwrap();
    assert_eq!(*texts.get(), [String::new(), String::new()]);
}

#[test]
fn allocation_takes_the_wider_alignment() {
    assert_eq!(rustrtos::mem::psram::wider_alignment(32, 8), 32);
    assert_eq!(rustrtos::mem::psram::wider_alignment(4, 8), 8);
    assert_eq!(rustrtos::mem::psram::wider_alignment(8, 8), 8);
    assert_eq!(rustrtos::mem::psram::wider_alignment(0, 1), 1);
}
