use rustrtos::mem::dma::{
    aligned_size, is_dma_capable_address, is_dma_safe, DmaBuffer, DmaBufferBuilder, DmaDescriptor,
    DmaState, DmaStrategy, AUTO_PSRAM_THRESHOLD, DMA_ALIGNMENT,
};
use rustrtos::mem::psram::cache::{flush, flush_and_invalidate, invalidate, CacheMaintenance};

#[test]
fn test_dma_strategy_default() {
    assert_eq!(DmaStrategy::default(), DmaStrategy::Auto);
}

#[test]
fn test_aligned_size() {
    assert_eq!(aligned_size(100, 32), 128);
    assert_eq!(aligned_size(32, 32), 32);
    assert_eq!(aligned_size(1, 32), 32);
}

#[test]
fn test_dma_buffer_size() {
    let buf = DmaBuffer::<1024>::new_auto();
    assert_eq!(buf.size(), 1024);
    assert_eq!(buf.alignment(), 32);
}

#[test]
fn aligned_size_edges() {
    assert_eq!(aligned_size(0, 32), 0);
    assert_eq!(aligned_size(0, 1), 0);
    assert_eq!(aligned_size(17, 1), 17);
    assert_eq!(aligned_size(33, 32), 64);
    assert_eq!(aligned_size(4095, 4096), 4096);
    assert_eq!(aligned_size(usize::MAX, 1), usize::MAX);
    assert_eq!(aligned_size(usize::MAX - 7, 8), usize::MAX - 7);
    assert_eq!(DMA_ALIGNMENT, 32);
}

#[test]
fn dma_state_machine_write_cycle() {
    let mut buf = DmaBuffer::<64>::new(DmaStrategy::ForceDram);
    assert_eq!(buf.state(), DmaState::Idle);
    assert!(!buf.is_dma_active());
    assert!(buf.try_as_slice().is_some());

    assert_eq!(buf.prepare_for_dma_write(), CacheMaintenance::Invalidate);
    assert_eq!(buf.state(), DmaState::DmaWriting);
    assert!(buf.is_dma_active());
    assert!(buf.try_as_slice().is_none());

    assert_eq!(buf.complete_dma_write(), CacheMaintenance::Invalidate);
    assert_eq!(buf.state(), DmaState::Idle);
    assert!(!buf.is_dma_active());
    assert_eq!(buf.try_as_slice().map(|s| s.len()), Some(64));
    assert_eq!(buf.as_slice().len(), 64);
}

#[test]
fn dma_state_machine_read_cycle() {
    let mut buf = DmaBuffer::<16>::new_auto();
    buf.fill(0xAB);
    assert_eq!(buf.prepare_for_dma_read(), CacheMaintenance::Flush);
    assert_eq!(buf.state(), DmaState::DmaReading);
    assert!(buf.is_dma_active());
    assert!(buf.try_as_slice().is_none());
    buf.complete_dma_read();
    assert_eq!(buf.state(), DmaState::Idle);
    assert_eq!(buf.as_slice(), &[0xAB; 16]);
}

#[test]
fn dma_buffer_contents() {
    let mut buf = DmaBuffer::<8>::new(DmaStrategy::Auto);
    assert_eq!(buf.as_slice(), &[0u8; 8]);
    buf.copy_from_slice(&[1, 2, 3]);
    assert_eq!(buf.as_slice(), &[1, 2, 3, 0, 0, 0, 0, 0]);
    buf.copy_from_slice(&[9, 8, 7, 6, 5, 4, 3, 2, 1, 0]);
    assert_eq!(buf.as_slice(), &[9, 8, 7, 6, 5, 4, 3, 2]);
    buf.as_mut_slice()[7] = 42;
    let mut short = [0u8; 3];
    buf.copy_to_slice(&mut short);
    assert_eq!(short, [9, 8, 7]);
    let mut long = [0xEEu8; 10];
    buf.copy_to_slice(&mut long);
    assert_eq!(long, [9, 8, 7, 6, 5, 4, 3, 42, 0xEE, 0xEE]);
    buf.fill(5);
    assert_eq!(buf.as_slice(), &[5u8; 8]);
}

#[test]
fn dma_strategy_is_resolved_by_size() {
    assert_eq!(AUTO_PSRAM_THRESHOLD, 4096);
    assert_eq!(DmaBuffer::<4095>::new_auto().resolved_strategy(), DmaStrategy::ForceDram);
    assert_eq!(DmaBuffer::<4096>::new_auto().resolved_strategy(), DmaStrategy::ForcePsramBounce);
    assert_eq!(
        DmaBuffer::<8192>::new(DmaStrategy::ForceDram).resolved_strategy(),
        DmaStrategy::ForceDram
    );
    assert_eq!(
        DmaBuffer::<16>::new(DmaStrategy::ForcePsramBounce).resolved_strategy(),
        DmaStrategy::ForcePsramBounce
    );
    assert_eq!(DmaBuffer::<16>::new(DmaStrategy::ForceDram).strategy(), DmaStrategy::ForceDram);
}

#[test]
fn dma_builder() {
    let plain = DmaBufferBuilder::<4>::new().build();
    assert_eq!(plain.strategy(), DmaStrategy::Auto);
    assert_eq!(plain.as_slice(), &[0u8; 4]);
    let filled = DmaBufferBuilder::<4>::new()
        .with_strategy(DmaStrategy::ForcePsramBounce)
        .with_prefill(0x5A)
        .build();
    assert_eq!(filled.strategy(), DmaStrategy::ForcePsramBounce);
    assert_eq!(filled.as_slice(), &[0x5A; 4]);
    assert_eq!(filled.state(), DmaState::Idle);
}

#[test]
fn dma_descriptor_fields_and_flags() {
    let mut d = DmaDescriptor::new();
    assert_eq!((d.next, d.buffer, d.size, d.length, d.flags), (0, 0, 0, 0, 0));
    assert!(d.is_complete());
    d.set_buffer(0x3FC8_8000, 512);
    assert_eq!(d.buffer, 0x3FC8_8000);
    assert_eq!(d.size, 512);
    assert_eq!(d.length, 512);
    d.set_buffer(0x1_0000_0004, 0x1_0010);
    assert_eq!(d.buffer, 4);
    assert_eq!(d.size, 0x10);
    d.link_to(0x3FC8_9000);
    assert_eq!(d.next, 0x3FC8_9000);
    d.set_eof();
    assert_eq!(d.flags, 1 << 30);
    assert!(d.is_complete());
    d.set_owner_dma();
    assert_eq!(d.flags, (1 << 30) | (1 << 31));
    assert!(!d.is_complete());
}

#[test]
fn dma_address_checks() {
    assert!(is_dma_capable_address(0x3FC8_8000));
    assert!(is_dma_capable_address(0x3FCF_FFFF));
    assert!(!is_dma_capable_address(0x3FC8_7FFF));
    assert!(!is_dma_capable_address(0x3FD0_0000));
    assert!(is_dma_safe(0x3FC8_8000, 16));
    assert!(!is_dma_safe(0x3FC8_8001, 16));
    assert!(!is_dma_safe(0x3FCF_FFF0, 17));
    assert!(is_dma_safe(0x3FCF_FFF0, 16));
    assert!(!is_dma_safe(0x3C00_0000, 16));
    assert!(!is_dma_safe(0x3FC8_8000, usize::MAX));
}

#[test]
fn cache_plans_cover_whole_lines() {
    let plan = flush(0x3C00_0000, 100);
    assert_eq!(plan.op, CacheMaintenance::Flush);
    assert_eq!(plan.start, 0x3C00_0000);
    assert_eq!(plan.lines, 4);
    assert_eq!(plan.line_address(0), Some(0x3C00_0000));
    assert_eq!(plan.line_address(3), Some(0x3C00_0060));
    assert_eq!(plan.line_address(4), None);
    let plan = invalidate(64, 64);
    assert_eq!(plan.op, CacheMaintenance::Invalidate);
    assert_eq!(plan.lines, 2);
    assert_eq!(invalidate(0, 0).lines, 0);
    assert_eq!(invalidate(0, 1).lines, 1);
    let (first, second) = flush_and_invalidate(32, 33);
    assert_eq!((first.op, first.lines), (CacheMaintenance::Flush, 2));
    assert_eq!((second.op, second.lines), (CacheMaintenance::Invalidate, 2));
    assert_eq!(flush(usize::MAX - 10, 64).line_address(1), None);
}
