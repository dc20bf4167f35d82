use blockalloc::BlockError;
use blockalloc::BumpBlock;
use blockalloc::RawBlockSource;
use blockalloc::BLOCK_SIZE;
use blockalloc::LINE_COUNT;

#[test]
fn fresh_bump_block_fills_exactly() {
    // BLOCK_SIZE = 32768; objects of size 100 fit exactly 327 times
    // (327 * 100 = 32700 <= 32768), and the 328th request is refused.
    let mut src = RawBlockSource::new(BLOCK_SIZE);
    let mut bump = BumpBlock::new(&mut src).unwrap();
    for i in 0..327usize {
        let got = bump.allocate(100);
        assert_eq!(got, Some(i * 100));
    }
    assert_eq!(bump.cursor(), 32700);
    assert_eq!(bump.allocate(100), None);
    // Failure is idempotent: the same request fails the same way and the
    // cursor has not moved.
    assert_eq!(bump.allocate(100), None);
    assert_eq!(bump.cursor(), 32700);
    // A smaller object still fits in the remaining 68 bytes.
    assert_eq!(bump.allocate(68), Some(32700));
    assert_eq!(bump.allocate(1), None);
}

#[test]
fn exhaustion_mutates_nothing() {
    let mut src = RawBlockSource::new(BLOCK_SIZE);
    let mut bump = BumpBlock::new(&mut src).unwrap();
    assert_eq!(bump.allocate(BLOCK_SIZE + 1), None);
    assert_eq!(bump.cursor(), 0);
    assert_eq!(bump.limit(), BLOCK_SIZE);
    // The whole block is still available in one grant.
    assert_eq!(bump.allocate(BLOCK_SIZE), Some(0));
    assert_eq!(bump.cursor(), BLOCK_SIZE);
}

#[test]
fn offsets_are_monotonic_and_disjoint() {
    let mut src = RawBlockSource::new(BLOCK_SIZE);
    let mut bump = BumpBlock::new(&mut src).unwrap();
    let mut previous_end: usize = 0;
    loop {
        match bump.allocate(96) {
            Some(start) => {
                assert_eq!(start, previous_end);
                previous_end = start + 96;
                assert!(previous_end <= BLOCK_SIZE);
            }
            None => break,
        }
    }
    assert_eq!(previous_end, (BLOCK_SIZE / 96) * 96);
}

#[test]
fn new_bump_block_propagates_oom() {
    let mut src = RawBlockSource::new(BLOCK_SIZE - 1);
    let r = BumpBlock::new(&mut src);
    assert!(matches!(r, Err(BlockError::OOM)));
    assert_eq!(src.next_addr(), 0);
}

#[test]
fn bump_block_base_is_block_aligned() {
    let mut src = RawBlockSource::new(1 << 20);
    // Disturb the span so the block base must be rounded up.
    let small = blockalloc::Block::new(&mut src, 128).unwrap();
    assert_eq!(small.as_ptr(), 0);
    let bump = BumpBlock::new(&mut src).unwrap();
    assert_eq!(bump.block().as_ptr(), BLOCK_SIZE);
    assert_eq!(bump.block().as_ptr() % BLOCK_SIZE, 0);
}

#[test]
fn reset_region_points_at_a_hole() {
    let mut src = RawBlockSource::new(BLOCK_SIZE);
    let mut bump = BumpBlock::new(&mut src).unwrap();
    assert_eq!(bump.allocate(BLOCK_SIZE), Some(0));
    // The collector found a free hole spanning lines 1 and 2.
    bump.reset_region(128, 384);
    assert_eq!(bump.cursor(), 128);
    assert_eq!(bump.limit(), 384);
    assert_eq!(bump.allocate(200), Some(128));
    assert_eq!(bump.allocate(100), None);
    assert_eq!(bump.allocate(56), Some(328));
    assert_eq!(bump.cursor(), 384);
}

#[test]
fn line_marks_drive_through_bump_block() {
    let mut src = RawBlockSource::new(BLOCK_SIZE);
    let mut bump = BumpBlock::new(&mut src).unwrap();
    for i in 0..LINE_COUNT {
        assert!(!bump.is_line_marked(i));
    }
    bump.mark_line(0);
    bump.mark_line(255);
    assert!(bump.is_line_marked(0));
    assert!(bump.is_line_marked(255));
    for i in 1..255usize {
        assert!(!bump.is_line_marked(i));
    }
    bump.clear_marks();
    for i in 0..LINE_COUNT {
        assert!(!bump.is_line_marked(i));
    }
}

#[test]
fn destroy_consumes_the_pair() {
    let mut src = RawBlockSource::new(BLOCK_SIZE);
    let bump = BumpBlock::new(&mut src).unwrap();
    bump.destroy(&mut src);
    assert_eq!(src.next_addr(), BLOCK_SIZE);
}
