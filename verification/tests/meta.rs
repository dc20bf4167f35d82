use blockalloc::BlockMeta;
use blockalloc::LINE_COUNT;

#[test]
fn fresh_meta_is_fully_unmarked() {
    let meta = BlockMeta::new();
    for i in 0..LINE_COUNT {
        assert!(!meta.is_marked(i));
    }
}

#[test]
fn mark_one_line_leaves_the_rest() {
    let mut meta = BlockMeta::new();
    meta.mark_line(10);
    for i in 0..LINE_COUNT {
        assert_eq!(meta.is_marked(i), i == 10);
    }
}

#[test]
fn marks_accumulate_within_and_across_bytes() {
    let mut meta = BlockMeta::new();
    // Two lines in the same bitmap byte, and two in others.
    meta.mark_line(8);
    meta.mark_line(9);
    meta.mark_line(0);
    meta.mark_line(255);
    for i in 0..LINE_COUNT {
        let expected = i == 8 || i == 9 || i == 0 || i == 255;
        assert_eq!(meta.is_marked(i), expected);
    }
}

#[test]
fn marking_twice_is_harmless() {
    let mut meta = BlockMeta::new();
    meta.mark_line(37);
    meta.mark_line(37);
    for i in 0..LINE_COUNT {
        assert_eq!(meta.is_marked(i), i == 37);
    }
}

#[test]
fn clear_all_resets_every_line() {
    let mut meta = BlockMeta::new();
    for i in 0..LINE_COUNT {
        meta.mark_line(i);
    }
    for i in 0..LINE_COUNT {
        assert!(meta.is_marked(i));
    }
    meta.clear_all();
    for i in 0..LINE_COUNT {
        assert!(!meta.is_marked(i));
    }
}
