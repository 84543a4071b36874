use rusty_mapper::readback::{padded_bytes_per_row, strip_row_padding, ReadbackPool};

#[test]
fn padded_rows_are_256_aligned() {
    assert_eq!(padded_bytes_per_row(1), 256);
    assert_eq!(padded_bytes_per_row(64), 256);
    assert_eq!(padded_bytes_per_row(65), 512);
    assert_eq!(padded_bytes_per_row(1920), 7680);
    assert_eq!(padded_bytes_per_row(0), 0);
}

#[test]
fn strip_removes_padding() {
    // width 2 -> 8 tight bytes per row, 256 padded bytes per row
    let mut padded = vec![0u8; 256 * 3];
    for r in 0..3 {
        for c in 0..8 {
            padded[r * 256 + c] = (r * 10 + c) as u8;
        }
    }
    let out = strip_row_padding(&padded, 2, 3);
    assert_eq!(out.len(), 24);
    for r in 0..3 {
        for c in 0..8 {
            assert_eq!(out[r * 8 + c], (r * 10 + c) as u8);
        }
    }
}

#[test]
fn strip_skips_rows_past_the_buffer() {
    let padded = vec![7u8; 256 + 8];
    let out = strip_row_padding(&padded, 2, 3);
    assert_eq!(out, vec![7u8; 16]);
    assert!(strip_row_padding(&[], 4, 2).is_empty());
}

#[test]
fn wide_rows_need_no_padding() {
    let padded: Vec<u8> = (0..=255u8).chain(0..=255u8).collect();
    assert_eq!(strip_row_padding(&padded, 64, 2), padded);
}

#[test]
fn pool_round_trip() {
    let mut pool = ReadbackPool::new();
    assert_eq!(pool.harvest_candidate(), None);
    assert_eq!(pool.harvest_previous(true), None);

    let plan = pool.submit_copy(1920, 1080);
    assert_eq!(plan.slot, 0);
    assert!(plan.recreate_buffer);
    assert_eq!(plan.padded_bytes_per_row, 7680);
    assert_eq!(plan.buffer_size, 7680 * 1080);

    assert_eq!(pool.harvest_candidate(), Some(0));
    assert_eq!(pool.harvest_previous(false), None);
    assert_eq!(pool.harvest_previous(true), Some((0, 1920, 1080)));
    assert_eq!(pool.harvest_previous(true), None);

    let plan = pool.submit_copy(640, 480);
    assert_eq!(plan.slot, 1);
    assert!(plan.recreate_buffer);
    assert_eq!(pool.harvest_previous(true), Some((1, 640, 480)));

    // slot 0 is available and large enough: reused
    let plan = pool.submit_copy(640, 480);
    assert_eq!(plan.slot, 0);
    assert!(!plan.recreate_buffer);
    assert_eq!(pool.harvest_previous(true), Some((0, 640, 480)));
}

#[test]
fn pending_slot_gets_a_new_buffer() {
    let mut pool = ReadbackPool::new();
    pool.submit_copy(16, 16);
    pool.submit_copy(16, 16);
    // slot 0 was never harvested: still pending
    let plan = pool.submit_copy(16, 16);
    assert_eq!(plan.slot, 0);
    assert!(plan.recreate_buffer);
}

#[test]
fn larger_copy_gets_a_new_buffer() {
    let mut pool = ReadbackPool::new();
    pool.submit_copy(16, 16);
    pool.harvest_previous(true);
    pool.submit_copy(16, 16);
    pool.harvest_previous(true);
    let plan = pool.submit_copy(16, 17);
    assert_eq!(plan.slot, 0);
    assert!(plan.recreate_buffer);
    assert_eq!(plan.buffer_size, 256 * 17);
}
