use wgimage::{compute_work_group_count, padded_bytes_per_row, COPY_BYTES_PER_ROW_ALIGNMENT};

#[test]
fn full_hd_in_sixteen_by_sixteen_tiles() {
    assert_eq!(compute_work_group_count((1920, 1080), (16, 16)), (120, 68));
}

#[test]
fn exact_multiples_take_no_extra_tile() {
    assert_eq!(compute_work_group_count((256, 128), (128, 1)), (2, 128));
    assert_eq!(compute_work_group_count((256, 128), (1, 128)), (256, 1));
    assert_eq!(compute_work_group_count((16, 16), (16, 16)), (1, 1));
}

#[test]
fn partial_tiles_round_up() {
    assert_eq!(compute_work_group_count((1, 1), (16, 16)), (1, 1));
    assert_eq!(compute_work_group_count((17, 33), (16, 16)), (2, 3));
    assert_eq!(compute_work_group_count((129, 5), (128, 1)), (2, 5));
}

#[test]
fn empty_image_takes_no_workgroup() {
    assert_eq!(compute_work_group_count((0, 0), (16, 16)), (0, 0));
    assert_eq!(compute_work_group_count((0, 7), (128, 1)), (0, 7));
}

#[test]
fn largest_image_does_not_overflow() {
    assert_eq!(
        compute_work_group_count((u32::MAX, u32::MAX), (16, 1)),
        (268_435_456, u32::MAX)
    );
    assert_eq!(
        compute_work_group_count((u32::MAX, u32::MAX), (u32::MAX, 2)),
        (1, 2_147_483_648)
    );
}

#[test]
fn work_group_count_is_a_tight_ceiling() {
    let sizes = [0u32, 1, 15, 16, 17, 127, 128, 129, 1000, 1920, 4096, 65_535];
    let tiles = [1u32, 2, 16, 128, 1000];
    for &w in sizes.iter() {
        for &h in sizes.iter() {
            for &gw in tiles.iter() {
                for &gh in tiles.iter() {
                    let (nx, ny) = compute_work_group_count((w, h), (gw, gh));
                    assert!(nx as u64 * gw as u64 >= w as u64);
                    assert!(ny as u64 * gh as u64 >= h as u64);
                    assert!((nx as i64 - 1) * (gw as i64) < w as i64);
                    assert!((ny as i64 - 1) * (gh as i64) < h as i64);
                }
            }
        }
    }
}

#[test]
fn padded_rows_are_rounded_up_to_the_alignment() {
    assert_eq!(COPY_BYTES_PER_ROW_ALIGNMENT, 256);
    assert_eq!(padded_bytes_per_row(0), 0);
    assert_eq!(padded_bytes_per_row(1), 256);
    assert_eq!(padded_bytes_per_row(63), 256);
    assert_eq!(padded_bytes_per_row(64), 256);
    assert_eq!(padded_bytes_per_row(65), 512);
    assert_eq!(padded_bytes_per_row(255), 1024);
    assert_eq!(padded_bytes_per_row(256), 1024);
    assert_eq!(padded_bytes_per_row(257), 1280);
    assert_eq!(padded_bytes_per_row(1920), 7680);
}

#[test]
fn padded_row_is_the_least_aligned_size_that_holds_the_row() {
    for width in 0u32..2000 {
        let padded = padded_bytes_per_row(width);
        let unpadded = width as usize * 4;
        assert_eq!(padded % 256, 0);
        assert!(padded >= unpadded);
        assert!(padded < unpadded + 256);
    }
}
