use blog_core::error::StorageError;
use blog_core::paging::{page_offset, total_pages, total_pages_of_count};

#[test]
fn total_pages_rounds_up() {
    assert_eq!(total_pages(0, 10), 0);
    assert_eq!(total_pages(1, 10), 1);
    assert_eq!(total_pages(10, 10), 1);
    assert_eq!(total_pages(11, 10), 2);
    assert_eq!(total_pages(25, 10), 3);
    assert_eq!(total_pages(usize::MAX, 1), usize::MAX);
    assert_eq!(total_pages(usize::MAX, usize::MAX), 1);
}

#[test]
fn total_pages_matches_div_ceil() {
    for total in 0usize..200 {
        for size in 1usize..15 {
            assert_eq!(total_pages(total, size), total.div_ceil(size));
        }
    }
}

#[test]
fn total_pages_of_count_handles_signed_counts() {
    assert_eq!(total_pages_of_count(0, 10), Ok(0));
    assert_eq!(total_pages_of_count(95, 10), Ok(10));
    assert_eq!(total_pages_of_count(100, 10), Ok(10));
    assert_eq!(total_pages_of_count(101, 10), Ok(11));
    assert_eq!(total_pages_of_count(-5, 10), Ok(0));
    assert!(matches!(
        total_pages_of_count(-10, 10),
        Err(StorageError::QueryFailed(_))
    ));
    assert!(matches!(
        total_pages_of_count(i64::MIN, 10),
        Err(StorageError::QueryFailed(_))
    ));
    assert_eq!(
        total_pages_of_count(i64::MAX, 1),
        Ok(i64::MAX as usize)
    );
}

#[test]
fn page_offset_is_one_based() {
    assert_eq!(page_offset(1, 10), 0);
    assert_eq!(page_offset(2, 10), 10);
    assert_eq!(page_offset(7, 25), 150);
    assert_eq!(page_offset(0, 10), 0);
    assert_eq!(page_offset(5, 0), 0);
}

#[test]
fn page_offset_saturates() {
    assert_eq!(page_offset(usize::MAX, usize::MAX), i64::MAX);
    assert_eq!(page_offset(usize::MAX, 10), i64::MAX);
}

#[test]
fn page_beyond_last_starts_after_all_items() {
    for total in 0usize..60 {
        for size in 1usize..8 {
            let pages = total_pages(total, size);
            for page in (pages + 1)..(pages + 4) {
                assert!(page_offset(page, size) as usize >= total);
            }
            if pages > 0 {
                assert!((page_offset(pages, size) as usize) < total);
            }
        }
    }
}
