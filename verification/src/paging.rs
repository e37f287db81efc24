//! Paging of ordered listings: page counts, offsets and what a page holds.

use vstd::prelude::*;
use vstd::string::*;
use crate::error::StorageError;

verus! {

/// The least whole number of pages of `page_size` items that hold `total`
/// items: `total / page_size`, rounded up.
pub open spec fn spec_total_pages(total: int, page_size: int) -> int
    recommends
        page_size > 0,
{
    (total + page_size - 1) / page_size
}

/// The number of items that stand before page `page`. Pages count from 1;
/// page 0 starts where page 1 starts.
pub open spec fn spec_page_offset(page: nat, page_size: nat) -> nat {
    if page == 0 {
        0
    } else {
        ((page - 1) * page_size) as nat
    }
}

/// The items of page `page` of the ordered listing `all`: those that follow
/// the first `spec_page_offset` items, up to `page_size` of them.
pub open spec fn spec_page_items<A>(all: Seq<A>, page: nat, page_size: nat) -> Seq<A> {
    let offset = spec_page_offset(page, page_size);
    if offset >= all.len() {
        Seq::empty()
    } else if offset + page_size >= all.len() {
        all.skip(offset as int)
    } else {
        all.subrange(offset as int, (offset + page_size) as int)
    }
}

/// The number of pages of `page_size` items that `total` items fill.
pub fn total_pages(total: usize, page_size: usize) -> (pages: usize)
    requires
        page_size > 0,
    ensures
        pages == spec_total_pages(total as int, page_size as int),
{
    let whole: usize = total / page_size;
    let rest: usize = total % page_size;
    proof {
        lemma_total_pages(total as int, page_size as int);
    }
    if rest == 0 {
        whole
    } else {
        whole + 1
    }
}

/// The page count of a listing whose row count came from the database as a
/// signed number. It fails where the count of pages is no `usize`.
pub fn total_pages_of_count(total: i64, page_size: u32) -> (pages: Result<usize, StorageError>)
    requires
        page_size > 0,
    ensures
        match pages {
            Ok(n) => n == spec_total_pages(total as int, page_size as int),
            Err(e) => e matches StorageError::QueryFailed(detail) && detail@
                == "Total pages exceeds usize range"@,
        },
        pages is Ok <==> 0 <= spec_total_pages(total as int, page_size as int) <= usize::MAX,
{
    proof {
        lemma_total_pages(total as int, page_size as int);
    }
    if total < 0 {
        if total + (page_size as i64) > 0 {
            Ok(0)
        } else {
            Err(StorageError::QueryFailed(String::from_str("Total pages exceeds usize range")))
        }
    } else {
        let count: u64 = total as u64;
        let size: u64 = page_size as u64;
        let whole: u64 = count / size;
        let rest: u64 = count % size;
        let pages: u64 = if rest == 0 {
            whole
        } else {
            whole + 1
        };
        if pages > usize::MAX as u64 {
            Err(StorageError::QueryFailed(String::from_str("Total pages exceeds usize range")))
        } else {
            Ok(pages as usize)
        }
    }
}

/// The offset of page `page` as the database takes it: the number of items
/// before the page, or the largest offset there is where that number is
/// larger.
pub fn page_offset(page: usize, page_size: usize) -> (offset: i64)
    ensures
        offset == if spec_page_offset(page as nat, page_size as nat) <= i64::MAX {
            spec_page_offset(page as nat, page_size as nat) as int
        } else {
            i64::MAX as int
        },
{
    if page == 0 {
        return 0;
    }
    let before: u64 = (page - 1) as u64;
    let size: u64 = page_size as u64;
    let limit: u64 = i64::MAX as u64;
    match before.checked_mul(size) {
        Some(product) => {
            if product > limit {
                i64::MAX
            } else {
                product as i64
            }
        },
        None => i64::MAX,
    }
}

/// What rounding up comes to: a full page for every `page_size` items, and
/// one more page where items are left over. A listing of fewer than no items
/// has fewer than one page.
pub proof fn lemma_total_pages(total: int, page_size: int)
    requires
        page_size > 0,
    ensures
        total >= 0 ==> spec_total_pages(total, page_size) == total / page_size + if total
            % page_size == 0 {
            0int
        } else {
            1int
        },
        total >= 0 ==> spec_total_pages(total, page_size) >= 0,
        -page_size < total < 0 ==> spec_total_pages(total, page_size) == 0,
        total <= -page_size ==> spec_total_pages(total, page_size) < 0,
        total >= 0 ==> total / page_size <= total,
        total >= 0 && total % page_size != 0 ==> total / page_size < total,
{
    let pages = spec_total_pages(total, page_size);
    assert(pages * page_size <= total + page_size - 1 < pages * page_size + page_size) by (nonlinear_arith)
        requires
            pages == (total + page_size - 1) / page_size,
            page_size > 0,
    ;
    let whole = total / page_size;
    let rest = total % page_size;
    assert(total == whole * page_size + rest && 0 <= rest < page_size) by (nonlinear_arith)
        requires
            whole == total / page_size,
            rest == total % page_size,
            page_size > 0,
    ;
    if total >= 0 {
        let expected = whole + if rest == 0 {
            0int
        } else {
            1int
        };
        assert(pages == expected) by (nonlinear_arith)
            requires
                pages * page_size <= total + page_size - 1 < pages * page_size + page_size,
                total == whole * page_size + rest,
                0 <= rest < page_size,
                expected == whole + if rest == 0 {
                    0int
                } else {
                    1int
                },
                page_size > 0,
        ;
        assert(0 <= whole <= total && (rest != 0 ==> whole < total)) by (nonlinear_arith)
            requires
                total == whole * page_size + rest,
                0 <= rest < page_size,
                total >= 0,
                page_size > 0,
        ;
    } else if total > -page_size {
        assert(pages == 0) by (nonlinear_arith)
            requires
                pages * page_size <= total + page_size - 1 < pages * page_size + page_size,
                -page_size < total < 0,
                page_size > 0,
        ;
    } else {
        assert(pages < 0) by (nonlinear_arith)
            requires
                pages * page_size <= total + page_size - 1 < pages * page_size + page_size,
                total <= -page_size,
                page_size > 0,
        ;
    }
}

/// The page count is the round-up of the item count by the page size:
/// enough pages for all items, and not one page more.
pub proof fn lemma_total_pages_is_ceiling(total: nat, page_size: nat)
    requires
        page_size > 0,
    ensures
        spec_total_pages(total as int, page_size as int) * page_size >= total,
        (spec_total_pages(total as int, page_size as int) - 1) * page_size < total || total == 0,
        total == 0 ==> spec_total_pages(total as int, page_size as int) == 0,
{
    let pages = spec_total_pages(total as int, page_size as int);
    assert(pages * page_size <= total + page_size - 1 < pages * page_size + page_size) by (nonlinear_arith)
        requires
            pages == (total + page_size - 1) / (page_size as int),
            page_size > 0,
    ;
    assert((pages - 1) * page_size == pages * page_size - page_size) by (nonlinear_arith);
    if total == 0 {
        assert(pages == 0) by (nonlinear_arith)
            requires
                pages * page_size <= page_size - 1 < pages * page_size + page_size,
                page_size > 0,
        ;
    }
}

/// A page beyond the last one is empty: where `page` is larger than the page
/// count of the listing, no item of the listing stands on it. The page count
/// does not depend on the page asked for.
pub proof fn lemma_page_beyond_last_is_empty<A>(all: Seq<A>, page: nat, page_size: nat)
    requires
        page_size > 0,
        page > spec_total_pages(all.len() as int, page_size as int),
    ensures
        spec_page_offset(page, page_size) >= all.len(),
        spec_page_items(all, page, page_size) == Seq::<A>::empty(),
{
    let total = all.len();
    let pages = spec_total_pages(total as int, page_size as int);
    lemma_total_pages_is_ceiling(total, page_size);
    assert((page - 1) * page_size >= pages * page_size) by (nonlinear_arith)
        requires
            page - 1 >= pages,
            page_size > 0,
    ;
}

/// No page holds more than `page_size` items.
pub proof fn lemma_page_items_bounded<A>(all: Seq<A>, page: nat, page_size: nat)
    ensures
        spec_page_items(all, page, page_size).len() <= page_size,
        spec_page_items(all, page, page_size).len() <= all.len(),
{
}

} // verus!
