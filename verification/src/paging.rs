//! Page arithmetic: where a page starts, how many pages there are.

use crate::article::ArticleError;
use vstd::prelude::*;

verus! {

/// The page size of the listings when the caller names none.
pub const PAGE_SIZE: i64 = 20;

/// The number of pages that `total` records fill at `page_size` per page:
/// `total / page_size` rounded up, and 0 where there is no record.
pub open spec fn page_count(total: int, page_size: int) -> int
    recommends
        page_size >= 1,
{
    if total <= 0 {
        0
    } else {
        (total - 1) / page_size + 1
    }
}

/// The number of records that stand before page `page`.
pub open spec fn offset_of(page: int, page_size: int) -> int {
    page_size * (page - 1)
}

/// Whether a page number and a page size are ones that a listing accepts.
pub open spec fn valid_page(page: int, page_size: int) -> bool {
    page >= 1 && page_size >= 1
}

/// Page `page` of `items`: the `page_size` items behind the first
/// `page_size * (page - 1)`, or as many of them as there are.
pub open spec fn page_of<T>(items: Seq<T>, page: int, page_size: int) -> Seq<T>
    recommends
        valid_page(page, page_size),
{
    let start = if offset_of(page, page_size) < items.len() {
        offset_of(page, page_size)
    } else {
        items.len() as int
    };
    let end = if start + page_size < items.len() {
        start + page_size
    } else {
        items.len() as int
    };
    items.subrange(start, end)
}

/// The number of pages, 0 where `total` is 0.
pub fn max_page(total: i64, page_size: i64) -> (pages: i64)
    requires
        page_size >= 1,
    ensures
        pages == page_count(total as int, page_size as int),
{
    if total <= 0 {
        0
    } else {
        (total - 1) / page_size + 1
    }
}

/// The offset to hand to a store for page `page`: `page_size * (page - 1)`,
/// where page and page size are at least 1 and the product fits an `i64`.
pub fn page_offset(page: i64, page_size: i64) -> (offset: Option<i64>)
    ensures
        offset == if valid_page(page as int, page_size as int) && offset_of(
            page as int,
            page_size as int,
        ) <= i64::MAX {
            Some(offset_of(page as int, page_size as int) as i64)
        } else {
            None
        },
{
    if page < 1 || page_size < 1 {
        return None;
    }
    let before: i64 = page - 1;
    proof {
        assert(page_size * before >= 0) by (nonlinear_arith)
            requires
                page_size >= 1,
                before >= 0,
        ;
    }
    page_size.checked_mul(before)
}

/// Where page `page` starts, for a store that takes an offset: `Validation`
/// where the page number or the page size is below one; `None` where the
/// page starts behind more records than an `i64` counts, so that it is
/// empty in every store.
pub fn page_start(page: i64, page_size: i64) -> (res: Result<Option<i64>, ArticleError>)
    ensures
        match res {
            Ok(start) => {
                &&& valid_page(page as int, page_size as int)
                &&& start == if offset_of(page as int, page_size as int) <= i64::MAX {
                    Some(offset_of(page as int, page_size as int) as i64)
                } else {
                    None
                }
            },
            Err(e) => !valid_page(page as int, page_size as int) && e == ArticleError::Validation,
        },
{
    if page < 1 || page_size < 1 {
        Err(ArticleError::Validation)
    } else {
        Ok(page_offset(page, page_size))
    }
}

/// The page count is the least number of pages that hold every record.
pub proof fn page_count_is_ceiling(total: int, page_size: int)
    requires
        total >= 0,
        page_size >= 1,
    ensures
        page_count(total, page_size) * page_size >= total,
        total > 0 ==> (page_count(total, page_size) - 1) * page_size < total,
        total == 0 ==> page_count(total, page_size) == 0,
        page_count(total, page_size) >= 0,
{
    if total > 0 {
        let q = (total - 1) / page_size;
        assert(q * page_size <= total - 1 < q * page_size + page_size && q >= 0)
            by (nonlinear_arith)
            requires
                q == (total - 1) / page_size,
                page_size >= 1,
                total >= 1,
        ;
        assert((q + 1) * page_size == q * page_size + page_size) by (nonlinear_arith);
    }
}

} // verus!
