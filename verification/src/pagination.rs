use crate::error::ContractError;
use vstd::prelude::*;

verus! {

/// How many pages `total` items fill at `items_per_page` items a page.
pub open spec fn pages(total: int, items_per_page: int) -> int {
    if total % items_per_page == 0 {
        total / items_per_page
    } else {
        total / items_per_page + 1
    }
}

/// Why a page cannot be had, if it cannot. Pages are counted from 1.
pub open spec fn page_rejection(total: int, page: u128, items_per_page: u128) -> Option<
    ContractError,
> {
    if page == 0 {
        Some(ContractError::PageZero)
    } else if items_per_page == 0 {
        Some(ContractError::ItemsPerPageZero)
    } else if page > pages(total, items_per_page as int) {
        Some(ContractError::PageOutOfBounds)
    } else {
        None
    }
}

/// The number of the newest item on a page, items being numbered from 1 in the order in
/// which they were recorded: page 1 starts at the last item.
pub open spec fn page_start(total: int, page: u128, items_per_page: u128) -> int {
    total - (page - 1) * items_per_page
}

/// The number of the oldest item on a page.
pub open spec fn page_end(total: int, page: u128, items_per_page: u128) -> int {
    if page_start(total, page, items_per_page) < items_per_page {
        1
    } else {
        page_start(total, page, items_per_page) - items_per_page + 1
    }
}

/// A page that is not rejected starts and ends inside the list and holds between one item
/// and a page's worth.
pub proof fn lemma_page_bounds(total: int, page: u128, items_per_page: u128)
    requires
        0 <= total,
        page_rejection(total, page, items_per_page) is None,
    ensures
        0 <= (page - 1) * items_per_page < total,
        1 <= page_end(total, page, items_per_page) <= page_start(total, page, items_per_page)
            <= total,
        page_start(total, page, items_per_page) - page_end(total, page, items_per_page) + 1
            <= items_per_page,
{
    let n = items_per_page as int;
    let p = page as int;
    vstd::arithmetic::div_mod::lemma_fundamental_div_mod(total, n);
    vstd::arithmetic::div_mod::lemma_mod_bound(total, n);
    vstd::arithmetic::div_mod::lemma_div_pos_is_pos(total, n);
    let q = total / n;
    assert(total == n * q + total % n);
    if total % n == 0 {
        assert((p - 1) * n <= (q - 1) * n) by (nonlinear_arith)
            requires
                p - 1 <= q - 1,
                0 < n,
        ;
        assert((q - 1) * n == n * q - n) by (nonlinear_arith);
    } else {
        assert((p - 1) * n <= q * n) by (nonlinear_arith)
            requires
                p - 1 <= q,
                0 < n,
        ;
        assert(q * n == n * q) by (nonlinear_arith);
    }
    assert(0 <= (p - 1) * n) by (nonlinear_arith)
        requires
            1 <= p,
            0 < n,
    ;
}

/// Where a page starts and ends: the numbers of its newest and of its oldest item.
pub fn page_bounds(total: usize, page: u128, items_per_page: u128) -> (r: Result<
    (usize, usize),
    ContractError,
>)
    ensures
        match page_rejection(total as int, page, items_per_page) {
            Some(e) => r == Err::<(usize, usize), ContractError>(e),
            None => r is Ok && r->Ok_0.0 == page_start(total as int, page, items_per_page)
                && r->Ok_0.1 == page_end(total as int, page, items_per_page),
        },
{
    if page == 0 {
        return Err(ContractError::PageZero);
    }
    if items_per_page == 0 {
        return Err(ContractError::ItemsPerPageZero);
    }
    let total_items = total as u128;
    let number_of_pages = if total_items % items_per_page == 0 {
        total_items / items_per_page
    } else {
        total_items / items_per_page + 1
    };
    if page > number_of_pages {
        return Err(ContractError::PageOutOfBounds);
    }
    proof {
        lemma_page_bounds(total as int, page, items_per_page);
    }
    let start_index = total_items - (page - 1) * items_per_page;
    let end_index = if start_index < items_per_page {
        1
    } else {
        start_index - items_per_page + 1
    };
    Ok((start_index as usize, end_index as usize))
}

} // verus!
