use vstd::prelude::*;

verus! {

/// Page requested when the query names none.
pub const DEFAULT_PAGE: u32 = 1;

/// Page size used when the query names none.
pub const DEFAULT_PER_PAGE: u32 = 50;

/// Largest page size the API serves.
pub const MAX_PER_PAGE: u32 = 500;

/// The `page` / `per_page` query parameters of a listing.
#[derive(Clone, Debug)]
pub struct PaginationParams {
    pub page: Option<u32>,
    pub per_page: Option<u32>,
}

/// The page number that a query asks for: the given page, at least 1.
pub open spec fn requested_page(page: Option<u32>) -> u32 {
    match page {
        Some(p) => if p >= 1 { p } else { 1 },
        None => DEFAULT_PAGE,
    }
}

/// The page size that a query asks for: the given size clamped to 1..=500,
/// or 50 when none is given.
pub open spec fn requested_per_page(per_page: Option<u32>) -> u32 {
    match per_page {
        Some(n) => if n < 1 {
            1
        } else if n > MAX_PER_PAGE {
            MAX_PER_PAGE
        } else {
            n
        },
        None => DEFAULT_PER_PAGE,
    }
}

impl PaginationParams {
    /// The page to serve (1-based).
    pub fn page(&self) -> (r: u32)
        ensures
            r == requested_page(self.page),
            r >= 1,
    {
        match self.page {
            Some(p) => if p >= 1 { p } else { 1 },
            None => DEFAULT_PAGE,
        }
    }

    /// The number of items per page.
    pub fn per_page(&self) -> (r: u32)
        ensures
            r == requested_per_page(self.per_page),
            1 <= r <= MAX_PER_PAGE,
    {
        match self.per_page {
            Some(n) => if n < 1 {
                1
            } else if n > MAX_PER_PAGE {
                MAX_PER_PAGE
            } else {
                n
            },
            None => DEFAULT_PER_PAGE,
        }
    }
}

/// The counts that accompany one page of a listing.
#[derive(Clone, Debug)]
pub struct PaginationMeta {
    pub total: usize,
    pub page: u32,
    pub per_page: u32,
    pub total_pages: u32,
}

/// One page of a listing together with its counts.
#[derive(Debug)]
pub struct PaginatedResponse<T> {
    pub data: Vec<T>,
    pub meta: PaginationMeta,
}

/// Index of the first item of page `page` (1-based) at `per_page` items a page.
pub open spec fn page_start(page: int, per_page: int) -> int {
    (page - 1) * per_page
}

/// The items that page `page` holds: those from `page_start` on, at most
/// `per_page` of them; none when the page starts past the end.
pub open spec fn page_window<T>(items: Seq<T>, page: int, per_page: int) -> Seq<T> {
    let start = page_start(page, per_page);
    if 0 <= start < items.len() {
        let end = if start + per_page < items.len() { start + per_page } else { items.len() as int };
        items.subrange(start, end)
    } else {
        Seq::empty()
    }
}

/// `total / per_page` rounded up; `per_page` must be positive.
pub open spec fn ceil_div(total: nat, per_page: nat) -> nat
    recommends
        per_page > 0,
{
    if total % per_page == 0 {
        total / per_page
    } else {
        total / per_page + 1
    }
}

/// The number of pages reported for `total` items: `total / per_page`
/// rounded up and held to the `u32` range, and at least 1. A page size of 0
/// makes any nonempty listing report `u32::MAX` pages.
pub open spec fn total_pages_for(total: nat, per_page: u32) -> u32 {
    let pages: int = if per_page == 0 {
        if total == 0 { 0 } else { u32::MAX as int }
    } else {
        let c = ceil_div(total, per_page as nat);
        if c > u32::MAX { u32::MAX as int } else { c as int }
    };
    if pages < 1 { 1 } else { pages as u32 }
}

/// Computes `total_pages_for`.
fn count_pages(total: usize, per_page: u32) -> (r: u32)
    ensures
        r == total_pages_for(total as nat, per_page),
{
    if per_page == 0 {
        if total == 0 { 1 } else { u32::MAX }
    } else {
        let t = total as u64;
        let p = per_page as u64;
        let q = t / p;
        let r = t % p;
        assert(q <= t) by (nonlinear_arith)
            requires p >= 1, q == t / p;
        let pages: u64 = if r == 0 { q } else {
            assert(q < u64::MAX) by (nonlinear_arith)
                requires p >= 1, q == t / p, r == t % p, r != 0, t <= u64::MAX;
            q + 1
        };
        if pages > u32::MAX as u64 {
            u32::MAX
        } else if pages < 1 {
            1
        } else {
            pages as u32
        }
    }
}

impl<T> PaginatedResponse<T> {
    /// Page `page` (1-based) of `all_items` at `per_page` items a page.
    pub fn new(all_items: Vec<T>, page: u32, per_page: u32) -> (r: Self)
        requires
            page >= 1,
        ensures
            r.data@ == page_window(all_items@, page as int, per_page as int),
            r.meta.total == all_items@.len(),
            r.meta.page == page,
            r.meta.per_page == per_page,
            r.meta.total_pages == total_pages_for(all_items@.len(), per_page),
    {
        let total = all_items.len();
        let total_pages = count_pages(total, per_page);
        let a: u64 = (page - 1) as u64;
        let b: u64 = per_page as u64;
        assert(a * b <= u32::MAX as int * u32::MAX as int) by (nonlinear_arith)
            requires a <= u32::MAX, b <= u32::MAX;
        let wide_start: u64 = a * b;
        assert(wide_start == page_start(page as int, per_page as int));
        let mut items = all_items;
        let ghost input = items@;
        let data = if wide_start < total as u64 {
            let start = wide_start as usize;
            let mut rest = items.split_off(start);
            let n = per_page as usize;
            if rest.len() > n {
                rest.truncate(n);
            }
            assert(rest@ =~= page_window(input, page as int, per_page as int));
            rest
        } else {
            let empty: Vec<T> = Vec::new();
            assert(empty@ =~= page_window(input, page as int, per_page as int));
            empty
        };
        PaginatedResponse {
            data,
            meta: PaginationMeta { total, page, per_page, total_pages },
        }
    }
}


/// Pages 1 through `n` of `items`, joined in order.
pub open spec fn pages_joined<T>(items: Seq<T>, per_page: int, n: nat) -> Seq<T>
    decreases n,
{
    if n == 0 {
        Seq::empty()
    } else {
        pages_joined(items, per_page, (n - 1) as nat) + page_window(items, n as int, per_page)
    }
}

/// Pages 1 through `n` hold exactly the first `n * per_page` items (or all
/// of them, when there are fewer).
proof fn lemma_pages_joined_prefix<T>(items: Seq<T>, per_page: int, n: nat)
    requires
        per_page >= 1,
    ensures
        pages_joined(items, per_page, n) =~= items.subrange(
            0,
            if n * per_page < items.len() { n * per_page } else { items.len() as int },
        ),
    decreases n,
{
    if n == 0 {
        assert(n * per_page == 0);
    } else {
        let m = (n - 1) as nat;
        lemma_pages_joined_prefix(items, per_page, m);
        let a = (n - 1) * per_page;
        assert(m * per_page == a);
        assert(pages_joined(items, per_page, n) == pages_joined(items, per_page, m) + page_window(
            items,
            n as int,
            per_page,
        ));
        let b = n * per_page;
        assert(b == a + per_page && a >= 0) by (nonlinear_arith)
            requires a == (n - 1) * per_page, b == n * per_page, n >= 1, per_page >= 1;
        assert(page_start(n as int, per_page) == a);
        let len = items.len() as int;
        if a < len {
            let e = if b < len { b } else { len };
            assert(pages_joined(items, per_page, n) =~= items.subrange(0, a) + items.subrange(
                a,
                e,
            ));
            assert(items.subrange(0, a) + items.subrange(a, e) =~= items.subrange(0, e));
        } else {
            assert(page_window(items, n as int, per_page) =~= Seq::<T>::empty());
            assert(pages_joined(items, per_page, n) =~= items.subrange(0, len));
        }
    }
}

/// Every page holds at most `per_page` items, and the pages come from the
/// listing in order: page `page` holds the items at indices
/// `(page - 1) * per_page` up to, not including, `page * per_page`.
pub proof fn lemma_page_is_slice<T>(items: Seq<T>, page: u32, per_page: u32, i: int)
    requires
        page >= 1,
        0 <= i < page_window(items, page as int, per_page as int).len(),
    ensures
        page_window(items, page as int, per_page as int).len() <= per_page,
        page_window(items, page as int, per_page as int)[i] == items[page_start(
            page as int,
            per_page as int,
        ) + i],
{
    assert(page_start(page as int, per_page as int) >= 0) by (nonlinear_arith)
        requires page >= 1, per_page >= 0;
}

/// Pages 1 through `total_pages` of a listing, joined in order, give back
/// the whole listing: no item is lost and none is served twice.
pub proof fn lemma_pages_cover_listing<T>(items: Seq<T>, per_page: u32)
    requires
        per_page >= 1,
        ceil_div(items.len(), per_page as nat) <= u32::MAX,
    ensures
        pages_joined(items, per_page as int, total_pages_for(items.len(), per_page) as nat)
            == items,
{
    let p = per_page as int;
    let n = total_pages_for(items.len(), per_page) as nat;
    lemma_pages_joined_prefix(items, p, n);
    let len = items.len() as int;
    let q = len / p;
    let r = len % p;
    assert(len == q * p + r && 0 <= r < p) by (nonlinear_arith)
        requires p >= 1, q == len / p, r == len % p, len >= 0;
    assert(ceil_div(items.len(), per_page as nat) == if r == 0 { q } else { q + 1 });
    if len == 0 {
        assert(n == 1);
        assert(n * p >= len) by (nonlinear_arith)
            requires n == 1, p >= 1, len == 0;
    } else if r == 0 {
        assert(q >= 1) by (nonlinear_arith)
            requires len == q * p, len > 0, p >= 1;
        assert(n == q);
        assert(n * p == len);
    } else {
        assert(n == q + 1);
        assert(n * p >= len) by (nonlinear_arith)
            requires n == q + 1, len == q * p + r, r < p;
    }
    assert(items.subrange(0, len) =~= items);
}

/// A page past the last one is empty, and when the listing is not empty
/// every page from 1 to `total_pages` holds at least one item.
pub proof fn lemma_pages_in_range_nonempty<T>(items: Seq<T>, page: u32, per_page: u32)
    requires
        page >= 1,
        per_page >= 1,
        ceil_div(items.len(), per_page as nat) <= u32::MAX,
    ensures
        page > total_pages_for(items.len(), per_page) ==> page_window(
            items,
            page as int,
            per_page as int,
        ).len() == 0,
        items.len() > 0 && page <= total_pages_for(items.len(), per_page) ==> page_window(
            items,
            page as int,
            per_page as int,
        ).len() > 0,
{
    let p = per_page as int;
    let n = total_pages_for(items.len(), per_page) as int;
    let len = items.len() as int;
    let q = len / p;
    let r = len % p;
    let s = page_start(page as int, p);
    assert(len == q * p + r && 0 <= r < p) by (nonlinear_arith)
        requires p >= 1, q == len / p, r == len % p, len >= 0;
    assert(ceil_div(items.len(), per_page as nat) == if r == 0 { q } else { q + 1 });
    if len == 0 {
        assert(s >= 0) by (nonlinear_arith)
            requires page >= 1, p >= 1, s == (page - 1) * p;
    } else {
        if r == 0 {
            assert(q >= 1) by (nonlinear_arith)
                requires len == q * p + r, r == 0, len > 0, p >= 1;
            assert(n == q);
        } else {
            assert(n == q + 1);
        }
        if page > n {
            assert(s >= len) by (nonlinear_arith)
                requires page >= n + 1, s == (page - 1) * p, p >= 1, len == q * p + r,
                    r == 0 ==> n == q, r != 0 ==> n == q + 1, 0 <= r < p;
        } else {
            assert(0 <= s < len) by (nonlinear_arith)
                requires page <= n, page >= 1, s == (page - 1) * p, p >= 1, len == q * p + r,
                    r == 0 ==> n == q, r != 0 ==> n == q + 1, 0 <= r < p, len > 0;
        }
    }
}


/// Every page before the last one is full: it holds exactly `per_page`
/// items.
pub proof fn lemma_pages_before_last_are_full<T>(items: Seq<T>, page: u32, per_page: u32)
    requires
        page >= 1,
        per_page >= 1,
        ceil_div(items.len(), per_page as nat) <= u32::MAX,
        page < total_pages_for(items.len(), per_page),
    ensures
        page_window(items, page as int, per_page as int).len() == per_page,
{
    let p = per_page as int;
    let n = total_pages_for(items.len(), per_page) as int;
    let len = items.len() as int;
    let q = len / p;
    let r = len % p;
    let s = page_start(page as int, p);
    assert(len == q * p + r && 0 <= r < p) by (nonlinear_arith)
        requires p >= 1, q == len / p, r == len % p, len >= 0;
    assert(ceil_div(items.len(), per_page as nat) == if r == 0 { q } else { q + 1 });
    if len == 0 {
        assert(n == 1);
    } else {
        if r == 0 {
            assert(q >= 1) by (nonlinear_arith)
                requires len == q * p + r, r == 0, len > 0, p >= 1;
            assert(n == q);
        } else {
            assert(n == q + 1);
        }
        assert(0 <= s && s + p <= len) by (nonlinear_arith)
            requires page + 1 <= n, page >= 1, s == (page - 1) * p, p >= 1, len == q * p + r,
                r == 0 ==> n == q, r != 0 ==> n == q + 1, 0 <= r < p, len > 0;
    }
}

/// Normalizing the query parameters twice changes nothing: a page number
/// and a page size that were served are served again as they are.
pub proof fn lemma_params_normalize_once(page: Option<u32>, per_page: Option<u32>)
    ensures
        requested_page(Some(requested_page(page))) == requested_page(page),
        requested_per_page(Some(requested_per_page(per_page))) == requested_per_page(per_page),
        requested_page(page) >= 1,
        1 <= requested_per_page(per_page) <= MAX_PER_PAGE,
{
}

} // verus!
