//! The leaderboard: players with a positive balance, richest first, shown
//! a page at a time with buttons that step forwards and backwards around
//! the pages.
use crate::text::{
    decimal, decimal_chars, occurs_at, same_text, starts_with_text, string_from_chars,
};
use vstd::prelude::*;

verus! {

/// Entries on a page when none is asked for.
pub const DEFAULT_PAGE_SIZE: usize = 10;

/// Most entries on a page.
pub const MAX_PAGE_SIZE: usize = 20;

/// Why a page size is refused.
#[derive(Debug, Clone, Copy, PartialEq, Eq)]
pub enum PageSizeError {
    /// More than the most entries on a page.
    TooLarge,
    /// Fewer than one entry.
    TooSmall,
}

/// Which button was pressed.
#[derive(Debug, Clone, Copy, PartialEq, Eq)]
pub enum Press {
    Next,
    Prev,
    /// A button of something else.
    Other,
}

/// Where the shown page lies, which decides which button is greyed out.
#[derive(Debug, Clone, Copy, PartialEq, Eq)]
pub enum NavLayout {
    /// The first page: the backward button is greyed out.
    First,
    /// The last page (and not the first): the forward button is greyed out.
    Last,
    /// Neither: both buttons look alike.
    Middle,
}

/// The page size for a request.
pub open spec fn page_size_for(requested: Option<usize>) -> Result<usize, PageSizeError> {
    let n = match requested {
        Some(n) => n,
        None => DEFAULT_PAGE_SIZE,
    };
    if n > MAX_PAGE_SIZE {
        Err(PageSizeError::TooLarge)
    } else if n < 1 {
        Err(PageSizeError::TooSmall)
    } else {
        Ok(n)
    }
}

/// The page size for a request: ten by default, from one to twenty.
pub fn page_size(requested: Option<usize>) -> (r: Result<usize, PageSizeError>)
    ensures
        r == page_size_for(requested),
{
    let n = match requested {
        Some(n) => n,
        None => DEFAULT_PAGE_SIZE,
    };
    if n > MAX_PAGE_SIZE {
        Err(PageSizeError::TooLarge)
    } else if n < 1 {
        Err(PageSizeError::TooSmall)
    } else {
        Ok(n)
    }
}

/// The number of listed players as a length, when it is one.
pub fn listed_count(count: i64) -> (r: Option<usize>)
    ensures
        r matches Some(n) ==> n == count,
        r is None <==> (count < 0 || count > usize::MAX),
{
    if count < 0 {
        None
    } else if count as u64 > usize::MAX as u64 {
        None
    } else {
        Some(count as usize)
    }
}

/// Pages needed for `len` entries, `on_page` to a page (rounded up).
pub open spec fn pages_for(len: int, on_page: int) -> int {
    (len + (on_page - 1)) / on_page
}

/// Pages needed for `len` entries, `on_page` to a page.
pub fn total_pages(len: usize, on_page: usize) -> (t: usize)
    requires
        on_page >= 1,
        len + on_page - 1 <= usize::MAX,
    ensures
        t == pages_for(len as int, on_page as int),
{
    (len + (on_page - 1)) / on_page
}

/// Whether the entries need more than one page, so that the buttons are
/// shown.
pub fn shows_navigation(len: usize, on_page: usize) -> (b: bool)
    ensures
        b == (len > on_page),
{
    len > on_page
}

/// The page after `current`, wrapping from the last to the first.
pub open spec fn next_of(current: int, total: int) -> int {
    if current + 1 >= total {
        0
    } else {
        current + 1
    }
}

/// The page before `current`, wrapping from the first to the last.
pub open spec fn prev_of(current: int, total: int) -> int {
    if current == 0 {
        total - 1
    } else {
        current - 1
    }
}

/// The page after `current`, wrapping from the last to the first.
pub fn next_page(current: usize, total: usize) -> (p: usize)
    requires
        current < usize::MAX,
    ensures
        p == next_of(current as int, total as int),
{
    let p = current + 1;
    if p >= total {
        0
    } else {
        p
    }
}

/// The page before `current`, wrapping from the first to the last.
pub fn prev_page(current: usize, total: usize) -> (p: usize)
    requires
        current > 0 || total > 0,
    ensures
        p == prev_of(current as int, total as int),
{
    if current == 0 {
        total - 1
    } else {
        current - 1
    }
}

/// Where the shown page lies.
pub open spec fn layout_of(current: int, total: int) -> NavLayout {
    if current == 0 {
        NavLayout::First
    } else if current == total - 1 {
        NavLayout::Last
    } else {
        NavLayout::Middle
    }
}

/// Where the shown page lies.
pub fn nav_layout(current: usize, total: usize) -> (l: NavLayout)
    requires
        current == 0 || total > 0,
    ensures
        l == layout_of(current as int, total as int),
{
    if current == 0 {
        NavLayout::First
    } else if current == total - 1 {
        NavLayout::Last
    } else {
        NavLayout::Middle
    }
}

/// How many entries come before the page.
pub fn page_offset(page: usize, on_page: usize) -> (o: usize)
    requires
        page * on_page <= usize::MAX,
    ensures
        o == page * on_page,
{
    page * on_page
}

/// The place, counted from one, of the entry at `idx` on the page.
pub fn rank(page: usize, on_page: usize, idx: usize) -> (r: usize)
    requires
        page * on_page + idx + 1 <= usize::MAX,
    ensures
        r == page * on_page + idx + 1,
{
    page * on_page + idx + 1
}

/// The identifier of a button: the command's number followed by a word.
pub open spec fn button_id(ctx_id: u64, word: Seq<char>) -> Seq<char> {
    decimal(ctx_id as nat) + word
}

/// The backward and forward button identifiers of the command `ctx_id`.
pub fn button_ids(ctx_id: u64) -> (ids: (String, String))
    ensures
        ids.0@ == button_id(ctx_id, seq!['p', 'r', 'e', 'v']),
        ids.1@ == button_id(ctx_id, seq!['n', 'e', 'x', 't']),
{
    let mut prev = decimal_chars(ctx_id);
    let mut next = decimal_chars(ctx_id);
    let ghost digits = prev@;
    prev.push('p');
    prev.push('r');
    prev.push('e');
    prev.push('v');
    next.push('n');
    next.push('e');
    next.push('x');
    next.push('t');
    assert(prev@ =~= digits + seq!['p', 'r', 'e', 'v']);
    assert(next@ =~= digits + seq!['n', 'e', 'x', 't']);
    (string_from_chars(&prev), string_from_chars(&next))
}

/// Whether a pressed button belongs to the command `ctx_id`: its
/// identifier begins with the command's number.
pub fn is_own_press(custom_id: &str, ctx_id: u64) -> (b: bool)
    ensures
        b == occurs_at(custom_id@, decimal(ctx_id as nat), 0),
{
    let digits = string_from_chars(&decimal_chars(ctx_id));
    starts_with_text(custom_id, digits.as_str())
}

/// Which button a press is; the forward button is checked first.
pub open spec fn press_of(custom_id: Seq<char>, prev_id: Seq<char>, next_id: Seq<char>) -> Press {
    if custom_id == next_id {
        Press::Next
    } else if custom_id == prev_id {
        Press::Prev
    } else {
        Press::Other
    }
}

/// Which button a press is.
pub fn press_kind(custom_id: &str, prev_id: &str, next_id: &str) -> (p: Press)
    ensures
        p == press_of(custom_id@, prev_id@, next_id@),
{
    if same_text(custom_id, next_id) {
        Press::Next
    } else if same_text(custom_id, prev_id) {
        Press::Prev
    } else {
        Press::Other
    }
}

/// The name a player is listed under: the server nickname, else the
/// display name, else the account name.
pub fn display_name(name: String, global_name: Option<String>, nick: Option<String>) -> (r: String)
    ensures
        r@ == match nick {
            Some(n) => n@,
            None => match global_name {
                Some(g) => g@,
                None => name@,
            },
        },
{
    match nick {
        Some(n) => n,
        None => match global_name {
            Some(g) => g,
            None => name,
        },
    }
}

/// The pages hold every entry and no page is empty: with `on_page`
/// entries a page, the pages before the last hold fewer entries than there
/// are, and all pages together hold at least as many.
pub proof fn pages_cover_entries(len: nat, on_page: nat)
    requires
        on_page >= 1,
    ensures
        pages_for(len as int, on_page as int) * on_page >= len,
        len > 0 ==> (pages_for(len as int, on_page as int) - 1) * on_page < len,
        pages_for(len as int, on_page as int) == 0 <==> len == 0,
{
    let n = on_page as int;
    let l = len as int;
    let t = pages_for(l, n);
    let a = l + n - 1;
    assert(t == a / n);
    assert(a == (a / n) * n + a % n && 0 <= a % n < n) by (nonlinear_arith)
        requires
            n >= 1,
    ;
    assert(t * n == a - a % n);
    if l == 0 {
        assert(t == 0) by (nonlinear_arith)
            requires
                0 <= a < n,
                t == a / n,
        ;
    } else {
        assert(t >= 1) by (nonlinear_arith)
            requires
                a >= n,
                n >= 1,
                t == a / n,
        ;
    }
    assert((t - 1) * n == t * n - n) by (nonlinear_arith);
}

/// Stepping forwards and backwards stays among the pages, and each step
/// undoes the other.
pub proof fn navigation_round_trip(current: int, total: int)
    requires
        0 <= current < total,
    ensures
        0 <= next_of(current, total) < total,
        0 <= prev_of(current, total) < total,
        prev_of(next_of(current, total), total) == current,
        next_of(prev_of(current, total), total) == current,
{
}

/// Places run on without a gap from one page to the next.
pub proof fn ranks_continue(page: nat, on_page: nat)
    requires
        on_page >= 1,
    ensures
        (page + 1) * on_page + 0 + 1 == (page * on_page + (on_page - 1) + 1) + 1,
{
    assert((page + 1) * on_page == page * on_page + on_page) by (nonlinear_arith);
}

/// The page size is the one asked for whenever it lies between one and
/// twenty, ten when none is asked for, and refused otherwise: too large
/// above twenty, too small below one.
pub proof fn page_size_is_the_one_asked_for(n: usize)
    ensures
        1 <= n <= 20 ==> page_size_for(Some(n)) == Ok::<usize, PageSizeError>(n),
        n > 20 ==> page_size_for(Some(n)) == Err::<usize, PageSizeError>(PageSizeError::TooLarge),
        n == 0 ==> page_size_for(Some(n)) == Err::<usize, PageSizeError>(PageSizeError::TooSmall),
        page_size_for(None) == Ok::<usize, PageSizeError>(10),
{
}

} // verus!
