use casino_bot::commands::top::{
    button_ids, display_name, is_own_press, listed_count, nav_layout, next_page, page_offset,
    page_size, press_kind, prev_page, rank, shows_navigation, total_pages, NavLayout,
    PageSizeError, Press, DEFAULT_PAGE_SIZE,
};

#[test]
fn page_sizes() {
    assert_eq!(page_size(None), Ok(DEFAULT_PAGE_SIZE));
    assert_eq!(page_size(Some(1)), Ok(1));
    assert_eq!(page_size(Some(20)), Ok(20));
    assert_eq!(page_size(Some(21)), Err(PageSizeError::TooLarge));
    assert_eq!(page_size(Some(0)), Err(PageSizeError::TooSmall));
}

#[test]
fn counts() {
    assert_eq!(listed_count(42), Some(42));
    assert_eq!(listed_count(0), Some(0));
    assert_eq!(listed_count(-1), None);
}

#[test]
fn pages() {
    assert_eq!(total_pages(0, 10), 0);
    assert_eq!(total_pages(1, 10), 1);
    assert_eq!(total_pages(10, 10), 1);
    assert_eq!(total_pages(11, 10), 2);
    assert_eq!(total_pages(45, 20), 3);
    assert!(shows_navigation(11, 10));
    assert!(!shows_navigation(10, 10));
}

#[test]
fn navigation_wraps_and_round_trips() {
    let total = 3;
    assert_eq!(next_page(0, total), 1);
    assert_eq!(next_page(2, total), 0);
    assert_eq!(prev_page(0, total), 2);
    assert_eq!(prev_page(2, total), 1);
    for p in 0..total {
        assert_eq!(prev_page(next_page(p, total), total), p);
        assert_eq!(next_page(prev_page(p, total), total), p);
    }
}

#[test]
fn layouts() {
    assert_eq!(nav_layout(0, 3), NavLayout::First);
    assert_eq!(nav_layout(2, 3), NavLayout::Last);
    assert_eq!(nav_layout(1, 3), NavLayout::Middle);
    assert_eq!(nav_layout(0, 1), NavLayout::First);
}

#[test]
fn ranks_and_offsets() {
    assert_eq!(page_offset(2, 10), 20);
    assert_eq!(rank(0, 10, 0), 1);
    assert_eq!(rank(2, 10, 3), 24);
    assert_eq!(rank(1, 10, 0), rank(0, 10, 9) + 1);
}

#[test]
fn button_ids_and_presses() {
    let (prev, next) = button_ids(1234567);
    assert_eq!(prev, "1234567prev");
    assert_eq!(next, "1234567next");
    assert!(is_own_press("1234567next", 1234567));
    assert!(!is_own_press("123456next", 1234567));
    assert_eq!(press_kind(&next, &prev, &next), Press::Next);
    assert_eq!(press_kind(&prev, &prev, &next), Press::Prev);
    assert_eq!(press_kind("1234567other", &prev, &next), Press::Other);
}

#[test]
fn names() {
    let n = || "acc".to_string();
    assert_eq!(display_name(n(), Some("Glob".into()), Some("Nick".into())), "Nick");
    assert_eq!(display_name(n(), Some("Glob".into()), None), "Glob");
    assert_eq!(display_name(n(), None, None), "acc");
}
