use registry_explorer::pagination::{Paginated, PaginationError, PaginationQuery};

fn names(items: &[&str]) -> Vec<String> {
    items.iter().map(|s| s.to_string()).collect()
}

#[test]
fn first_page_of_one_holds_first_tag() {
    let tags = names(&["v1", "v2"]);
    let query = PaginationQuery { page: Some(0), size: Some(1) };
    let page = query.into_paginated(10, &tags).unwrap();
    assert_eq!(page.data, vec!["v1".to_string()]);
    assert_eq!(page.page, 0);
    assert_eq!(page.size, 1);
    assert_eq!(page.total_element_count, 2);
    assert_eq!(page.total_pages(), 2);
    assert!(page.need_pagination());
    assert_eq!(page.next(), 1);
    assert_eq!(page.previous(), 0);
}

#[test]
fn second_page_holds_second_tag() {
    let tags = names(&["v1", "v2"]);
    let query = PaginationQuery { page: Some(1), size: Some(1) };
    let page = query.into_paginated(10, &tags).unwrap();
    assert_eq!(page.data, vec!["v2".to_string()]);
    assert_eq!(page.next(), 1);
    assert_eq!(page.previous(), 0);
}

#[test]
fn default_size_applies() {
    let tags = names(&["a", "b", "c"]);
    let query = PaginationQuery { page: None, size: None };
    let page = query.into_paginated(2, &tags).unwrap();
    assert_eq!(page.data, names(&["a", "b"]));
    assert_eq!(page.total_pages(), 2);
    let query = PaginationQuery { page: Some(1), size: None };
    let page = query.into_paginated(2, &tags).unwrap();
    assert_eq!(page.data, names(&["c"]));
    assert!(!page.is_empty());
}

#[test]
fn page_past_end_is_refused() {
    let tags = names(&["v1", "v2"]);
    let query = PaginationQuery { page: Some(2), size: Some(1) };
    assert!(matches!(query.into_paginated(10, &tags), Err(PaginationError::OutOfRange)));
    let empty: Vec<String> = Vec::new();
    let query = PaginationQuery { page: None, size: None };
    assert!(matches!(query.into_paginated(10, &empty), Err(PaginationError::OutOfRange)));
}

#[test]
fn huge_page_is_refused() {
    let tags = names(&["v1"]);
    let query = PaginationQuery { page: Some(usize::MAX), size: Some(usize::MAX) };
    assert!(matches!(query.into_paginated(10, &tags), Err(PaginationError::OutOfRange)));
}

#[test]
fn zero_size_is_refused() {
    let tags = names(&["v1"]);
    let query = PaginationQuery { page: None, size: Some(0) };
    assert!(matches!(query.into_paginated(10, &tags), Err(PaginationError::ZeroSize)));
}

#[test]
fn page_arithmetic() {
    let page = Paginated { page: 3, size: 10, total_element_count: 95, data: vec![1u8] };
    assert_eq!(page.total_pages(), 10);
    assert_eq!(page.next(), 4);
    assert_eq!(page.previous(), 2);
    let last = Paginated { page: 9, size: 10, total_element_count: 100, data: vec![1u8] };
    assert_eq!(last.total_pages(), 10);
    assert_eq!(last.next(), 9);
    let single = Paginated { page: 0, size: 10, total_element_count: 10, data: Vec::<u8>::new() };
    assert!(!single.need_pagination());
    assert!(single.is_empty());
}

#[test]
fn map_keeps_position() {
    let page = Paginated { page: 2, size: 3, total_element_count: 8, data: vec![1u32, 2] };
    let doubled = page.map(|x| x * 2);
    assert_eq!(doubled.data, vec![2, 4]);
    assert_eq!(doubled.page, 2);
    assert_eq!(doubled.size, 3);
    assert_eq!(doubled.total_element_count, 8);
    let collected: Vec<u32> = doubled.iter().copied().collect();
    assert_eq!(collected, vec![2, 4]);
}

#[test]
fn into_result_takes_first_error() {
    let page: Paginated<Result<u8, &str>> =
        Paginated { page: 0, size: 3, total_element_count: 3, data: vec![Ok(1), Err("a"), Err("b")] };
    assert!(matches!(page.into_result(), Err("a")));
    let page: Paginated<Result<u8, &str>> =
        Paginated { page: 1, size: 3, total_element_count: 5, data: vec![Ok(1), Ok(2)] };
    let values = page.into_result().unwrap();
    assert_eq!(values.data, vec![1, 2]);
    assert_eq!(values.page, 1);
}
