use little_nova::dispatch::{handle, Command, Pagination, Reply};
use little_nova::query::list;
use little_nova::store::Store;

#[test]
fn listing_returns_newest_first() {
    let mut store = Store::new();
    let a = store.insert(String::from("ada"), String::from("first"), 1000);
    let b = store.insert(String::from("bob"), String::from("second"), 2000);
    let page = list(&store, 0, 10);
    assert_eq!(page.total, 2);
    assert_eq!(page.entries.len(), 2);
    assert_eq!(page.entries[0].id, b.id);
    assert_eq!(page.entries[0].text, "second");
    assert_eq!(page.entries[1].id, a.id);
    assert_eq!(page.entries[1].text, "first");
}

#[test]
fn full_listing_is_strictly_descending() {
    let mut store = Store::new();
    let stamps: [i64; 5] = [30, 10, 50, 20, 40];
    for (k, t) in stamps.iter().enumerate() {
        store.insert(format!("n{}", k), format!("t{}", k), *t);
    }
    let page = list(&store, 0, 5);
    assert_eq!(page.total, 5);
    assert_eq!(page.entries.len(), 5);
    for w in page.entries.windows(2) {
        assert!(
            w[0].created_at > w[1].created_at,
            "distinct timestamps must come out strictly descending"
        );
    }
    assert_eq!(page.entries[0].created_at, 50);
    assert_eq!(page.entries[4].created_at, 10);
}

#[test]
fn offset_beyond_size_gives_empty_page_with_total() {
    let mut store = Store::new();
    for k in 0..3 {
        store.insert(format!("n{}", k), format!("t{}", k), k as i64);
    }
    let page = list(&store, 3, 10);
    assert_eq!(page.total, 3);
    assert!(page.entries.is_empty());
    let far = list(&store, 100, 10);
    assert_eq!(far.total, 3);
    assert!(far.entries.is_empty());
}

#[test]
fn limit_returns_the_k_most_recent() {
    let mut store = Store::new();
    for t in [100i64, 300, 200, 500, 400] {
        store.insert(String::from("n"), format!("at{}", t), t);
    }
    let page = list(&store, 0, 2);
    assert_eq!(page.total, 5);
    assert_eq!(page.entries.len(), 2);
    assert_eq!(page.entries[0].created_at, 500);
    assert_eq!(page.entries[1].created_at, 400);
}

#[test]
fn offset_skips_newest_entries() {
    let mut store = Store::new();
    for t in [1i64, 2, 3, 4] {
        store.insert(String::from("n"), format!("at{}", t), t);
    }
    let page = list(&store, 1, 2);
    assert_eq!(page.total, 4);
    assert_eq!(page.entries.len(), 2);
    assert_eq!(page.entries[0].created_at, 3);
    assert_eq!(page.entries[1].created_at, 2);
}

#[test]
fn equal_timestamps_are_ordered_by_ascending_id() {
    let mut store = Store::new();
    let a = store.insert(String::from("a"), String::from("x"), 7);
    let b = store.insert(String::from("b"), String::from("y"), 7);
    let page = list(&store, 0, 10);
    assert_eq!(page.entries.len(), 2);
    let (lo, hi) = if a.id < b.id { (a.id, b.id) } else { (b.id, a.id) };
    assert_eq!(page.entries[0].id, lo);
    assert_eq!(page.entries[1].id, hi);
}

#[test]
fn listing_defaults_apply_when_query_names_none() {
    let mut store = Store::new();
    for k in 0..3 {
        store.insert(format!("n{}", k), format!("t{}", k), k as i64);
    }
    let reply = handle(
        &mut store,
        Command::ListComments { pagination: Pagination { offset: None, limit: None } },
    )
    .expect("listing always succeeds");
    match reply {
        Reply::Listing(page) => {
            assert_eq!(page.total, 3);
            assert_eq!(page.entries.len(), 3);
        }
        _ => panic!("a listing command must give a listing reply"),
    }
}

#[test]
fn empty_store_lists_empty_page() {
    let store = Store::new();
    let page = list(&store, 0, 100);
    assert_eq!(page.total, 0);
    assert!(page.entries.is_empty());
}
