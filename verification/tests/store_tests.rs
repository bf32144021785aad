use little_nova::errors::RequestError;
use little_nova::store::Store;

#[test]
fn insert_then_get_returns_identical_fields() {
    let mut store = Store::new();
    let created = store.insert(String::from("ada"), String::from("hello"), 1700000000000);
    let got = store.get(created.id).expect("a fresh id must be found");
    assert_eq!(got.id, created.id);
    assert_eq!(got.name, "ada");
    assert_eq!(got.text, "hello");
    assert_eq!(got.created_at, 1700000000000);
}

#[test]
fn get_absent_is_not_found() {
    let store = Store::new();
    match store.get(42) {
        Err(RequestError::NotFound) => {}
        _ => panic!("an id never inserted must give NotFound"),
    }
}

#[test]
fn get_absent_after_inserts_is_not_found() {
    let mut store = Store::new();
    let a = store.insert(String::from("a"), String::from("x"), 1);
    let b = store.insert(String::from("b"), String::from("y"), 2);
    let mut absent: u128 = 7;
    while absent == a.id || absent == b.id {
        absent += 1;
    }
    match store.get(absent) {
        Err(RequestError::NotFound) => {}
        _ => panic!("an id never inserted must give NotFound"),
    }
}

#[test]
fn inserts_grow_store_and_ids_stay_unique() {
    let mut store = Store::new();
    let mut ids: Vec<u128> = Vec::new();
    for k in 0..5 {
        let c = store.insert(format!("author{}", k), format!("text{}", k), k as i64);
        ids.push(c.id);
    }
    assert_eq!(store.len(), 5);
    for i in 0..ids.len() {
        for j in 0..ids.len() {
            if i != j {
                assert_ne!(ids[i], ids[j], "every returned id must be unique");
            }
        }
    }
}

#[test]
fn snapshot_is_independent_of_later_inserts() {
    let mut store = Store::new();
    store.insert(String::from("a"), String::from("one"), 10);
    let snap = store.snapshot();
    assert_eq!(snap.len(), 1);
    store.insert(String::from("b"), String::from("two"), 20);
    assert_eq!(snap.len(), 1);
    assert_eq!(store.len(), 2);
    assert_eq!(snap[0].text, "one");
}

#[test]
fn empty_store_has_len_zero() {
    let store = Store::new();
    assert_eq!(store.len(), 0);
}
