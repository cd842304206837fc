use mini_redis::store::{get, Store, NIL};

#[test]
fn get_after_set_returns_value() {
    let mut s = Store::new();
    mini_redis::store::set(&mut s, "k", "v");
    assert_eq!(get(&s, "k"), "v");
}

#[test]
fn fresh_store_reads_nil() {
    let s = Store::new();
    assert_eq!(get(&s, "anything"), NIL);
    assert_eq!(NIL, "NIL");
}

#[test]
fn absent_key_reads_nil_beside_others() {
    let mut s = Store::new();
    mini_redis::store::set(&mut s, "a", "1");
    assert_eq!(get(&s, "b"), "NIL");
}

#[test]
fn last_write_wins() {
    let mut s = Store::new();
    mini_redis::store::set(&mut s, "k", "v1");
    mini_redis::store::set(&mut s, "k", "v2");
    assert_eq!(get(&s, "k"), "v2");
}

#[test]
fn keys_are_case_sensitive_in_the_store() {
    let mut s = Store::new();
    mini_redis::store::set(&mut s, "k", "lower");
    mini_redis::store::set(&mut s, "K", "upper");
    assert_eq!(get(&s, "k"), "lower");
    assert_eq!(get(&s, "K"), "upper");
}
