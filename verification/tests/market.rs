use pumpkin_wasm_host::market::{MarketKeyCache, market_key_from_response};

#[test]
fn market_key_is_trimmed_of_space_and_quotes() {
    assert_eq!(market_key_from_response("  \"abcd\"\n").unwrap(), "abcd");
    assert_eq!(market_key_from_response("abcd").unwrap(), "abcd");
    assert_eq!(market_key_from_response("\u{3000}\"\"ab\"cd\"\"\t").unwrap(), "ab\"cd");
    assert_eq!(market_key_from_response(" \" a \" ").unwrap(), " a ");
}

#[test]
fn empty_market_key_is_refused() {
    assert_eq!(market_key_from_response("").unwrap_err(), "Fetched public key is empty");
    assert_eq!(market_key_from_response(" \"\" \n").unwrap_err(), "Fetched public key is empty");
}

#[test]
fn market_public_key_caching() {
    let mut cache = MarketKeyCache::new();
    cache.remember("cached_test_key_12345".to_string());

    let key = cache
        .get_or_fetch(|| panic!("a cached key is returned without fetching"))
        .expect("Should return cached key");
    assert_eq!(key, "cached_test_key_12345");

    cache.forget();
}

#[test]
fn fetched_key_is_cached_and_failures_are_not() {
    let mut cache = MarketKeyCache::new();
    assert_eq!(cache.get_or_fetch(|| Err("offline".to_string())), Err("offline".to_string()));
    assert_eq!(
        cache.get_or_fetch(|| Ok("  ".to_string())),
        Err("Fetched public key is empty".to_string())
    );
    assert_eq!(cache.get_or_fetch(|| Ok("\"k1\"\n".to_string())), Ok("k1".to_string()));
    assert_eq!(cache.get_or_fetch(|| Ok("k2".to_string())), Ok("k1".to_string()));
}
