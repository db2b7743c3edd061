use rocksdb_cli::db::{
    json_report, reversed, select, skip_failed, DBHelper, DeleteReport, Filter, GetReport, Lookup, Pair, StoreError,
};

const OPEN: &[u8] = b"\x1b[95m";
const CLOSE: &[u8] = b"\x1b[0m";

fn helper() -> DBHelper {
    DBHelper::new("/tmp/store", vec!["default".to_string(), "users".to_string()])
}

fn pair(key: &str, value: &str) -> Pair {
    (key.as_bytes().to_vec(), value.as_bytes().to_vec())
}

fn keys_of(rows: &[Pair]) -> Vec<String> {
    rows.iter().map(|(k, _)| String::from_utf8_lossy(k).into_owned()).collect()
}

fn letters() -> Vec<Pair> {
    ["a", "b", "c", "d", "e", "f"].iter().map(|k| pair(k, &format!("v{}", k))).collect()
}

fn framed(text: &[u8]) -> Vec<u8> {
    let mut out = OPEN.to_vec();
    out.extend_from_slice(text);
    out.extend_from_slice(CLOSE);
    out
}

#[test]
fn new_makes_the_first_column_family_active() {
    let h = helper();
    assert_eq!(h.path, "/tmp/store");
    assert_eq!(h.current_cf, "default");
    assert_eq!(h.cf_list, vec!["default", "users"]);
    assert_eq!(h.get_cfs_names(), vec!["default", "users"]);
}

#[test]
fn new_without_column_families_has_the_empty_name() {
    let h = DBHelper::new("p", Vec::new());
    assert_eq!(h.current_cf, "");
    assert!(h.get_cfs_names().is_empty());
    assert!(!h.knows(""));
}

#[test]
fn knows_tells_the_known_names() {
    let h = helper();
    assert!(h.knows("users"));
    assert!(h.knows("default"));
    assert!(!h.knows("user"));
    assert!(!h.knows("USERS"));
}

#[test]
fn scan_forward_within_bounds() {
    let shown = helper().scan(&letters(), Some("b"), Some("e"), false);
    assert_eq!(keys_of(&shown), vec!["b", "c", "d"]);
    assert_eq!(shown[0].1, b"vb".to_vec());
}

#[test]
fn scan_reverse_within_bounds() {
    let shown = helper().scan(&letters(), Some("b"), Some("e"), true);
    assert_eq!(keys_of(&shown), vec!["d", "c", "b"]);
}

#[test]
fn scan_bounds_are_inclusive_below_and_exclusive_above() {
    let h = helper();
    assert_eq!(keys_of(&h.scan(&letters(), Some("a"), Some("a"), false)), Vec::<String>::new());
    assert_eq!(keys_of(&h.scan(&letters(), Some("a"), Some("b"), false)), vec!["a"]);
    assert_eq!(keys_of(&h.scan(&letters(), Some("f"), None, false)), vec!["f"]);
    assert_eq!(keys_of(&h.scan(&letters(), None, Some("a"), false)), Vec::<String>::new());
    assert_eq!(keys_of(&h.scan(&letters(), Some("bb"), Some("dd"), false)), vec!["c", "d"]);
}

#[test]
fn scan_without_bounds_shows_everything() {
    let h = helper();
    assert_eq!(keys_of(&h.scan(&letters(), None, None, false)), vec!["a", "b", "c", "d", "e", "f"]);
    assert_eq!(keys_of(&h.scan(&letters(), None, None, true)), vec!["f", "e", "d", "c", "b", "a"]);
    assert!(h.scan(&Vec::new(), None, None, true).is_empty());
}

#[test]
fn scan_orders_keys_as_byte_strings() {
    let entries = vec![pair("", "0"), pair("a", "1"), pair("a\u{0}", "2"), pair("ab", "3"), pair("b", "4")];
    let shown = helper().scan(&entries, Some("a"), Some("ab"), false);
    assert_eq!(shown, vec![pair("a", "1"), pair("a\u{0}", "2")]);
    let shown = helper().scan(&entries, Some(""), Some("a"), false);
    assert_eq!(shown, vec![pair("", "0")]);
}

#[test]
fn prefix_shows_only_keys_with_the_prefix() {
    let entries = vec![pair("admin", "1"), pair("user1", "2"), pair("user2", "3")];
    let shown = helper().prefix(&entries, "us", false);
    assert_eq!(shown, vec![pair("user1", "2"), pair("user2", "3")]);
    assert!(helper().prefix(&entries, "x", false).is_empty());
    assert_eq!(helper().prefix(&entries, "", false).len(), 3);
}

#[test]
fn prefix_highlights_the_prefix_in_the_key() {
    colored::control::set_override(true);
    let entries = vec![pair("admin", "1"), pair("user1", "us"), pair("user2", "3")];
    let shown = helper().prefix(&entries, "us", true);
    assert_eq!(shown.len(), 2);
    let mut key1 = framed(b"us");
    key1.extend_from_slice(b"er1");
    assert_eq!(shown[0].0, key1);
    assert_eq!(shown[0].0.len(), 5 + OPEN.len() + CLOSE.len());
    assert_eq!(shown[0].1, b"us".to_vec());
    let mut key2 = framed(b"us");
    key2.extend_from_slice(b"er2");
    assert_eq!(shown[1].0, key2);
    assert_eq!(shown[1].1, b"3".to_vec());
}

#[test]
fn search_value_shows_only_matching_values() {
    let entries = vec![pair("k1", "aXb"), pair("k2", "abc")];
    let shown = helper().search_value(&entries, "X", false);
    assert_eq!(shown, vec![pair("k1", "aXb")]);
}

#[test]
fn search_value_highlights_the_value_not_the_key() {
    colored::control::set_override(true);
    let entries = vec![pair("kX1", "aXb"), pair("k2", "abc")];
    let shown = helper().search_value(&entries, "X", true);
    assert_eq!(shown.len(), 1);
    assert_eq!(shown[0].0, b"kX1".to_vec());
    let mut value = b"a".to_vec();
    value.extend_from_slice(&framed(b"X"));
    value.extend_from_slice(b"b");
    assert_eq!(shown[0].1, value);
}

#[test]
fn search_key_matches_keys_and_highlights_values() {
    colored::control::set_override(true);
    let entries = vec![pair("apple", "an apple a day"), pair("pear", "apple")];
    let h = helper();
    assert_eq!(h.search_key(&entries, "ppl", false), vec![pair("apple", "an apple a day")]);
    let shown = h.search_key(&entries, "ppl", true);
    assert_eq!(shown.len(), 1);
    assert_eq!(shown[0].0, b"apple".to_vec());
    let mut value = b"an a".to_vec();
    value.extend_from_slice(&framed(b"ppl"));
    value.extend_from_slice(b"e a day");
    assert_eq!(shown[0].1, value);
}

#[test]
fn search_with_binary_values_leaves_them_unmarked() {
    colored::control::set_override(true);
    let entries: Vec<Pair> = vec![(b"k".to_vec(), vec![0xff, b'X', 0xfe])];
    let shown = helper().search_value(&entries, "X", true);
    assert_eq!(shown, entries);
}

#[test]
fn select_keeps_the_given_order() {
    let entries = vec![pair("b", "1"), pair("a", "2"), pair("ab", "3")];
    let chosen = select(&entries, &Filter::KeyHolds { pattern: b"a" });
    assert_eq!(chosen, vec![pair("a", "2"), pair("ab", "3")]);
    let chosen = select(&entries, &Filter::ValueHolds { pattern: b"" });
    assert_eq!(chosen, entries);
    let chosen = select(&entries, &Filter::KeyPrefix { prefix: b"ab" });
    assert_eq!(chosen, vec![pair("ab", "3")]);
    let chosen = select(&entries, &Filter::Range { start: Some(b"ab"), end: None });
    assert_eq!(chosen, vec![pair("b", "1"), pair("ab", "3")]);
    assert!(Filter::Range { start: None, end: Some(b"b") }.accepts(b"ab", b""));
    assert!(!Filter::Range { start: None, end: Some(b"b") }.accepts(b"b", b""));
}

#[test]
fn reversed_turns_the_order_round() {
    assert_eq!(reversed(vec![pair("a", "1"), pair("b", "2"), pair("c", "3")]), vec![
        pair("c", "3"),
        pair("b", "2"),
        pair("a", "1")
    ]);
    assert!(reversed(Vec::new()).is_empty());
}

#[test]
fn get_on_an_absent_key_is_not_found_and_no_error() {
    assert_eq!(helper().get("nope", Lookup::Absent, false), Ok(GetReport::NotFound));
    assert_eq!(helper().get("nope", Lookup::Absent, true), Ok(GetReport::NotFound));
}

#[test]
fn get_passes_the_store_failure_on() {
    assert_eq!(helper().get("k", Lookup::Failed, false), Err(StoreError));
}

#[test]
fn get_shows_the_value_as_it_is() {
    let value = vec![0u8, 0xff, b'\\', b'n', b'"'];
    assert_eq!(
        helper().get("k", Lookup::Found(value.clone()), false),
        Ok(GetReport::Row { key: b"k".to_vec(), value })
    );
}

#[test]
fn get_as_json_decodes_a_string_literal() {
    let stored = b" \"line\\none \\u0041\" ".to_vec();
    assert_eq!(
        helper().get("k", Lookup::Found(stored), true),
        Ok(GetReport::Row { key: b"k".to_vec(), value: b"line\none A".to_vec() })
    );
}

#[test]
fn get_as_json_falls_back_to_the_text() {
    assert_eq!(
        helper().get("k", Lookup::Found(b"{\"a\":1}".to_vec()), true),
        Ok(GetReport::Text("{\"a\":1}".to_string()))
    );
    assert_eq!(
        helper().get("k", Lookup::Found(vec![b'a', 0xff]), true),
        Ok(GetReport::Text("a\u{fffd}".to_string()))
    );
}

#[test]
fn put_then_get_returns_the_value_unchanged() {
    let h = helper();
    let (key, value) = h.put("k\u{e9}y", "v\\n \"x\" \u{1f600}");
    assert_eq!(key, "k\u{e9}y".as_bytes().to_vec());
    assert_eq!(value, "v\\n \"x\" \u{1f600}".as_bytes().to_vec());
    let mut store: std::collections::BTreeMap<Vec<u8>, Vec<u8>> = std::collections::BTreeMap::new();
    store.insert(key.clone(), b"old".to_vec());
    store.insert(key.clone(), value.clone());
    let found = match store.get("k\u{e9}y".as_bytes()) {
        Some(v) => Lookup::Found(v.clone()),
        None => Lookup::Absent,
    };
    assert_eq!(h.get("k\u{e9}y", found, false), Ok(GetReport::Row { key, value }));
}

#[test]
fn delete_on_an_absent_key_is_not_found_and_no_error() {
    let h = helper();
    assert_eq!(h.delete("k", false, true), Ok(DeleteReport::NotFound));
    assert_eq!(h.delete("k", true, true), Ok(DeleteReport::Deleted));
}

#[test]
fn delete_that_the_store_rejects_is_an_error() {
    let h = helper();
    assert_eq!(h.delete("k", true, false), Err(StoreError));
    assert_eq!(h.delete("k", false, false), Err(StoreError));
}

#[test]
fn contains_stringkey_is_true_for_a_found_key_only() {
    let h = helper();
    assert_eq!(h.contains_stringkey(&Lookup::Found(Vec::new())), Ok(true));
    assert_eq!(h.contains_stringkey(&Lookup::Absent), Ok(false));
}

#[test]
fn contains_stringkey_passes_the_store_failure_on() {
    assert_eq!(helper().contains_stringkey(&Lookup::Failed), Err(StoreError));
}

#[test]
fn get_keys_honours_the_limit_exactly() {
    let h = helper();
    assert_eq!(h.get_keys(&letters(), 0), Vec::<String>::new());
    assert_eq!(h.get_keys(&letters(), 1), vec!["a"]);
    assert_eq!(h.get_keys(&letters(), 5), vec!["a", "b", "c", "d", "e"]);
    assert_eq!(h.get_keys(&letters(), 6), vec!["a", "b", "c", "d", "e", "f"]);
    assert_eq!(h.get_keys(&letters(), 7).len(), 6);
    assert_eq!(h.get_keys(&letters(), usize::MAX).len(), 6);
}

#[test]
fn get_keys_shows_binary_keys_lossily() {
    let entries: Vec<Pair> = vec![(vec![b'a', 0xff, b'b'], Vec::new())];
    assert_eq!(helper().get_keys(&entries, 10), vec!["a\u{fffd}b"]);
}

#[test]
fn json_report_prefers_the_decoded_string() {
    assert_eq!(
        json_report(b"k".to_vec(), "\"a\"".to_string(), Some("a".to_string())),
        GetReport::Row { key: b"k".to_vec(), value: b"a".to_vec() }
    );
    assert_eq!(
        json_report(b"k".to_vec(), "[1]".to_string(), None),
        GetReport::Text("[1]".to_string())
    );
}

#[test]
fn skip_failed_leaves_unreadable_items_out() {
    let items = vec![Some(pair("a", "1")), None, None, Some(pair("b", "2")), None];
    assert_eq!(skip_failed(items), vec![pair("a", "1"), pair("b", "2")]);
    assert!(skip_failed(vec![None]).is_empty());
    assert!(skip_failed(Vec::new()).is_empty());
}
