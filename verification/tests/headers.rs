use spider_rs::headers::header_map;

fn pair(k: &str, v: &str) -> (String, String) {
    (k.to_string(), v.to_string())
}

#[test]
fn valid_pairs_are_kept_with_small_names() {
    let map = header_map(&vec![
        pair("Authorization", "jwt"),
        pair("bad name", "x"),
        pair("X-Tab", "a\tb"),
        pair("ok", "bad\u{7f}"),
        pair("Accept", "ü"),
        pair("", "empty name"),
    ]);
    assert_eq!(map.len(), 3);
    assert_eq!(map.get("authorization").unwrap().as_bytes(), b"jwt");
    assert_eq!(map.get("x-tab").unwrap().as_bytes(), b"a\tb");
    assert_eq!(map.get("accept").unwrap().as_bytes(), "ü".as_bytes());
    assert!(map.get("ok").is_none());
}

#[test]
fn repeated_names_keep_every_value() {
    let map = header_map(&vec![pair("a", "1"), pair("A", "2")]);
    assert_eq!(map.len(), 2);
    let values: Vec<&[u8]> = map.get_all("a").iter().map(|v| v.as_bytes()).collect();
    assert_eq!(values, vec![b"1".as_ref(), b"2".as_ref()]);
}

#[test]
fn no_pairs_give_an_empty_map() {
    assert!(header_map(&vec![]).is_empty());
}

#[test]
fn distinct_names_keep_their_order() {
    let map = header_map(&vec![pair("b", "1"), pair("A", "2"), pair("bad name", "x"), pair("c", "3")]);
    let names: Vec<&str> = map.iter().map(|(k, _)| k.as_str()).collect();
    assert_eq!(names, vec!["b", "a", "c"]);
}

#[test]
fn values_of_a_repeated_name_stay_together() {
    let map = header_map(&vec![pair("a", "1"), pair("b", "2"), pair("A", "3")]);
    let entries: Vec<(&str, &[u8])> = map.iter().map(|(k, v)| (k.as_str(), v.as_bytes())).collect();
    assert_eq!(entries, vec![("a", b"1".as_ref()), ("a", b"3".as_ref()), ("b", b"2".as_ref())]);
}
