use asset_extension::pagination::PageRequest;

#[test]
fn new_request_sets_nothing() {
    let r = PageRequest::new();
    assert_eq!(r.key, None);
    assert_eq!(r.offset, None);
    assert_eq!(r.limit, None);
    assert_eq!(r.count_total, None);
    assert_eq!(r.reverse, None);
}

#[test]
fn builders_set_one_field_each() {
    let r = PageRequest::new().key("k1".to_string());
    assert_eq!(
        r,
        PageRequest {
            key: Some("k1".to_string()),
            offset: None,
            limit: None,
            count_total: None,
            reverse: None
        }
    );
    let r = PageRequest::new().offset(7);
    assert_eq!(r.offset, Some(7));
    assert_eq!(r.limit, None);
    let r = PageRequest::new().limit(9);
    assert_eq!(r.limit, Some(9));
    assert_eq!(r.offset, None);
    let r = PageRequest::new().count_total();
    assert_eq!(r.count_total, Some(true));
    assert_eq!(r.reverse, None);
    let r = PageRequest::new().reverse();
    assert_eq!(r.reverse, Some(true));
    assert_eq!(r.count_total, None);
}

#[test]
fn builders_keep_what_was_set() {
    let r = PageRequest::new().key("k".to_string()).offset(1).limit(2).count_total().reverse();
    assert_eq!(
        r,
        PageRequest {
            key: Some("k".to_string()),
            offset: Some(1),
            limit: Some(2),
            count_total: Some(true),
            reverse: Some(true)
        }
    );
    let r = r.offset(5).key("z".to_string());
    assert_eq!(r.offset, Some(5));
    assert_eq!(r.key, Some("z".to_string()));
    assert_eq!(r.limit, Some(2));
}
