use conduit::auth::provided_key;

fn header(text: &str) -> Option<Vec<u8>> {
    Some(text.as_bytes().to_vec())
}

#[test]
fn reads_the_bearer_key() {
    assert_eq!(provided_key(&header("Bearer tutu")), Some("tutu".to_string()));
    assert_eq!(provided_key(&header("Bearer  a b")), Some(" a b".to_string()));
    assert_eq!(provided_key(&header("Bearer ")), Some(String::new()));
}

#[test]
fn other_headers_show_no_key() {
    assert_eq!(provided_key(&None), None);
    assert_eq!(provided_key(&header("tutu")), None);
    assert_eq!(provided_key(&header("Basic tutu")), None);
    assert_eq!(provided_key(&header("bearer tutu")), None);
}

#[test]
fn invisible_bytes_show_no_key() {
    assert_eq!(provided_key(&Some(b"Bearer tu\xfftu".to_vec())), None);
    assert_eq!(provided_key(&Some(b"Bearer tu\ntu".to_vec())), None);
    assert_eq!(provided_key(&Some(b"Bearer tu\x7ftu".to_vec())), None);
    assert_eq!(provided_key(&Some(b"Bearer tu\ttu".to_vec())), Some("tu\ttu".to_string()));
}
