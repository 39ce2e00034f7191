use heating_manager::identity::{client_id, fresh_client_id, random_suffix, SUFFIX_LEN};

#[test]
fn suffix_has_seven_alphanumeric_characters() {
    assert_eq!(SUFFIX_LEN, 7);
    for _ in 0..200 {
        let s = random_suffix();
        assert_eq!(s.chars().count(), 7);
        assert!(s.chars().all(|c| c.is_ascii_alphanumeric()));
    }
}

#[test]
fn suffixes_vary() {
    let first = random_suffix();
    let mut differs = false;
    for _ in 0..50 {
        if random_suffix() != first {
            differs = true;
        }
    }
    assert!(differs);
}

#[test]
fn client_id_joins_the_parts() {
    assert_eq!(client_id("abc1234"), "home-faerie-heating-manager-abc1234");
    assert_eq!(client_id(""), "home-faerie-heating-manager-");
}

#[test]
fn fresh_client_id_has_prefix_and_suffix() {
    let id = fresh_client_id();
    let suffix = id.strip_prefix("home-faerie-heating-manager-").expect("the fixed prefix");
    assert_eq!(suffix.len(), 7);
    assert!(suffix.chars().all(|c| c.is_ascii_alphanumeric()));
}
