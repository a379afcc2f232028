use threshold_u2f::app_id::AppId;
use threshold_u2f::attributes::{
    registration_attributes_at, search_attributes, sort_by_name, times_used_grows, token_label,
    updated_attributes, with_times_used_bumped,
};
use threshold_u2f::key_handle::KeyHandle;
use threshold_u2f::application_key::{ApplicationKey, PrivateShare};
use threshold_u2f::secret_store::{attributes_after_use, found_or_not_found, last_found, use_update, registration_attributes, registration_item, StoreError};

fn pairs(v: &[(&str, &str)]) -> Vec<(String, String)> {
    v.iter().map(|(k, x)| (k.to_string(), x.to_string())).collect()
}

fn owned(v: Vec<(&'static str, String)>) -> Vec<(String, String)> {
    v.into_iter().map(|(k, x)| (k.to_string(), x)).collect()
}

#[test]
fn todo() {}

#[test]
fn search_attributes_of_zero_id_and_short_handle() {
    let app = AppId([0u8; 32]);
    let handle = KeyHandle(vec![1, 2, 3, 4]);
    let attrs = owned(search_attributes(&app, &handle));
    assert_eq!(
        attrs,
        pairs(&[
            ("application", "com.github.danstiner.rust-u2f"),
            ("u2f_app_id_hash", "AAAAAAAAAAAAAAAAAAAAAAAAAAAAAAAAAAAAAAAAAAA="),
            ("u2f_key_handle", "AQIDBA=="),
            ("xdg:schem", "com.github.danstiner.rust-u2f"),
        ])
    );
}

#[test]
fn registration_attributes_with_known_site() {
    let app = AppId([0u8; 32]);
    let handle = KeyHandle(vec![1, 2, 3, 4]);
    let attrs = owned(registration_attributes_at(&app, &handle, 1577836800, Some("github.com".to_string())));
    assert_eq!(
        attrs,
        pairs(&[
            ("application", "com.github.danstiner.rust-u2f"),
            ("u2f_app_id_hash", "AAAAAAAAAAAAAAAAAAAAAAAAAAAAAAAAAAAAAAAAAAA="),
            ("u2f_key_handle", "AQIDBA=="),
            ("xdg:schem", "com.github.danstiner.rust-u2f"),
            ("times_used", "0"),
            ("date_registered", "1577836800"),
            ("u2f_app_id", "github.com"),
        ])
    );
}

#[test]
fn registration_attributes_of_unknown_site() {
    let app = AppId([0u8; 32]);
    let handle = KeyHandle(vec![]);
    let attrs = owned(registration_attributes_at(&app, &handle, 0, None));
    assert_eq!(attrs.len(), 6);
    assert_eq!(attrs[2], ("u2f_key_handle".to_string(), "".to_string()));
    assert_eq!(attrs[5], ("date_registered".to_string(), "0".to_string()));
}

#[test]
fn registration_attributes_now_starts_with_search_attributes() {
    let app = AppId([0u8; 32]);
    let handle = KeyHandle(vec![9; 16]);
    let search = owned(search_attributes(&app, &handle));
    let reg = owned(registration_attributes(&app, &handle).unwrap());
    assert_eq!(reg.len(), 6);
    assert_eq!(&reg[..4], &search[..]);
    assert_eq!(reg[4], ("times_used".to_string(), "0".to_string()));
    assert_eq!(reg[5].0, "date_registered");
    let secs: u64 = reg[5].1.parse().unwrap();
    assert!(secs > 1_500_000_000);
}

#[test]
fn label_names_known_site_or_base64() {
    let app = AppId([65u8; 32]);
    assert_eq!(
        token_label(&app, &Some("github.com".to_string())),
        "Universal 2nd Factor token for github.com"
    );
    assert_eq!(
        token_label(&app, &None),
        "Universal 2nd Factor token for QUFBQUFBQUFBQUFBQUFBQUFBQUFBQUFBQUFBQUFBQUE="
    );
}

#[test]
fn times_used_advances_and_attributes_sort() {
    let attrs = pairs(&[("xdg:schem", "s"), ("times_used", "41"), ("application", "a")]);
    let out = updated_attributes(attrs);
    assert_eq!(out, pairs(&[("application", "a"), ("times_used", "42"), ("xdg:schem", "s")]));
}

#[test]
fn times_used_added_when_missing() {
    let attrs = pairs(&[("b", "2"), ("a", "1")]);
    let out = updated_attributes(attrs);
    assert_eq!(out, pairs(&[("a", "1"), ("b", "2"), ("times_used", "0")]));
}

#[test]
fn times_used_unreadable_counts_from_zero() {
    let out = with_times_used_bumped(pairs(&[("times_used", "many")]));
    assert_eq!(out, pairs(&[("times_used", "1")]));
    let out = with_times_used_bumped(pairs(&[("times_used", "+7")]));
    assert_eq!(out, pairs(&[("times_used", "8")]));
    let out = with_times_used_bumped(pairs(&[("times_used", "-7")]));
    assert_eq!(out, pairs(&[("times_used", "1")]));
}

#[test]
fn times_used_at_largest_count_cannot_grow() {
    assert!(!times_used_grows(&pairs(&[("times_used", "4294967295")])));
    assert!(times_used_grows(&pairs(&[("times_used", "4294967294")])));
    assert!(times_used_grows(&pairs(&[("times_used", "4294967296")])));
    assert!(times_used_grows(&pairs(&[])));
    let out = with_times_used_bumped(pairs(&[("times_used", "4294967294")]));
    assert_eq!(out, pairs(&[("times_used", "4294967295")]));
}

#[test]
fn sort_orders_as_rust_strings() {
    let attrs = pairs(&[("b", "1"), ("B", "2"), ("ab", "3"), ("a", "4"), ("é", "5"), ("", "6")]);
    let mut expected = attrs.clone();
    expected.sort();
    assert_eq!(sort_by_name(attrs), expected);
}

#[test]
fn last_found_takes_the_last_item() {
    assert_eq!(last_found(vec![1, 2, 3]), Some(3));
    assert_eq!(last_found::<u8>(vec![]), None);
}

#[test]
fn missing_item_is_not_found() {
    assert!(matches!(found_or_not_found::<u8>(None), Err(StoreError::NotFound)));
    assert!(matches!(found_or_not_found(Some(4u8)), Ok(4)));
}

#[test]
fn use_update_relabels_and_counts() {
    let u = use_update(&AppId([0u8; 32]), Some("github.com".to_string()), pairs(&[("times_used", "0"), ("a", "x")])).unwrap();
    assert_eq!(u.label, "Universal 2nd Factor token for github.com");
    assert_eq!(u.attributes, pairs(&[("a", "x"), ("times_used", "1")]));
    let u = use_update(&AppId([65u8; 32]), None, pairs(&[])).unwrap();
    assert_eq!(u.label, "Universal 2nd Factor token for QUFBQUFBQUFBQUFBQUFBQUFBQUFBQUFBQUFBQUFBQUE=");
    assert_eq!(u.attributes, pairs(&[("times_used", "0")]));
    assert!(matches!(
        use_update(&AppId([0u8; 32]), None, pairs(&[("times_used", "4294967295")])),
        Err(StoreError::TimesUsedOverflow)
    ));
}

#[test]
fn registration_item_labels_and_attributes() {
    let key = ApplicationKey::new(
        AppId([0u8; 32]),
        KeyHandle(vec![1, 2, 3, 4]),
        PrivateShare { id: "x".to_string(), master_key: "{}".to_string() },
    );
    let item = registration_item(&key, 42, None);
    assert_eq!(item.content_type, "application/json");
    assert!(!item.replace);
    let (label, attrs) = (item.label, item.attributes);
    assert_eq!(label, "Universal 2nd Factor token for AAAAAAAAAAAAAAAAAAAAAAAAAAAAAAAAAAAAAAAAAAA=");
    assert_eq!(
        owned(attrs),
        pairs(&[
            ("application", "com.github.danstiner.rust-u2f"),
            ("u2f_app_id_hash", "AAAAAAAAAAAAAAAAAAAAAAAAAAAAAAAAAAAAAAAAAAA="),
            ("u2f_key_handle", "AQIDBA=="),
            ("xdg:schem", "com.github.danstiner.rust-u2f"),
            ("times_used", "0"),
            ("date_registered", "42"),
        ])
    );
}

#[test]
fn attributes_after_use_advances_or_refuses() {
    let out = attributes_after_use(pairs(&[("z", "1"), ("times_used", "9")])).unwrap();
    assert_eq!(out, pairs(&[("times_used", "10"), ("z", "1")]));
    assert!(matches!(
        attributes_after_use(pairs(&[("times_used", "4294967295")])),
        Err(StoreError::TimesUsedOverflow)
    ));
}
