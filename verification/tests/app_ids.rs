use threshold_u2f::app_id::AppId;
use threshold_u2f::key_handle::KeyHandle;
use threshold_u2f::known_app_ids::{bogus_app_id_hash, from_url, known_facet_list, try_reverse_app_id, KnownAppIds};

const GITHUB: [u8; 32] = [
    112, 97, 125, 254, 208, 101, 134, 58, 244, 124, 21, 85, 108, 145, 121, 136, 128, 130, 140, 196, 7,
    253, 247, 10, 232, 80, 17, 86, 148, 101, 160, 117,
];

#[test]
fn from_url_is_sha256_of_the_url() {
    let id = from_url("https://github.com/u2f/trusted_facets").unwrap();
    assert_eq!(id.0, GITHUB);
    assert_eq!(id.to_base64(), "cGF9/tBlhjr0fBVVbJF5iICCjMQH/fcK6FARVpRloHU=");
}

#[test]
fn known_ids_reverse_to_their_site() {
    assert_eq!(try_reverse_app_id(&AppId(GITHUB)).unwrap(), Some("github.com".to_string()));
    for (url, name) in known_facet_list() {
        let id = from_url(url).unwrap();
        assert_eq!(try_reverse_app_id(&id).unwrap(), Some(name.to_string()), "url {}", url);
    }
}

#[test]
fn both_yubico_forms_name_the_same_site() {
    let a = from_url("https://demo.yubico.com").unwrap();
    let b = from_url("demo.yubico.com").unwrap();
    assert!(!a.same_as(&b));
    let table = KnownAppIds::build().unwrap();
    assert_eq!(table.reverse(&a), Some("demo.yubico.com".to_string()));
    assert_eq!(table.reverse(&b), Some("demo.yubico.com".to_string()));
}

#[test]
fn unknown_and_bogus_ids_reverse_to_nothing() {
    assert_eq!(try_reverse_app_id(&AppId([0u8; 32])).unwrap(), None);
    let bogus = bogus_app_id_hash();
    assert_eq!(bogus.0, [65u8; 32]);
    assert_eq!(try_reverse_app_id(&bogus).unwrap(), None);
    let other = from_url("https://example.com").unwrap();
    assert_eq!(try_reverse_app_id(&other).unwrap(), None);
}

#[test]
fn app_id_bytes_roundtrip() {
    let bytes: Vec<u8> = (0..32).collect();
    let id = AppId::from_bytes(&bytes);
    assert_eq!(id.as_bytes(), &bytes[..]);
    assert!(id.same_as(&AppId::from_bytes(&bytes)));
    assert!(!id.same_as(&AppId([0u8; 32])));
}

#[test]
fn key_handle_text() {
    let h = KeyHandle::from_bytes(&[1, 2, 3, 4]);
    assert_eq!(h.as_bytes(), &[1, 2, 3, 4]);
    assert!(h.fits_base64());
    assert_eq!(h.to_base64(), "AQIDBA==");
}

#[test]
fn registration_of_known_site_names_it() {
    let handle = KeyHandle(vec![1, 2, 3, 4]);
    let attrs = threshold_u2f::secret_store::registration_attributes(&AppId(GITHUB), &handle).unwrap();
    assert_eq!(attrs.len(), 7);
    assert_eq!(attrs[1], ("u2f_app_id_hash", "cGF9/tBlhjr0fBVVbJF5iICCjMQH/fcK6FARVpRloHU=".to_string()));
    assert_eq!(attrs[6], ("u2f_app_id", "github.com".to_string()));
}
