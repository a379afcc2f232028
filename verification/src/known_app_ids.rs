//! Reverse lookup of the application ids of well-known U2F sites.
use crate::app_id::AppId;
use crate::digest::{openssl_sha256, sha256_digest};
use vstd::prelude::*;
use vstd::string::StringSliceAdditionalSpecFns;

verus! {

/// Why a digest could not be computed.
#[derive(Clone, Copy, Debug, PartialEq, Eq)]
pub enum DigestError {
    /// OpenSSL reported an error while hashing.
    OpenSsl,
}

/// Known bogus hash. Chrome will try to register with this hash after certain
/// failures, such as authentication failing because no key matches: 32 bytes
/// of `'A'` (65).
pub fn bogus_app_id_hash() -> (r: AppId)
    ensures
        r@ == Seq::new(32, |i: int| 65u8),
{
    let r = AppId([65u8; 32]);
    assert(r@ =~= Seq::new(32, |i: int| 65u8));
    r
}

/// The facets whose app ids can be named: each URL with the name of its site,
/// in the order of registration (a later entry wins over an earlier one with
/// the same app id).
pub open spec fn known_facets() -> Seq<(&'static str, &'static str)> {
    seq![
        ("https://github.com/u2f/trusted_facets", "github.com"),
        ("https://demo.yubico.com", "demo.yubico.com"),
        ("https://www.dropbox.com/u2f-app-id.json", "dropbox.com"),
        ("https://www.gstatic.com/securitykey/origins.json", "google.com"),
        ("https://vault.bitwarden.com/app-id.json", "vault.bitwarden.com"),
        ("https://keepersecurity.com", "keepersecurity.com"),
        ("https://api-9dcf9b83.duosecurity.com", "duosecurity.com"),
        ("https://dashboard.stripe.com", "dashboard.stripe.com"),
        ("https://id.fedoraproject.org/u2f-origins.json", "id.fedoraproject.org"),
        ("https://lastpass.com", "lastpass.com"),
        ("bin.coffee", "bin.coffee"),
        ("coinbase.com", "coinbase.com"),
        ("demo.yubico.com", "demo.yubico.com"),
        ("https://gitlab.com", "gitlab.com"),
        ("https://mdp.github.io", "mdp.github.io"),
        ("https://u2f.bin.coffee", "u2f.bin.coffee"),
        ("https://www.fastmail.com", "www.fastmail.com"),
        ("webauthn.bin.coffee", "webauthn.bin.coffee"),
        ("webauthn.io", "webauthn.io"),
        ("https://www.bitfinex.com", "bitfinex.com"),
    ]
}

/// The app id of a facet URL: the SHA-256 digest of its UTF-8 bytes.
pub open spec fn url_app_id(url: &str) -> Seq<u8> {
    sha256_digest(url.spec_bytes())
}

/// The name that `table` gives `id`: that of its last entry with this id.
pub open spec fn lookup_last(table: Seq<(Seq<u8>, Seq<char>)>, id: Seq<u8>) -> Option<Seq<char>>
    decreases table.len(),
{
    if table.len() == 0 {
        None
    } else if table.last().0 == id {
        Some(table.last().1)
    } else {
        lookup_last(table.drop_last(), id)
    }
}

/// A table names `id` by its last entry with that id, and by nothing where
/// no entry has it.
pub proof fn lemma_lookup_last(table: Seq<(Seq<u8>, Seq<char>)>, id: Seq<u8>)
    ensures
        lookup_last(table, id) is None <==> forall|k: int| 0 <= k < table.len() ==> table[k].0 != id,
        forall|i: int|
            0 <= i < table.len() && table[i].0 == id && (forall|j: int|
                i < j < table.len() ==> table[j].0 != id) ==> lookup_last(table, id) == Some(
                table[i].1,
            ),
    decreases table.len(),
{
    if table.len() > 0 {
        let rest = table.drop_last();
        lemma_lookup_last(rest, id);
        assert forall|k: int| 0 <= k < rest.len() implies rest[k] == table[k] by {}
        if table.last().0 != id {
            assert forall|i: int|
                0 <= i < table.len() && table[i].0 == id && (forall|j: int|
                    i < j < table.len() ==> table[j].0 != id) implies lookup_last(table, id)
                == Some(table[i].1) by {
                assert(i < rest.len());
                assert forall|j: int| i < j < rest.len() implies rest[j].0 != id by {
                    assert(table[j].0 != id);
                }
            }
        }
    }
}

/// The known facets with each URL replaced by its app id.
pub open spec fn known_app_id_table() -> Seq<(Seq<u8>, Seq<char>)> {
    known_facets().map_values(|e: (&'static str, &'static str)| (url_app_id(e.0), e.1@))
}

/// The app id of a known facet URL, when no later known URL has the same
/// app id, reverses to that facet's site name.
pub proof fn lemma_known_facet_reverses(i: int)
    requires
        0 <= i < known_facets().len(),
        forall|j: int|
            i < j < known_facets().len() ==> url_app_id(known_facets()[j].0) != url_app_id(
                known_facets()[i].0,
            ),
    ensures
        lookup_last(known_app_id_table(), url_app_id(known_facets()[i].0)) == Some(
            known_facets()[i].1@,
        ),
{
    let t = known_app_id_table();
    let id = url_app_id(known_facets()[i].0);
    assert forall|j: int| i < j < t.len() implies t[j].0 != id by {
        assert(t[j].0 == url_app_id(known_facets()[j].0));
    }
    assert(t[i] == (id, known_facets()[i].1@));
    lemma_lookup_last(t, id);
}

/// The known facets are the twenty URLs of the well-known U2F sites, each
/// with its site name, in this order.
pub proof fn lemma_known_facets_contents()
    ensures
        known_facets().len() == 20,
        known_facets()[0].0@ == "https://github.com/u2f/trusted_facets"@ && known_facets()[0].1@ == "github.com"@,
        known_facets()[1].0@ == "https://demo.yubico.com"@ && known_facets()[1].1@ == "demo.yubico.com"@,
        known_facets()[2].0@ == "https://www.dropbox.com/u2f-app-id.json"@ && known_facets()[2].1@ == "dropbox.com"@,
        known_facets()[3].0@ == "https://www.gstatic.com/securitykey/origins.json"@ && known_facets()[3].1@ == "google.com"@,
        known_facets()[4].0@ == "https://vault.bitwarden.com/app-id.json"@ && known_facets()[4].1@ == "vault.bitwarden.com"@,
        known_facets()[5].0@ == "https://keepersecurity.com"@ && known_facets()[5].1@ == "keepersecurity.com"@,
        known_facets()[6].0@ == "https://api-9dcf9b83.duosecurity.com"@ && known_facets()[6].1@ == "duosecurity.com"@,
        known_facets()[7].0@ == "https://dashboard.stripe.com"@ && known_facets()[7].1@ == "dashboard.stripe.com"@,
        known_facets()[8].0@ == "https://id.fedoraproject.org/u2f-origins.json"@ && known_facets()[8].1@ == "id.fedoraproject.org"@,
        known_facets()[9].0@ == "https://lastpass.com"@ && known_facets()[9].1@ == "lastpass.com"@,
        known_facets()[10].0@ == "bin.coffee"@ && known_facets()[10].1@ == "bin.coffee"@,
        known_facets()[11].0@ == "coinbase.com"@ && known_facets()[11].1@ == "coinbase.com"@,
        known_facets()[12].0@ == "demo.yubico.com"@ && known_facets()[12].1@ == "demo.yubico.com"@,
        known_facets()[13].0@ == "https://gitlab.com"@ && known_facets()[13].1@ == "gitlab.com"@,
        known_facets()[14].0@ == "https://mdp.github.io"@ && known_facets()[14].1@ == "mdp.github.io"@,
        known_facets()[15].0@ == "https://u2f.bin.coffee"@ && known_facets()[15].1@ == "u2f.bin.coffee"@,
        known_facets()[16].0@ == "https://www.fastmail.com"@ && known_facets()[16].1@ == "www.fastmail.com"@,
        known_facets()[17].0@ == "webauthn.bin.coffee"@ && known_facets()[17].1@ == "webauthn.bin.coffee"@,
        known_facets()[18].0@ == "webauthn.io"@ && known_facets()[18].1@ == "webauthn.io"@,
        known_facets()[19].0@ == "https://www.bitfinex.com"@ && known_facets()[19].1@ == "bitfinex.com"@,
{
}

/// Every URL of the known facets reverses to its site name (where no later
/// known URL has the same app id): the app id of Google's security-key
/// facet reverses to `google.com`, that of GitHub's to `github.com`, and so on.
pub proof fn lemma_known_url_reverses_to_site(url: &str, site: &str)
    requires
        exists|i: int|
            0 <= i < known_facets().len() && known_facets()[i].0@ == url@ && known_facets()[i].1@
                == site@ && forall|j: int|
                i < j < known_facets().len() ==> url_app_id(#[trigger] known_facets()[j].0)
                    != url_app_id(url),
    ensures
        lookup_last(known_app_id_table(), url_app_id(url)) == Some(site@),
{
    let i = choose|i: int|
        0 <= i < known_facets().len() && known_facets()[i].0@ == url@ && known_facets()[i].1@
            == site@ && forall|j: int|
            i < j < known_facets().len() ==> url_app_id(#[trigger] known_facets()[j].0)
                != url_app_id(url);
    assert(url_app_id(known_facets()[i].0) == url_app_id(url));
    lemma_known_facet_reverses(i);
}

/// An app id that no known facet URL has reverses to nothing.
pub proof fn lemma_unknown_app_id(id: Seq<u8>)
    requires
        forall|j: int| 0 <= j < known_facets().len() ==> url_app_id(known_facets()[j].0) != id,
    ensures
        lookup_last(known_app_id_table(), id) is None,
{
    let t = known_app_id_table();
    assert forall|k: int| 0 <= k < t.len() implies t[k].0 != id by {
        assert(t[k].0 == url_app_id(known_facets()[k].0));
    }
    lemma_lookup_last(t, id);
}

/// The text of an optional string.
pub open spec fn opt_text(o: Option<String>) -> Option<Seq<char>> {
    match o {
        Some(s) => Some(s@),
        None => None,
    }
}

/// The list of known facets.
pub fn known_facet_list() -> (r: Vec<(&'static str, &'static str)>)
    ensures
        r@ == known_facets(),
{
    let r = vec![
        ("https://github.com/u2f/trusted_facets", "github.com"),
        ("https://demo.yubico.com", "demo.yubico.com"),
        ("https://www.dropbox.com/u2f-app-id.json", "dropbox.com"),
        ("https://www.gstatic.com/securitykey/origins.json", "google.com"),
        ("https://vault.bitwarden.com/app-id.json", "vault.bitwarden.com"),
        ("https://keepersecurity.com", "keepersecurity.com"),
        ("https://api-9dcf9b83.duosecurity.com", "duosecurity.com"),
        ("https://dashboard.stripe.com", "dashboard.stripe.com"),
        ("https://id.fedoraproject.org/u2f-origins.json", "id.fedoraproject.org"),
        ("https://lastpass.com", "lastpass.com"),
        ("bin.coffee", "bin.coffee"),
        ("coinbase.com", "coinbase.com"),
        ("demo.yubico.com", "demo.yubico.com"),
        ("https://gitlab.com", "gitlab.com"),
        ("https://mdp.github.io", "mdp.github.io"),
        ("https://u2f.bin.coffee", "u2f.bin.coffee"),
        ("https://www.fastmail.com", "www.fastmail.com"),
        ("webauthn.bin.coffee", "webauthn.bin.coffee"),
        ("webauthn.io", "webauthn.io"),
        ("https://www.bitfinex.com", "bitfinex.com"),
    ];
    assert(r@ =~= known_facets());
    r
}

/// The app id of a facet URL.
pub fn from_url(url: &str) -> (r: Result<AppId, DigestError>)
    ensures
        r matches Ok(id) ==> id@ == url_app_id(url),
{
    match openssl_sha256(url.as_bytes()) {
        Ok(digest) => Ok(AppId::from_bytes(digest.as_slice())),
        Err(_) => Err(DigestError::OpenSsl),
    }
}

/// The table of known app ids, each with the name of its site.
pub struct KnownAppIds {
    entries: Vec<(AppId, &'static str)>,
}

impl View for KnownAppIds {
    type V = Seq<(Seq<u8>, Seq<char>)>;

    closed spec fn view(&self) -> Seq<(Seq<u8>, Seq<char>)> {
        self.entries@.map_values(|e: (AppId, &'static str)| (e.0@, e.1@))
    }
}

impl KnownAppIds {
    /// Hashes the URL of every known facet.
    pub fn build() -> (r: Result<KnownAppIds, DigestError>)
        ensures
            r matches Ok(t) ==> t@ == known_app_id_table(),
    {
        let facets = known_facet_list();
        let mut entries: Vec<(AppId, &'static str)> = Vec::new();
        let mut i: usize = 0;
        while i < facets.len()
            invariant
                facets@ == known_facets(),
                i <= facets@.len(),
                entries@.len() == i,
                forall|j: int|
                    0 <= j < i ==> (#[trigger] entries@[j]).0@ == url_app_id(facets@[j].0)
                        && entries@[j].1 == facets@[j].1,
            decreases facets@.len() - i,
        {
            let (url, name) = facets[i];
            let id = from_url(url)?;
            entries.push((id, name));
            i = i + 1;
        }
        let t = KnownAppIds { entries };
        assert(t@ =~= known_app_id_table());
        Ok(t)
    }

    /// The name of the site whose app id is `app_id`, if it is known.
    pub fn reverse(&self, app_id: &AppId) -> (r: Option<String>)
        ensures
            opt_text(r) == lookup_last(self@, app_id@),
    {
        let mut i: usize = self.entries.len();
        assert(self@.subrange(0, i as int) =~= self@);
        while i > 0
            invariant
                i <= self.entries@.len(),
                lookup_last(self@, app_id@) == lookup_last(self@.subrange(0, i as int), app_id@),
            decreases i,
        {
            let ghost prefix = self@.subrange(0, i as int);
            assert(prefix.drop_last() =~= self@.subrange(0, i - 1));
            let (id, name) = self.entries[i - 1];
            assert(prefix.last() == (id@, name@));
            if id.same_as(app_id) {
                return Some(String::from_str(name));
            }
            i = i - 1;
        }
        assert(self@.subrange(0, 0) =~= Seq::<(Seq<u8>, Seq<char>)>::empty());
        None
    }
}

/// The name of a well-known site whose app id is `app_id`; an error where
/// OpenSSL cannot hash the known URLs.
pub fn try_reverse_app_id(app_id: &AppId) -> (r: Result<Option<String>, DigestError>)
    ensures
        r matches Ok(o) ==> opt_text(o) == lookup_last(known_app_id_table(), app_id@),
{
    let table = KnownAppIds::build()?;
    Ok(table.reverse(app_id))
}

} // verus!
