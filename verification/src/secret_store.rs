//! The key store kept in the desktop secret service (over D-Bus): one
//! item per registration, found again by its attributes.
use crate::app_id::AppId;
use crate::application_key::ApplicationKey;
use crate::attributes::{
    attrs_text, bump_times_used, names_distinct, registration_attributes_at,
    registration_attrs_spec, search_attrs_spec, search_attributes, sorted_by_name, static_attrs_text,
    has_name, lemma_bump_counts_use, times_used_can_grow, times_used_grows, times_used_name, token_label, token_label_spec, updated_attributes,
    AttrText,
};
use crate::encoding::base64_len_fits;
use crate::text::parse_u32;
use crate::key_handle::KeyHandle;
use crate::known_app_ids::{known_app_id_table, lookup_last, opt_text, try_reverse_app_id};
use crate::service_calls::{
    collection_create_item, collection_search_items, item_get_attributes, item_set_attributes,
    item_set_label, item_set_secret, AttributesRead, AttributesWritten, ItemCreated, LabelWritten,
    SecretWritten, Searched,
};
use vstd::prelude::*;

verus! {

/// A connection to the secret service.
#[verifier::external_type_specification]
#[verifier::external_body]
pub struct ExSecretService<'a>(secret_service::SecretService<'a>);

/// A collection of the secret service.
#[verifier::external_type_specification]
#[verifier::external_body]
pub struct ExCollection<'a>(secret_service::Collection<'a>);

/// An item of a collection.
#[verifier::external_type_specification]
#[verifier::external_body]
pub struct ExItem<'a>(secret_service::Item<'a>);

/// The error of the secret service calls.
#[verifier::external_type_specification]
#[verifier::external_body]
pub struct ExSecretServiceError(secret_service::Error);

/// A point in time of the system clock.
#[verifier::external_type_specification]
#[verifier::external_body]
pub struct ExSystemTime(std::time::SystemTime);

/// The error of a clock that reads before the Unix epoch.
#[verifier::external_type_specification]
#[verifier::external_body]
pub struct ExSystemTimeError(std::time::SystemTimeError);

/// How the session with the secret service protects the secrets in transit.
#[derive(Clone, Copy, Debug, PartialEq, Eq)]
pub enum SessionEncryption {
    /// Secrets travel in the clear.
    Plain,
    /// Secrets travel encrypted with a key agreed by Diffie-Hellman.
    Dh,
}

/// Calls `secret_service::SecretService::new` with the `EncryptionType` of
/// the same name as `encryption`: connects to the session bus and opens a
/// session. Nothing is stated: the outcome depends on the service.
#[verifier::external_body]
fn connect(encryption: SessionEncryption) -> Result<
    secret_service::SecretService<'static>,
    secret_service::Error,
> {
    match encryption {
        SessionEncryption::Plain => secret_service::SecretService::new(secret_service::EncryptionType::Plain),
        SessionEncryption::Dh => secret_service::SecretService::new(secret_service::EncryptionType::Dh),
    }
}

/// Calls `SecretService::get_default_collection`. Nothing is stated.
#[verifier::external_body]
fn default_collection<'a>(service: &'a secret_service::SecretService<'static>) -> Result<
    secret_service::Collection<'a>,
    secret_service::Error,
> {
    service.get_default_collection()
}

/// Calls `Collection::ensure_unlocked` (an error where the collection is
/// locked). Nothing is stated.
#[verifier::external_body]
fn collection_ensure_unlocked(collection: &secret_service::Collection<'_>) -> Result<
    (),
    secret_service::Error,
> {
    collection.ensure_unlocked()
}

/// Calls `std::time::SystemTime::now`. Nothing is stated: it reads the clock.
#[verifier::external_body]
fn clock_now() -> std::time::SystemTime {
    std::time::SystemTime::now()
}

/// Calls `SystemTime::duration_since(UNIX_EPOCH)` (an error where the time
/// lies before the epoch). Nothing is stated.
#[verifier::external_body]
fn since_unix_epoch(t: std::time::SystemTime) -> Result<
    std::time::Duration,
    std::time::SystemTimeError,
> {
    t.duration_since(std::time::UNIX_EPOCH)
}

/// Calls `Duration::as_secs` (the whole seconds of the duration). Nothing is
/// stated.
#[verifier::external_body]
fn whole_seconds(d: &std::time::Duration) -> u64 {
    d.as_secs()
}

/// Why an operation of the key store failed, by the step that failed; a
/// failed call to the secret service carries the service's error.
#[derive(Debug)]
pub enum StoreError {
    /// Opening the session with the secret service failed.
    Connect(secret_service::Error),
    /// The default collection could not be had.
    DefaultCollection(secret_service::Error),
    /// The collection is locked and could not be unlocked.
    Locked(secret_service::Error),
    /// Searching the collection failed.
    Search(secret_service::Error),
    /// Creating the item failed.
    CreateItem(secret_service::Error),
    /// Writing the secret of the item failed.
    SetSecret(secret_service::Error),
    /// Reading the attributes of the item failed.
    GetAttributes(secret_service::Error),
    /// Writing the attributes of the item failed.
    SetAttributes(secret_service::Error),
    /// Relabelling the item failed.
    SetLabel(secret_service::Error),
    /// The `times_used` attribute already holds the largest `u32`.
    TimesUsedOverflow,
    /// No item holds the registration.
    NotFound,
    /// The system clock reads before the Unix epoch.
    Clock,
    /// The app ids of the known sites could not be computed.
    Digest,
}

/// The content type of the secrets the store writes.
pub open spec fn secret_content_type() -> Seq<char> {
    "application/json"@
}

/// The content type of the secrets the store writes.
pub fn json_content_type() -> (r: &'static str)
    ensures
        r@ == secret_content_type(),
{
    "application/json"
}

/// The last of the items a search found, if any: the item that stands for
/// the registration when several match.
pub fn last_found<T>(items: Vec<T>) -> (r: Option<T>)
    ensures
        items@.len() == 0 ==> r is None,
        items@.len() > 0 ==> r == Some(items@.last()),
{
    let mut items = items;
    items.pop()
}

/// The item of a registration that must exist: the item found, else
/// `NotFound`.
pub fn found_or_not_found<T>(found: Option<T>) -> (r: Result<T, StoreError>)
    ensures
        found matches Some(x) ==> (r matches Ok(y) && y == x),
        found is None ==> (r matches Err(e) && e is NotFound),
{
    match found {
        Some(x) => Ok(x),
        None => Err(StoreError::NotFound),
    }
}

/// The registration time: the whole seconds since the Unix epoch by the
/// system clock.
fn registration_time() -> (r: Result<u64, StoreError>)
    ensures
        r matches Err(e) ==> e is Clock,
{
    let now = clock_now();
    match since_unix_epoch(now) {
        Ok(d) => Ok(whole_seconds(&d)),
        Err(_) => Err(StoreError::Clock),
    }
}

/// The site name of `app_id`, if it is a well-known one.
fn known_site(app_id: &AppId) -> (r: Result<Option<String>, StoreError>)
    ensures
        r matches Ok(o) ==> opt_text(o) == lookup_last(known_app_id_table(), app_id@),
        r matches Err(e) ==> e is Digest,
{
    match try_reverse_app_id(app_id) {
        Ok(o) => Ok(o),
        Err(_) => Err(StoreError::Digest),
    }
}

/// The attributes of a new registration of `handle` for `app_id`, dated
/// now by the system clock.
pub fn registration_attributes(app_id: &AppId, handle: &KeyHandle) -> (r: Result<
    Vec<(&'static str, String)>,
    StoreError,
>)
    requires
        base64_len_fits(handle@.len()),
    ensures
        r matches Ok(v) ==> exists|t: u64|
            static_attrs_text(v@) == #[trigger] registration_attrs_spec(
                app_id@,
                handle@,
                t as nat,
                lookup_last(known_app_id_table(), app_id@),
            ),
        r matches Err(e) ==> e is Clock || e is Digest,
{
    let since_epoch = registration_time()?;
    let site = known_site(app_id)?;
    let v = registration_attributes_at(app_id, handle, since_epoch, site);
    Ok(v)
}

/// A new item to create in the store.
pub struct NewItem {
    pub label: String,
    pub attributes: Vec<(&'static str, String)>,
    pub content_type: &'static str,
    pub replace: bool,
}

/// The item that a new registration of `key` is stored as, at
/// `since_epoch` seconds after the Unix epoch, for an application with the
/// given known site name: labelled after the application, carrying the
/// registration attributes, holding JSON, and never replacing an existing
/// item.
pub fn registration_item(key: &ApplicationKey, since_epoch: u64, site: Option<String>) -> (r: NewItem)
    requires
        base64_len_fits(key.handle@.len()),
    ensures
        r.label@ == token_label_spec(key.application@, opt_text(site)),
        static_attrs_text(r.attributes@) == registration_attrs_spec(
            key.application@,
            key.handle@,
            since_epoch as nat,
            opt_text(site),
        ),
        r.content_type@ == secret_content_type(),
        !r.replace,
{
    let label = token_label(&key.application, &site);
    let attributes = registration_attributes_at(&key.application, &key.handle, since_epoch, site);
    NewItem { label, attributes, content_type: json_content_type(), replace: false }
}

/// Searches `collection` for the registration of `handle` for `app_id`:
/// the search asks for the search attributes of the pair, and the item
/// found is the last of the items the search gave, none where it gave none.
pub fn search_registration<'a>(
    collection: &'a secret_service::Collection<'a>,
    app_id: &AppId,
    handle: &KeyHandle,
) -> (r: Result<(Option<secret_service::Item<'a>>, Searched<'a>), StoreError>)
    requires
        base64_len_fits(handle@.len()),
    ensures
        r matches Ok(found) ==> {
            &&& found.1.attributes() == search_attrs_spec(app_id@, handle@)
            &&& found.1.items().len() == 0 ==> found.0 is None
            &&& found.1.items().len() > 0 ==> found.0 == Some(found.1.items().last())
        },
        r matches Err(e) ==> e is Locked || e is Search,
{
    match collection_ensure_unlocked(collection) {
        Ok(()) => {},
        Err(e) => return Err(StoreError::Locked(e)),
    }
    let attributes = search_attributes(app_id, handle);
    match collection_search_items(collection, &attributes) {
        Ok((items, record)) => Ok((last_found(items), record)),
        Err(e) => Err(StoreError::Search(e)),
    }
}

/// The item that holds the registration of `handle` for `app_id` in
/// `collection`: the last one of those that carry its search attributes.
pub fn find_item<'a>(
    collection: &'a secret_service::Collection<'a>,
    app_id: &AppId,
    handle: &KeyHandle,
) -> (r: Result<Option<secret_service::Item<'a>>, StoreError>)
    requires
        base64_len_fits(handle@.len()),
    ensures
        r matches Err(e) ==> e is Locked || e is Search,
{
    match search_registration(collection, app_id, handle) {
        Ok((found, _)) => Ok(found),
        Err(e) => Err(e),
    }
}

/// The attributes to write back after one more use, given those the item
/// holds: an error where its `times_used` already holds the largest `u32`,
/// else the attributes with `times_used` advanced (or added as `"0"`), in
/// increasing order of name.
pub fn attributes_after_use(attributes: Vec<(String, String)>) -> (r: Result<
    Vec<(String, String)>,
    StoreError,
>)
    requires
        names_distinct(attrs_text(attributes@)),
    ensures
        r is Err <==> !times_used_can_grow(attrs_text(attributes@)),
        r matches Err(e) ==> e is TimesUsedOverflow,
        r matches Ok(v) ==> {
            &&& sorted_by_name(attrs_text(v@))
            &&& attrs_text(v@).len() == bump_times_used(attrs_text(attributes@)).len()
            &&& forall|a: AttrText|
                attrs_text(v@).contains(a) <==> bump_times_used(attrs_text(attributes@)).contains(
                    a,
                )
        },
{
    if !times_used_grows(&attributes) {
        return Err(StoreError::TimesUsedOverflow);
    }
    Ok(updated_attributes(attributes))
}

/// What is written to the item of a registration at a use, given the
/// attributes it holds and the known site name of the application: the
/// attributes after the use, and the label after the application.
pub struct UseUpdate {
    pub attributes: Vec<(String, String)>,
    pub label: String,
}

/// The update of a registration's item at a use, for `app_id` whose known
/// site name is `site`, given the attributes the item holds.
pub fn use_update(app_id: &AppId, site: Option<String>, attributes: Vec<(String, String)>) -> (r: Result<
    UseUpdate,
    StoreError,
>)
    requires
        names_distinct(attrs_text(attributes@)),
    ensures
        r is Err <==> !times_used_can_grow(attrs_text(attributes@)),
        r matches Err(e) ==> e is TimesUsedOverflow,
        r matches Ok(u) ==> {
            &&& u.label@ == token_label_spec(app_id@, opt_text(site))
            &&& sorted_by_name(attrs_text(u.attributes@))
            &&& attrs_text(u.attributes@).len() == bump_times_used(attrs_text(attributes@)).len()
            &&& forall|a: AttrText|
                attrs_text(u.attributes@).contains(a) <==> bump_times_used(
                    attrs_text(attributes@),
                ).contains(a)
        },
{
    let attributes = attributes_after_use(attributes)?;
    let label = token_label(app_id, &site);
    Ok(UseUpdate { attributes, label })
}

/// A key store kept in the secret service of the desktop session.
pub struct SecretServiceStore {
    service: secret_service::SecretService<'static>,
    encryption: SessionEncryption,
}

impl SecretServiceStore {
    /// The protection of the store's session with the secret service.
    pub closed spec fn session_encryption(&self) -> SessionEncryption {
        self.encryption
    }

    /// Connects to the secret service, with a Diffie-Hellman encrypted
    /// session.
    pub fn new() -> (r: Result<SecretServiceStore, StoreError>)
        ensures
            r matches Ok(store) ==> store.session_encryption() == SessionEncryption::Dh,
            r matches Err(e) ==> e is Connect,
    {
        let encryption = SessionEncryption::Dh;
        match connect(encryption) {
            Ok(service) => Ok(SecretServiceStore { service, encryption }),
            Err(e) => Err(StoreError::Connect(e)),
        }
    }

    /// The collection the store keeps its items in.
    pub fn collection(&self) -> (r: Result<secret_service::Collection<'_>, StoreError>)
        ensures
            r matches Err(e) ==> e is DefaultCollection,
    {
        match default_collection(&self.service) {
            Ok(c) => Ok(c),
            Err(e) => Err(StoreError::DefaultCollection(e)),
        }
    }

    /// Records one more use of the registration held by `item`, for
    /// `app_id`: writes `secret` (the record with its counter advanced) back
    /// as JSON, reads the item's attributes, and writes back the attributes
    /// and label that `use_update` gives for them. A success hands back the
    /// records of what was read and written: the secret written is `secret`;
    /// the attributes written are those read with `times_used` advanced,
    /// sorted by name; the label names the application.
    pub fn record_use(item: &secret_service::Item<'_>, app_id: &AppId, secret: &[u8]) -> (r: Result<
        UseRecorded,
        StoreError,
    >)
        ensures
            r matches Ok(u) ==> {
                &&& u.secret.secret() == secret@
                &&& u.secret.content_type() == secret_content_type()
                &&& names_distinct(u.read.attributes())
                &&& times_used_can_grow(u.read.attributes())
                &&& sorted_by_name(u.written.attributes())
                &&& u.written.attributes().len() == bump_times_used(u.read.attributes()).len()
                &&& forall|a: AttrText|
                    u.written.attributes().contains(a) <==> bump_times_used(
                        u.read.attributes(),
                    ).contains(a)
                &&& u.label.label() == token_label_spec(
                    app_id@,
                    lookup_last(known_app_id_table(), app_id@),
                )
            },
            r matches Err(e) ==> e is SetSecret || e is GetAttributes || e is TimesUsedOverflow
                || e is SetAttributes || e is Digest || e is SetLabel,
    {
        let secret_written = match item_set_secret(item, secret, json_content_type()) {
            Ok(w) => w,
            Err(e) => return Err(StoreError::SetSecret(e)),
        };
        let (attributes, read) = match item_get_attributes(item) {
            Ok(a) => a,
            Err(e) => return Err(StoreError::GetAttributes(e)),
        };
        if !times_used_grows(&attributes) {
            return Err(StoreError::TimesUsedOverflow);
        }
        let site = known_site(app_id)?;
        let update = use_update(app_id, site, attributes)?;
        let written = match item_set_attributes(item, &update.attributes) {
            Ok(w) => w,
            Err(e) => return Err(StoreError::SetAttributes(e)),
        };
        match item_set_label(item, update.label.as_str()) {
            Ok(label) => Ok(UseRecorded { secret: secret_written, read, written, label }),
            Err(e) => Err(StoreError::SetLabel(e)),
        }
    }

    /// Stores the registration of `key`, whose serialized secret record (the
    /// key, used zero times) is `secret`: creates, in the default collection,
    /// the item that `registration_item` gives, dated now. A success hands
    /// back the record of the item created: labelled after the application,
    /// carrying the registration attributes of the key at some time, holding
    /// `secret` as JSON, and replacing nothing.
    pub fn add_registration(&self, key: &ApplicationKey, secret: &[u8]) -> (r: Result<
        ItemCreated,
        StoreError,
    >)
        requires
            base64_len_fits(key.handle@.len()),
        ensures
            r matches Ok(c) ==> {
                &&& c.label() == token_label_spec(
                    key.application@,
                    lookup_last(known_app_id_table(), key.application@),
                )
                &&& exists|t: u64|
                    c.attributes() == #[trigger] registration_attrs_spec(
                        key.application@,
                        key.handle@,
                        t as nat,
                        lookup_last(known_app_id_table(), key.application@),
                    )
                &&& c.secret() == secret@
                &&& c.content_type() == secret_content_type()
                &&& !c.replace()
            },
            r matches Err(e) ==> e is DefaultCollection || e is Locked || e is Clock || e is Digest
                || e is CreateItem,
    {
        let collection = self.collection()?;
        match collection_ensure_unlocked(&collection) {
            Ok(()) => {},
            Err(e) => return Err(StoreError::Locked(e)),
        }
        let since_epoch = registration_time()?;
        let site = known_site(&key.application)?;
        let item = registration_item(key, since_epoch, site);
        match collection_create_item(
            &collection,
            item.label.as_str(),
            &item.attributes,
            secret,
            item.replace,
            item.content_type,
        ) {
            Ok(created) => Ok(created),
            Err(e) => Err(StoreError::CreateItem(e)),
        }
    }

    /// Stores the registration of `key`, whose serialized secret record
    /// (the key, used zero times) is `secret`: `add_registration`, without
    /// its record.
    pub fn try_add_application_key(&self, key: &ApplicationKey, secret: &[u8]) -> (r: Result<
        (),
        StoreError,
    >)
        requires
            base64_len_fits(key.handle@.len()),
        ensures
            r matches Err(e) ==> e is DefaultCollection || e is Locked || e is Clock || e is Digest
                || e is CreateItem,
    {
        match self.add_registration(key, secret) {
            Ok(_) => Ok(()),
            Err(e) => Err(e),
        }
    }
}

/// What the records of a use say of the use count: where the attributes
/// written hold exactly those read with `times_used` advanced, the written
/// `times_used` reads as the count read plus one (zero where there was no
/// count), and every other attribute is written back as it was read.
pub proof fn lemma_recorded_use_counts(read: Seq<AttrText>, written: Seq<AttrText>)
    requires
        names_distinct(read),
        times_used_can_grow(read),
        forall|a: AttrText| written.contains(a) <==> bump_times_used(read).contains(a),
    ensures
        exists|i: int|
            0 <= i < written.len() && written[i].0 == times_used_name() && parse_u32(
                #[trigger] written[i].1,
            ) == Some(
                if has_name(read, times_used_name()) {
                    let k = choose|k: int| 0 <= k < read.len() && read[k].0 == times_used_name();
                    (match parse_u32(read[k].1) {
                        Some(n) => n,
                        None => 0,
                    }) + 1
                } else {
                    0
                },
            ),
        forall|a: AttrText| a.0 != times_used_name() ==> (read.contains(a) <==> written.contains(a)),
{
    lemma_bump_counts_use(read);
    let b = bump_times_used(read);
    let i = choose|i: int|
        0 <= i < b.len() && b[i].0 == times_used_name() && parse_u32(#[trigger] b[i].1) == Some(
            if has_name(read, times_used_name()) {
                let k = choose|k: int| 0 <= k < read.len() && read[k].0 == times_used_name();
                (match parse_u32(read[k].1) {
                    Some(n) => n,
                    None => 0,
                }) + 1
            } else {
                0
            },
        );
    assert(b.contains(b[i]));
    assert(written.contains(b[i]));
    let j = choose|j: int| 0 <= j < written.len() && written[j] == b[i];
    assert(parse_u32(written[j].1) == parse_u32(b[i].1));
}

/// The records of one use of a registration: the secret written, the
/// attributes read and written, and the label written.
pub struct UseRecorded {
    pub secret: SecretWritten,
    pub read: AttributesRead,
    pub written: AttributesWritten,
    pub label: LabelWritten,
}

} // verus!
