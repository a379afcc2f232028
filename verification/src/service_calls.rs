//! The secret-service calls that read or write the items of the store.
//! Each call that succeeds hands back a record of what it read or wrote;
//! only these calls can make such records.
use crate::attributes::{attrs_text, names_distinct, static_attrs_text, AttrText};
use std::collections::HashMap;
use vstd::prelude::*;

verus! {

/// Record of a search of a collection: the attributes searched for and the
/// items found.
pub struct Searched<'a> {
    attributes: Ghost<Seq<AttrText>>,
    items: Ghost<Seq<secret_service::Item<'a>>>,
}

impl<'a> Searched<'a> {
    /// The attributes searched for.
    pub closed spec fn attributes(&self) -> Seq<AttrText> {
        self.attributes@
    }

    /// The items the search found, in the order the service gave them.
    pub closed spec fn items(&self) -> Seq<secret_service::Item<'a>> {
        self.items@
    }
}

/// Record of an item created in a collection.
pub struct ItemCreated {
    label: Ghost<Seq<char>>,
    attributes: Ghost<Seq<AttrText>>,
    secret: Ghost<Seq<u8>>,
    replace: Ghost<bool>,
    content_type: Ghost<Seq<char>>,
}

impl ItemCreated {
    /// The label of the new item.
    pub closed spec fn label(&self) -> Seq<char> {
        self.label@
    }

    /// The attributes of the new item.
    pub closed spec fn attributes(&self) -> Seq<AttrText> {
        self.attributes@
    }

    /// The secret of the new item.
    pub closed spec fn secret(&self) -> Seq<u8> {
        self.secret@
    }

    /// Whether the creation was allowed to replace an item with the same
    /// attributes.
    pub closed spec fn replace(&self) -> bool {
        self.replace@
    }

    /// The content type of the new item's secret.
    pub closed spec fn content_type(&self) -> Seq<char> {
        self.content_type@
    }
}

/// Record of a secret written to an item.
pub struct SecretWritten {
    secret: Ghost<Seq<u8>>,
    content_type: Ghost<Seq<char>>,
}

impl SecretWritten {
    /// The secret written.
    pub closed spec fn secret(&self) -> Seq<u8> {
        self.secret@
    }

    /// Its content type.
    pub closed spec fn content_type(&self) -> Seq<char> {
        self.content_type@
    }
}

/// Record of the attributes read from an item.
pub struct AttributesRead {
    attributes: Ghost<Seq<AttrText>>,
}

impl AttributesRead {
    /// The attributes read.
    pub closed spec fn attributes(&self) -> Seq<AttrText> {
        self.attributes@
    }
}

/// Record of the attributes written to an item.
pub struct AttributesWritten {
    attributes: Ghost<Seq<AttrText>>,
}

impl AttributesWritten {
    /// The attributes written.
    pub closed spec fn attributes(&self) -> Seq<AttrText> {
        self.attributes@
    }
}

/// Record of a label written to an item.
pub struct LabelWritten {
    label: Ghost<Seq<char>>,
}

impl LabelWritten {
    /// The label written.
    pub closed spec fn label(&self) -> Seq<char> {
        self.label@
    }
}

/// Calls `Collection::search_items` with the attributes, handed over as a
/// map from name to value. Claimed: the record names the attributes searched
/// for and the items the call returned. Not stated: which items the service
/// finds.
#[verifier::external_body]
pub(crate) fn collection_search_items<'a>(
    collection: &'a secret_service::Collection<'a>,
    attributes: &Vec<(&'static str, String)>,
) -> (r: Result<(Vec<secret_service::Item<'a>>, Searched<'a>), secret_service::Error>)
    ensures
        r matches Ok(found) ==> found.1.attributes() == static_attrs_text(attributes@)
            && found.1.items() == found.0@,
{
    let map: HashMap<&str, &str> = attributes.iter().map(|(k, v)| (*k, v.as_str())).collect();
    match collection.search_items(map) {
        Ok(items) => {
            let record = Searched { attributes: Ghost(static_attrs_text(attributes@)), items: Ghost(items@) };
            Ok((items, record))
        },
        Err(e) => Err(e),
    }
}

/// Calls `Collection::create_item(label, attributes, secret, replace,
/// content_type)` with the attributes handed over as a map from name to
/// value, and drops the item it returns. Claimed: a success records the
/// label, attributes, secret, replace flag and content type the item was
/// created with.
#[verifier::external_body]
pub(crate) fn collection_create_item(
    collection: &secret_service::Collection<'_>,
    label: &str,
    attributes: &Vec<(&'static str, String)>,
    secret: &[u8],
    replace: bool,
    content_type: &str,
) -> (r: Result<ItemCreated, secret_service::Error>)
    ensures
        r matches Ok(c) ==> c.label() == label@ && c.attributes() == static_attrs_text(attributes@)
            && c.secret() == secret@ && c.replace() == replace && c.content_type() == content_type@,
{
    let map: HashMap<&str, &str> = attributes.iter().map(|(k, v)| (*k, v.as_str())).collect();
    match collection.create_item(label, map, secret, replace, content_type) {
        Ok(_) => Ok(ItemCreated {
            label: Ghost(label@),
            attributes: Ghost(static_attrs_text(attributes@)),
            secret: Ghost(secret@),
            replace: Ghost(replace),
            content_type: Ghost(content_type@),
        }),
        Err(e) => Err(e),
    }
}

/// Calls `Item::set_secret(secret, content_type)`. Claimed: a success
/// records the secret and content type written.
#[verifier::external_body]
pub(crate) fn item_set_secret(item: &secret_service::Item<'_>, secret: &[u8], content_type: &str) -> (r: Result<
    SecretWritten,
    secret_service::Error,
>)
    ensures
        r matches Ok(w) ==> w.secret() == secret@ && w.content_type() == content_type@,
{
    match item.set_secret(secret, content_type) {
        Ok(()) => Ok(SecretWritten { secret: Ghost(secret@), content_type: Ghost(content_type@) }),
        Err(e) => Err(e),
    }
}

/// Calls `Item::get_attributes` and hands the map over as a list of pairs.
/// Claimed: no two pairs have the same name (they are the keys of a map),
/// and the record holds the pairs read.
#[verifier::external_body]
pub(crate) fn item_get_attributes(item: &secret_service::Item<'_>) -> (r: Result<
    (Vec<(String, String)>, AttributesRead),
    secret_service::Error,
>)
    ensures
        r matches Ok(read) ==> names_distinct(attrs_text(read.0@)) && read.1.attributes()
            == attrs_text(read.0@),
{
    match item.get_attributes() {
        Ok(map) => {
            let pairs: Vec<(String, String)> = map.into_iter().collect();
            let record = AttributesRead { attributes: Ghost(attrs_text(pairs@)) };
            Ok((pairs, record))
        },
        Err(e) => Err(e),
    }
}

/// Calls `Item::set_attributes` with the attributes handed over as a map
/// from name to value. Claimed: a success records the attributes written.
#[verifier::external_body]
pub(crate) fn item_set_attributes(item: &secret_service::Item<'_>, attributes: &Vec<(String, String)>) -> (r: Result<
    AttributesWritten,
    secret_service::Error,
>)
    ensures
        r matches Ok(w) ==> w.attributes() == attrs_text(attributes@),
{
    let map: HashMap<&str, &str> = attributes.iter().map(|(k, v)| (k.as_str(), v.as_str())).collect();
    match item.set_attributes(map) {
        Ok(()) => Ok(AttributesWritten { attributes: Ghost(attrs_text(attributes@)) }),
        Err(e) => Err(e),
    }
}

/// Calls `Item::set_label`. Claimed: a success records the label written.
#[verifier::external_body]
pub(crate) fn item_set_label(item: &secret_service::Item<'_>, label: &str) -> (r: Result<
    LabelWritten,
    secret_service::Error,
>)
    ensures
        r matches Ok(w) ==> w.label() == label@,
{
    match item.set_label(label) {
        Ok(()) => Ok(LabelWritten { label: Ghost(label@) }),
        Err(e) => Err(e),
    }
}

} // verus!
