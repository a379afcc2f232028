//! The lookup attributes and labels under which the token's secrets are
//! kept in the secret service, and the bookkeeping of their use count.
use crate::app_id::AppId;
use crate::encoding::{base64_len_fits, base64_standard, lemma_base64_injective};
use crate::key_handle::KeyHandle;
use crate::text::{
    decimal, decimal_string, lemma_text_lt_total, lemma_text_lt_transitive, parse_u32, parse_u32_text, text_equal, text_less, text_lt,
};
use vstd::prelude::*;

verus! {

/// An attribute as text: its name and its value.
pub type AttrText = (Seq<char>, Seq<char>);

/// The text of a list of attributes with static names.
pub open spec fn static_attrs_text(v: Seq<(&'static str, String)>) -> Seq<AttrText> {
    v.map_values(|a: (&'static str, String)| (a.0@, a.1@))
}

/// The text of a list of attributes with owned names.
pub open spec fn attrs_text(v: Seq<(String, String)>) -> Seq<AttrText> {
    v.map_values(|a: (String, String)| (a.0@, a.1@))
}

/// The value of the `application` and `xdg:schem` attributes.
pub open spec fn schema_name() -> Seq<char> {
    "com.github.danstiner.rust-u2f"@
}

/// The attributes that find the secret of a registration.
pub open spec fn search_attrs_spec(app_id: Seq<u8>, handle: Seq<u8>) -> Seq<AttrText> {
    seq![
        ("application"@, schema_name()),
        ("u2f_app_id_hash"@, base64_standard(app_id)),
        ("u2f_key_handle"@, base64_standard(handle)),
        ("xdg:schem"@, schema_name()),
    ]
}

/// The attributes written at registration, at `since_epoch` seconds after
/// the Unix epoch, for an application with the given known site name.
pub open spec fn registration_attrs_spec(
    app_id: Seq<u8>,
    handle: Seq<u8>,
    since_epoch: nat,
    site: Option<Seq<char>>,
) -> Seq<AttrText> {
    let base = search_attrs_spec(app_id, handle) + seq![
        ("times_used"@, "0"@),
        ("date_registered"@, decimal(since_epoch)),
    ];
    match site {
        Some(name) => base.push(("u2f_app_id"@, name)),
        None => base,
    }
}

/// An item registered for an app id and key handle carries every attribute
/// that the search for them asks for: the search attributes come first in
/// the registration attributes.
pub proof fn lemma_registration_carries_search(
    app_id: Seq<u8>,
    handle: Seq<u8>,
    since_epoch: nat,
    site: Option<Seq<char>>,
)
    ensures
        registration_attrs_spec(app_id, handle, since_epoch, site).subrange(0, 4) == search_attrs_spec(
            app_id,
            handle,
        ),
        forall|a: AttrText|
            search_attrs_spec(app_id, handle).contains(a) ==> registration_attrs_spec(
                app_id,
                handle,
                since_epoch,
                site,
            ).contains(a),
{
    let r = registration_attrs_spec(app_id, handle, since_epoch, site);
    let q = search_attrs_spec(app_id, handle);
    assert(r.subrange(0, 4) =~= q);
    assert forall|a: AttrText| q.contains(a) implies r.contains(a) by {
        let k = choose|k: int| 0 <= k < q.len() && q[k] == a;
        assert(r[k] == a);
    }
}

/// Two different (app id, key handle) pairs are never looked up with the
/// same attributes.
pub proof fn lemma_search_attrs_injective(
    app_id1: Seq<u8>,
    handle1: Seq<u8>,
    app_id2: Seq<u8>,
    handle2: Seq<u8>,
)
    requires
        app_id1 != app_id2 || handle1 != handle2,
    ensures
        search_attrs_spec(app_id1, handle1) != search_attrs_spec(app_id2, handle2),
{
    if search_attrs_spec(app_id1, handle1) == search_attrs_spec(app_id2, handle2) {
        assert(search_attrs_spec(app_id1, handle1)[1] == search_attrs_spec(app_id2, handle2)[1]);
        assert(search_attrs_spec(app_id1, handle1)[2] == search_attrs_spec(app_id2, handle2)[2]);
        lemma_base64_injective(app_id1, app_id2);
        lemma_base64_injective(handle1, handle2);
    }
}

/// The label of the secret of an application: its site name where it is
/// known, else the Base64 text of its app id.
pub open spec fn token_label_spec(app_id: Seq<u8>, site: Option<Seq<char>>) -> Seq<char> {
    "Universal 2nd Factor token for "@ + match site {
        Some(name) => name,
        None => base64_standard(app_id),
    }
}

/// The attributes that find the secret of the registration of `handle` for
/// `app_id`.
pub fn search_attributes(app_id: &AppId, handle: &KeyHandle) -> (r: Vec<(&'static str, String)>)
    requires
        base64_len_fits(handle@.len()),
    ensures
        static_attrs_text(r@) == search_attrs_spec(app_id@, handle@),
{
    let r = vec![
        ("application", String::from_str("com.github.danstiner.rust-u2f")),
        ("u2f_app_id_hash", app_id.to_base64()),
        ("u2f_key_handle", handle.to_base64()),
        ("xdg:schem", String::from_str("com.github.danstiner.rust-u2f")),
    ];
    assert(static_attrs_text(r@) =~= search_attrs_spec(app_id@, handle@));
    r
}

/// The attributes of a new registration, given the registration time in
/// seconds since the Unix epoch and the known site name of the application.
pub fn registration_attributes_at(
    app_id: &AppId,
    handle: &KeyHandle,
    since_epoch: u64,
    site: Option<String>,
) -> (r: Vec<(&'static str, String)>)
    requires
        base64_len_fits(handle@.len()),
    ensures
        static_attrs_text(r@) == registration_attrs_spec(
            app_id@,
            handle@,
            since_epoch as nat,
            crate::known_app_ids::opt_text(site),
        ),
{
    let mut attributes = search_attributes(app_id, handle);
    attributes.push(("times_used", String::from_str("0")));
    attributes.push(("date_registered", decimal_string(since_epoch)));
    let ghost base = static_attrs_text(attributes@);
    match site {
        Some(id) => {
            attributes.push(("u2f_app_id", id));
            assert(static_attrs_text(attributes@) =~= base.push(("u2f_app_id"@, id@)));
        },
        None => {},
    }
    assert(base =~= search_attrs_spec(app_id@, handle@) + seq![
        ("times_used"@, "0"@),
        ("date_registered"@, decimal(since_epoch as nat)),
    ]);
    attributes
}

/// The label of the secret of an application, given its known site name.
pub fn token_label(app_id: &AppId, site: &Option<String>) -> (r: String)
    ensures
        r@ == token_label_spec(app_id@, crate::known_app_ids::opt_text(*site)),
{
    let prefix = String::from_str("Universal 2nd Factor token for ");
    match site {
        Some(name) => prefix.concat(name.as_str()),
        None => {
            let text = app_id.to_base64();
            prefix.concat(text.as_str())
        },
    }
}

/// The name of the attribute that counts the uses of a registration.
pub open spec fn times_used_name() -> Seq<char> {
    "times_used"@
}

/// Whether no two attributes have the same name.
pub open spec fn names_distinct(s: Seq<AttrText>) -> bool {
    forall|i: int, j: int| 0 <= i < s.len() && 0 <= j < s.len() && i != j ==> s[i].0 != s[j].0
}

/// Whether the attributes are in strictly increasing order of name.
pub open spec fn sorted_by_name(s: Seq<AttrText>) -> bool {
    forall|i: int, j: int| 0 <= i < j < s.len() ==> text_lt(s[i].0, s[j].0)
}

/// Whether some attribute is named `name`.
pub open spec fn has_name(s: Seq<AttrText>, name: Seq<char>) -> bool {
    exists|i: int| 0 <= i < s.len() && s[i].0 == name
}

/// The use count that follows the text `v`: the count it reads as (0 where
/// it does not read as a `u32`), plus one.
pub open spec fn next_times_used(v: Seq<char>) -> Seq<char> {
    decimal(
        (match parse_u32(v) {
            Some(n) => n,
            None => 0,
        }) + 1,
    )
}

/// Whether the use count held in `s` can be advanced without overflow.
pub open spec fn times_used_can_grow(s: Seq<AttrText>) -> bool {
    forall|i: int|
        0 <= i < s.len() && s[i].0 == times_used_name() ==> parse_u32(#[trigger] s[i].1) != Some(
            u32::MAX as nat,
        )
}

/// The attributes after one more use: the `times_used` attribute advanced
/// where it is present, set to `"0"` where it is missing.
pub open spec fn bump_times_used(s: Seq<AttrText>) -> Seq<AttrText> {
    if has_name(s, times_used_name()) {
        let i = choose|i: int| 0 <= i < s.len() && s[i].0 == times_used_name();
        s.update(i, (times_used_name(), next_times_used(s[i].1)))
    } else {
        s.push((times_used_name(), "0"@))
    }
}

/// The position of the attribute named `name`, if any.
fn position_of(attributes: &Vec<(String, String)>, name: &str) -> (r: Option<usize>)
    ensures
        r matches Some(i) ==> i < attributes@.len() && attributes@[i as int].0@ == name@,
        r is None ==> !has_name(attrs_text(attributes@), name@),
{
    let mut i: usize = 0;
    while i < attributes.len()
        invariant
            i <= attributes@.len(),
            forall|j: int| 0 <= j < i ==> attributes@[j].0@ != name@,
        decreases attributes@.len() - i,
    {
        if text_equal(attributes[i].0.as_str(), name) {
            return Some(i);
        }
        i = i + 1;
    }
    proof {
        if has_name(attrs_text(attributes@), name@) {
            let j = choose|j: int|
                0 <= j < attrs_text(attributes@).len() && attrs_text(attributes@)[j].0 == name@;
            assert(attributes@[j].0@ == name@);
        }
    }
    None
}

/// Whether the use count held in `attributes` can be advanced without
/// overflow.
pub fn times_used_grows(attributes: &Vec<(String, String)>) -> (r: bool)
    ensures
        r == times_used_can_grow(attrs_text(attributes@)),
{
    let ghost s = attrs_text(attributes@);
    let mut i: usize = 0;
    while i < attributes.len()
        invariant
            i <= attributes@.len(),
            s == attrs_text(attributes@),
            forall|j: int|
                0 <= j < i && s[j].0 == times_used_name() ==> parse_u32(#[trigger] s[j].1) != Some(
                    u32::MAX as nat,
                ),
        decreases attributes@.len() - i,
    {
        proof {
            reveal_strlit("times_used");
        }
        if text_equal(attributes[i].0.as_str(), "times_used") {
            match parse_u32_text(attributes[i].1.as_str()) {
                Some(n) => {
                    if n == 4294967295 {
                        assert(s[i as int].0 == times_used_name());
                        assert(parse_u32(s[i as int].1) == Some(u32::MAX as nat));
                        assert(!times_used_can_grow(s));
                        return false;
                    }
                },
                None => {},
            }
        }
        i = i + 1;
    }
    true
}

/// The use count that follows the text `value`.
fn advance_times_used(value: &str) -> (r: String)
    requires
        parse_u32(value@) != Some(u32::MAX as nat),
    ensures
        r@ == next_times_used(value@),
{
    let count: u32 = match parse_u32_text(value) {
        Some(n) => n,
        None => 0,
    };
    decimal_string(count as u64 + 1)
}

/// The attributes with the `times_used` attribute advanced (or added).
pub fn with_times_used_bumped(attributes: Vec<(String, String)>) -> (r: Vec<(String, String)>)
    requires
        names_distinct(attrs_text(attributes@)),
        times_used_can_grow(attrs_text(attributes@)),
    ensures
        attrs_text(r@) == bump_times_used(attrs_text(attributes@)),
{
    let ghost s = attrs_text(attributes@);
    let mut attributes = attributes;
    match position_of(&attributes, "times_used") {
        Some(i) => {
            proof {
                reveal_strlit("times_used");
                let k = choose|k: int| 0 <= k < s.len() && s[k].0 == times_used_name();
                assert(s[i as int].0 == times_used_name());
                assert(k == i);
            }
            let next = advance_times_used(attributes[i].1.as_str());
            attributes[i] = (String::from_str("times_used"), next);
            assert(attrs_text(attributes@) =~= s.update(
                i as int,
                (times_used_name(), next_times_used(s[i as int].1)),
            ));
        },
        None => {
            attributes.push((String::from_str("times_used"), String::from_str("0")));
            assert(attrs_text(attributes@) =~= s.push((times_used_name(), "0"@)));
        },
    }
    attributes
}

/// Advancing the use count keeps the names of the attributes distinct.
pub proof fn lemma_bump_keeps_names_distinct(s: Seq<AttrText>)
    requires
        names_distinct(s),
    ensures
        names_distinct(bump_times_used(s)),
{
}

/// One more use leaves a `times_used` attribute that reads as the count
/// before plus one (as zero where it was missing, or held no `u32`), and
/// leaves every other attribute as it was.
pub proof fn lemma_bump_counts_use(s: Seq<AttrText>)
    requires
        names_distinct(s),
        times_used_can_grow(s),
    ensures
        ({
            let b = bump_times_used(s);
            exists|i: int|
                0 <= i < b.len() && b[i].0 == times_used_name() && parse_u32(#[trigger] b[i].1)
                    == Some(
                    if has_name(s, times_used_name()) {
                        let k = choose|k: int| 0 <= k < s.len() && s[k].0 == times_used_name();
                        (match parse_u32(s[k].1) {
                            Some(n) => n,
                            None => 0,
                        }) + 1
                    } else {
                        0
                    },
                )
        }),
        forall|a: AttrText|
            a.0 != times_used_name() ==> (s.contains(a) <==> bump_times_used(s).contains(a)),
{
    let b = bump_times_used(s);
    if has_name(s, times_used_name()) {
        let k = choose|k: int| 0 <= k < s.len() && s[k].0 == times_used_name();
        let n = match parse_u32(s[k].1) {
            Some(n) => n,
            None => 0,
        };
        assert(parse_u32(s[k].1) != Some(u32::MAX as nat));
        crate::text::lemma_parse_decimal_roundtrip(n + 1);
        assert(parse_u32(b[k].1) == Some(n + 1));
        assert forall|a: AttrText| a.0 != times_used_name() implies (s.contains(a)
            <==> b.contains(a)) by {
            if s.contains(a) {
                let m = choose|m: int| 0 <= m < s.len() && s[m] == a;
                assert(b[m] == a);
            }
            if b.contains(a) {
                let m = choose|m: int| 0 <= m < b.len() && b[m] == a;
                assert(s[m] == a);
            }
        }
    } else {
        crate::text::lemma_parse_decimal_roundtrip(0);
        reveal_strlit("0");
        assert(decimal(0) =~= "0"@);
        assert(parse_u32(b[s.len() as int].1) == Some(0nat));
        assert forall|a: AttrText| a.0 != times_used_name() implies (s.contains(a)
            <==> b.contains(a)) by {
            if s.contains(a) {
                let m = choose|m: int| 0 <= m < s.len() && s[m] == a;
                assert(b[m] == a);
            }
            if b.contains(a) {
                let m = choose|m: int| 0 <= m < b.len() && b[m] == a;
                assert(m < s.len());
                assert(s[m] == a);
            }
        }
    }
}

/// The attributes in increasing order of name: the same attributes, each
/// once, sorted as Rust sorts strings.
pub fn sort_by_name(attributes: Vec<(String, String)>) -> (r: Vec<(String, String)>)
    requires
        names_distinct(attrs_text(attributes@)),
    ensures
        sorted_by_name(attrs_text(r@)),
        attrs_text(r@).len() == attrs_text(attributes@).len(),
        forall|a: AttrText| attrs_text(r@).contains(a) <==> attrs_text(attributes@).contains(a),
{
    let ghost input = attrs_text(attributes@);
    let mut out: Vec<(String, String)> = Vec::new();
    let mut i: usize = 0;
    while i < attributes.len()
        invariant
            i <= attributes@.len(),
            input == attrs_text(attributes@),
            names_distinct(input),
            sorted_by_name(attrs_text(out@)),
            attrs_text(out@).len() == i,
            forall|a: AttrText|
                attrs_text(out@).contains(a) <==> input.subrange(0, i as int).contains(a),
        decreases attributes@.len() - i,
    {
        let name = attributes[i].0.clone();
        let value = attributes[i].1.clone();
        let ghost o = attrs_text(out@);
        let ghost item: AttrText = (name@, value@);
        assert(input[i as int] == item);
        // The new name is not among those placed so far.
        assert forall|m: int| 0 <= m < o.len() implies o[m].0 != name@ by {
            assert(o.contains(o[m]));
            let k = choose|k: int| 0 <= k < i && input.subrange(0, i as int)[k] == o[m];
            assert(input[k] == o[m]);
        }
        let mut j: usize = 0;
        while j < out.len() && !text_less(name.as_str(), out[j].0.as_str())
            invariant
                j <= out@.len(),
                o == attrs_text(out@),
                item == (name@, value@),
                forall|m: int| 0 <= m < o.len() ==> o[m].0 != name@,
                forall|m: int| 0 <= m < j ==> text_lt(o[m].0, name@),
            decreases out@.len() - j,
        {
            proof {
                lemma_text_lt_total(name@, o[j as int].0);
            }
            j = j + 1;
        }
        out.insert(j, (name, value));
        proof {
            let n = attrs_text(out@);
            assert(n =~= o.insert(j as int, item));
            o.insert_ensures(j as int, item);
            assert forall|p: int, q: int| 0 <= p < q < n.len() implies text_lt(n[p].0, n[q].0) by {
                if q < j {
                } else if q == j {
                } else if p == j {
                    // name < o[j] <= o[q - 1]
                    assert(text_lt(item.0, o[j as int].0));
                    if q - 1 > j {
                        lemma_text_lt_transitive(item.0, o[j as int].0, o[q - 1].0);
                    }
                } else if p < j {
                    if q - 1 >= j {
                        assert(text_lt(o[p].0, item.0));
                        assert(text_lt(item.0, o[j as int].0));
                        lemma_text_lt_transitive(o[p].0, item.0, o[j as int].0);
                        if q - 1 > j {
                            lemma_text_lt_transitive(o[p].0, o[j as int].0, o[q - 1].0);
                        }
                    }
                } else {
                }
            }
            let pre0 = input.subrange(0, i as int);
            let pre1 = input.subrange(0, i + 1);
            assert(pre1 =~= pre0.push(item));
            assert forall|a: AttrText| n.contains(a) <==> pre1.contains(a) by {
                if n.contains(a) {
                    let k = choose|k: int| 0 <= k < n.len() && n[k] == a;
                    if k < j {
                        assert(o.contains(o[k]));
                    } else if k > j {
                        assert(o[k - 1] == a);
                        assert(o.contains(o[k - 1]));
                    }
                    if a != item {
                        assert(pre0.contains(a));
                        let k2 = choose|k2: int| 0 <= k2 < pre0.len() && pre0[k2] == a;
                        assert(pre1[k2] == a);
                    } else {
                        assert(pre1[i as int] == a);
                    }
                }
                if pre1.contains(a) {
                    let k = choose|k: int| 0 <= k < pre1.len() && pre1[k] == a;
                    if k == i {
                        assert(n[j as int] == a);
                    } else {
                        assert(pre0[k] == a);
                        assert(o.contains(a));
                        let m = choose|m: int| 0 <= m < o.len() && o[m] == a;
                        if m < j {
                            assert(n[m] == a);
                        } else {
                            assert(n[m + 1] == a);
                        }
                    }
                }
            }
        }
        i = i + 1;
    }
    assert(input.subrange(0, i as int) =~= input);
    out
}

/// The attributes of a secret after one more use, sorted by name: what is
/// written back at each authentication.
pub fn updated_attributes(attributes: Vec<(String, String)>) -> (r: Vec<(String, String)>)
    requires
        names_distinct(attrs_text(attributes@)),
        times_used_can_grow(attrs_text(attributes@)),
    ensures
        sorted_by_name(attrs_text(r@)),
        attrs_text(r@).len() == bump_times_used(attrs_text(attributes@)).len(),
        forall|a: AttrText|
            attrs_text(r@).contains(a) <==> bump_times_used(attrs_text(attributes@)).contains(a),
{
    let bumped = with_times_used_bumped(attributes);
    proof {
        lemma_bump_keeps_names_distinct(attrs_text(attributes@));
    }
    sort_by_name(bumped)
}

} // verus!
