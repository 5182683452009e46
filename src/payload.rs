use vstd::prelude::*;

use crate::ids::{id_to_text, id_text, parsed_id};

verus! {

/// One value of a point's payload, as the backend stores it. Floating-point
/// numbers are carried as their IEEE-754 double bit patterns.
#[derive(Debug)]
pub enum FieldValue {
    Null,
    Flag(bool),
    Integer(i64),
    DoubleBits(u64),
    Text(String),
    List(Vec<FieldValue>),
    Object(Vec<FieldEntry>),
}

/// One named entry of an object value.
#[derive(Debug)]
pub struct FieldEntry {
    pub key: String,
    pub value: FieldValue,
}

/// The complete payload written for a point. Every write replaces the whole
/// payload with one of these: there is no partial-field patch.
#[derive(Debug)]
pub struct Payload {
    pub tag_set: FieldValue,
    pub link: FieldValue,
    pub metadata: FieldValue,
    pub time_stamp: FieldValue,
    pub dataset_id: FieldValue,
    pub group_ids: FieldValue,
}

/// The payload fields of a fetched point; a field the point lacks is `None`.
#[derive(Debug)]
pub struct StoredPayload {
    pub tag_set: Option<FieldValue>,
    pub link: Option<FieldValue>,
    pub metadata: Option<FieldValue>,
    pub time_stamp: Option<FieldValue>,
    pub dataset_id: Option<FieldValue>,
    pub group_ids: Option<FieldValue>,
}

/// The content attributes from which a fresh payload is built.
/// `tag_set` and `link` are comma-joined lists; `time_stamp` is in seconds.
#[derive(Debug)]
pub struct PointMetadata {
    pub tag_set: Option<String>,
    pub link: Option<String>,
    pub metadata: Option<FieldValue>,
    pub time_stamp: Option<i64>,
    pub dataset_id: u128,
}

/// The pieces of `s` between commas, in order: a text without a comma is a
/// single piece, and the empty text is one empty piece.
pub open spec fn comma_pieces(s: Seq<char>) -> Seq<Seq<char>>
    decreases s.len(),
{
    if s.len() == 0 {
        seq![Seq::<char>::empty()]
    } else {
        let rest = comma_pieces(s.drop_first());
        if s[0] == ',' {
            seq![Seq::<char>::empty()] + rest
        } else {
            rest.update(0, seq![s[0]] + rest[0])
        }
    }
}

/// `v` is a list of texts equal to `parts`, in order.
pub open spec fn is_text_list(v: FieldValue, parts: Seq<Seq<char>>) -> bool {
    &&& v is List
    &&& v->List_0@.len() == parts.len()
    &&& forall|i: int|
        0 <= i < parts.len() ==> (#[trigger] v->List_0@[i] is Text && v->List_0@[i]->Text_0@
            == parts[i])
}

/// `v` is a text equal to `s`.
pub open spec fn is_text(v: FieldValue, s: Seq<char>) -> bool {
    v is Text && v->Text_0@ == s
}

/// `v` is the list of the texts of `ids`, in order.
pub open spec fn is_id_list(v: FieldValue, ids: Seq<u128>) -> bool {
    is_text_list(v, ids.map_values(|id: u128| id_text(id)))
}

/// `v` is an object without entries.
pub open spec fn is_empty_object(v: FieldValue) -> bool {
    v is Object && v->Object_0@.len() == 0
}

/// The payload built from fresh metadata: absent tag set and link become the
/// empty text before splitting (so a list of one empty piece), absent
/// metadata an empty object, absent time stamp zero.
pub open spec fn is_fresh_payload(
    p: Payload,
    tag_set: Option<String>,
    link: Option<String>,
    metadata: Option<FieldValue>,
    time_stamp: Option<i64>,
    dataset_id: u128,
) -> bool {
    &&& is_text_list(
        p.tag_set,
        comma_pieces(
            match tag_set {
                Some(s) => s@,
                None => Seq::empty(),
            },
        ),
    )
    &&& is_text_list(
        p.link,
        comma_pieces(
            match link {
                Some(s) => s@,
                None => Seq::empty(),
            },
        ),
    )
    &&& match metadata {
        Some(m) => p.metadata == m,
        None => is_empty_object(p.metadata),
    }
    &&& p.time_stamp == FieldValue::Integer(
        match time_stamp {
            Some(t) => t,
            None => 0,
        },
    )
    &&& is_text(p.dataset_id, id_text(dataset_id))
}

/// `out` is the stored value if there is one, else the empty text.
pub open spec fn kept_or_blank(out: FieldValue, stored: Option<FieldValue>) -> bool {
    match stored {
        Some(v) => out == v,
        None => is_text(out, Seq::empty()),
    }
}

/// `p` reproduces the five content fields of `s`, each absent one as the
/// empty text.
pub open spec fn keeps_content_fields(p: Payload, s: StoredPayload) -> bool {
    &&& kept_or_blank(p.tag_set, s.tag_set)
    &&& kept_or_blank(p.link, s.link)
    &&& kept_or_blank(p.metadata, s.metadata)
    &&& kept_or_blank(p.time_stamp, s.time_stamp)
    &&& kept_or_blank(p.dataset_id, s.dataset_id)
}

/// `p` reproduces `s`: the content fields as `keeps_content_fields` says,
/// and the group ids as stored, or an empty list where there are none.
pub open spec fn is_preserved_payload(p: Payload, s: StoredPayload) -> bool {
    &&& keeps_content_fields(p, s)
    &&& match s.group_ids {
        Some(v) => p.group_ids == v,
        None => is_text_list(p.group_ids, Seq::empty()),
    }
}

/// What a fetch of a point whose payload is `p` gives back.
pub open spec fn stored_form(p: Payload) -> StoredPayload {
    StoredPayload {
        tag_set: Some(p.tag_set),
        link: Some(p.link),
        metadata: Some(p.metadata),
        time_stamp: Some(p.time_stamp),
        dataset_id: Some(p.dataset_id),
        group_ids: Some(p.group_ids),
    }
}

/// Relies on `str::split` with a `char` pattern: the pieces between commas.
#[verifier::external_body]
fn split_commas(s: &str) -> (r: Vec<String>)
    ensures
        r@.len() == comma_pieces(s@).len(),
        forall|i: int| 0 <= i < r@.len() ==> #[trigger] r@[i]@ == comma_pieces(s@)[i],
{
    s.split(',').map(|p| p.to_string()).collect()
}

/// Turns a list of texts into a list value of the same texts.
fn text_list(parts: Vec<String>) -> (r: FieldValue)
    ensures
        r is List,
        r->List_0@.len() == parts@.len(),
        forall|i: int|
            0 <= i < parts@.len() ==> #[trigger] r->List_0@[i] == FieldValue::Text(parts@[i]),
{
    let mut items: Vec<FieldValue> = Vec::new();
    let mut rest = parts;
    let ghost all = rest@;
    while rest.len() > 0
        invariant
            rest@ == all.subrange(items@.len() as int, all.len() as int),
            items@.len() <= all.len(),
            forall|i: int| 0 <= i < items@.len() ==> #[trigger] items@[i] == FieldValue::Text(all[i]),
        decreases rest.len(),
    {
        let s = rest.remove(0);
        items.push(FieldValue::Text(s));
    }
    FieldValue::List(items)
}

/// The list value of the pieces of `s` between commas.
pub fn comma_list(s: &str) -> (r: FieldValue)
    ensures
        is_text_list(r, comma_pieces(s@)),
{
    let parts = split_commas(s);
    let ghost ps = parts@;
    let r = text_list(parts);
    assert forall|i: int| 0 <= i < comma_pieces(s@).len() implies #[trigger] r->List_0@[i] is Text
        && r->List_0@[i]->Text_0@ == comma_pieces(s@)[i] by {
        assert(r->List_0@[i] == FieldValue::Text(ps[i]));
    }
    r
}

/// The list value of the texts of `ids`, in order; each text reads back as
/// its identifier.
pub fn id_list(ids: &Vec<u128>) -> (r: FieldValue)
    ensures
        is_id_list(r, ids@),
        forall|j: int| 0 <= j < ids@.len() ==> parsed_id(#[trigger] r->List_0@[j]->Text_0@) == Some(ids@[j]),
{
    let mut items: Vec<FieldValue> = Vec::new();
    let mut i: usize = 0;
    while i < ids.len()
        invariant
            i <= ids@.len(),
            items@.len() == i,
            forall|j: int|
                0 <= j < i ==> (#[trigger] items@[j] is Text && items@[j]->Text_0@ == id_text(
                    ids@[j],
                ) && parsed_id(items@[j]->Text_0@) == Some(ids@[j])),
        decreases ids@.len() - i,
    {
        let t = id_to_text(ids[i]);
        items.push(FieldValue::Text(t));
        i = i + 1;
    }
    FieldValue::List(items)
}

/// Builds the payload of fresh metadata, with the given group ids field.
pub fn fresh_payload(
    tag_set: Option<String>,
    link: Option<String>,
    metadata: Option<FieldValue>,
    time_stamp: Option<i64>,
    dataset_id: u128,
    group_ids: FieldValue,
) -> (r: Payload)
    ensures
        is_fresh_payload(r, tag_set, link, metadata, time_stamp, dataset_id),
        r.group_ids == group_ids,
{
    let tags = match &tag_set {
        Some(s) => comma_list(s.as_str()),
        None => comma_list(""),
    };
    let links = match &link {
        Some(s) => comma_list(s.as_str()),
        None => comma_list(""),
    };
    proof {
        reveal_strlit("");
    }
    let meta = match metadata {
        Some(m) => m,
        None => FieldValue::Object(Vec::new()),
    };
    let stamp = match time_stamp {
        Some(t) => t,
        None => 0,
    };
    Payload {
        tag_set: tags,
        link: links,
        metadata: meta,
        time_stamp: FieldValue::Integer(stamp),
        dataset_id: FieldValue::Text(id_to_text(dataset_id)),
        group_ids,
    }
}

fn blank() -> (r: FieldValue)
    ensures
        is_text(r, Seq::empty()),
{
    FieldValue::Text(String::new())
}

/// Builds a payload from the fetched one, keeping each content field and
/// putting `group_ids` in place of its group ids.
pub fn carried_payload(stored: StoredPayload, group_ids: FieldValue) -> (r: Payload)
    ensures
        keeps_content_fields(r, stored),
        r.group_ids == group_ids,
{
    Payload {
        tag_set: match stored.tag_set {
            Some(v) => v,
            None => blank(),
        },
        link: match stored.link {
            Some(v) => v,
            None => blank(),
        },
        metadata: match stored.metadata {
            Some(v) => v,
            None => blank(),
        },
        time_stamp: match stored.time_stamp {
            Some(v) => v,
            None => blank(),
        },
        dataset_id: match stored.dataset_id {
            Some(v) => v,
            None => blank(),
        },
        group_ids,
    }
}

/// Reproduces the fetched payload verbatim, absent content fields as the
/// empty text and absent group ids as an empty list.
pub fn preserved_payload(stored: StoredPayload) -> (r: Payload)
    ensures
        is_preserved_payload(r, stored),
{
    let ghost s = stored;
    let StoredPayload { tag_set, link, metadata, time_stamp, dataset_id, group_ids } = stored;
    let groups = match group_ids {
        Some(v) => v,
        None => FieldValue::List(Vec::new()),
    };
    carried_payload(StoredPayload { tag_set, link, metadata, time_stamp, dataset_id, group_ids: None }, groups)
}

} // verus!
