use vstd::prelude::*;

use crate::error::QdrantError;
use crate::ids::{parse_id, parsed_id, NIL_ID};
use crate::payload::{
    carried_payload, id_list, is_id_list, keeps_content_fields, stored_form, FieldValue,
    Payload, StoredPayload,
};

verus! {

/// The identifier an entry of a stored group-id list stands for: a text that
/// reads as an identifier gives it, anything else the nil identifier.
pub open spec fn entry_id(v: FieldValue) -> u128 {
    match v {
        FieldValue::Text(t) => match parsed_id(t@) {
            Some(id) => id,
            None => NIL_ID,
        },
        _ => NIL_ID,
    }
}

/// The identifiers of a stored group-id list, one per entry and in order. A
/// value that is no list holds none.
pub open spec fn decoded_ids(v: FieldValue) -> Seq<u128> {
    match v {
        FieldValue::List(items) => items@.map_values(|x: FieldValue| entry_id(x)),
        _ => Seq::empty(),
    }
}

/// The identifiers of a point's group-id field; an absent field holds none.
pub open spec fn stored_ids(field: Option<FieldValue>) -> Seq<u128> {
    match field {
        Some(v) => decoded_ids(v),
        None => Seq::empty(),
    }
}

/// `s` without the entries equal to `g`, the others in order.
pub open spec fn without_id(s: Seq<u128>, g: u128) -> Seq<u128>
    decreases s.len(),
{
    if s.len() == 0 {
        s
    } else {
        let r = without_id(s.drop_last(), g);
        if s.last() == g {
            r
        } else {
            r.push(s.last())
        }
    }
}

/// The group ids after adding `g`: appended to the stored ones, duplicates
/// included.
pub open spec fn ids_after_add(field: Option<FieldValue>, g: u128) -> Seq<u128> {
    stored_ids(field).push(g)
}

/// The group ids after removing `g`: every entry equal to it is dropped.
pub open spec fn ids_after_remove(field: Option<FieldValue>, g: u128) -> Seq<u128> {
    without_id(stored_ids(field), g)
}

/// `p` is the payload written by a membership edit of a point whose payload
/// was `s`, leaving the group ids `ids`: the content fields are carried over,
/// and the group-id field lists `ids` in a form that reads back as `ids`.
pub open spec fn is_membership_payload(p: Payload, s: StoredPayload, ids: Seq<u128>) -> bool {
    &&& keeps_content_fields(p, s)
    &&& is_id_list(p.group_ids, ids)
    &&& decoded_ids(p.group_ids) == ids
}

/// Reads the identifiers of a stored group-id list.
pub fn decode_group_ids(v: &FieldValue) -> (r: Vec<u128>)
    ensures
        r@ == decoded_ids(*v),
{
    let mut out: Vec<u128> = Vec::new();
    match v {
        FieldValue::List(items) => {
            let mut i: usize = 0;
            while i < items.len()
                invariant
                    i <= items@.len(),
                    out@ == items@.subrange(0, i as int).map_values(|x: FieldValue| entry_id(x)),
                decreases items@.len() - i,
            {
                let id = match &items[i] {
                    FieldValue::Text(t) => match parse_id(t.as_str()) {
                        Some(id) => id,
                        None => NIL_ID,
                    },
                    _ => NIL_ID,
                };
                out.push(id);
                proof {
                    assert(items@.subrange(0, i + 1) == items@.subrange(0, i as int).push(
                        items@[i as int],
                    ));
                }
                i = i + 1;
            }
            proof {
                assert(items@.subrange(0, items@.len() as int) == items@);
            }
        },
        _ => {},
    }
    out
}

/// Drops every entry equal to `g`, keeping the others in order.
pub fn remove_id(ids: &Vec<u128>, g: u128) -> (r: Vec<u128>)
    ensures
        r@ == without_id(ids@, g),
{
    let mut out: Vec<u128> = Vec::new();
    let mut i: usize = 0;
    while i < ids.len()
        invariant
            i <= ids@.len(),
            out@ == without_id(ids@.subrange(0, i as int), g),
        decreases ids@.len() - i,
    {
        proof {
            assert(ids@.subrange(0, i + 1).drop_last() == ids@.subrange(0, i as int));
        }
        if ids[i] != g {
            out.push(ids[i]);
        }
        i = i + 1;
    }
    proof {
        assert(ids@.subrange(0, ids@.len() as int) == ids@);
    }
    out
}

fn stored_group_ids(field: &Option<FieldValue>) -> (r: Vec<u128>)
    ensures
        r@ == stored_ids(*field),
{
    match field {
        Some(v) => decode_group_ids(v),
        None => Vec::new(),
    }
}

/// Plans the payload overwrite that adds `group_id` to the groups of the
/// fetched point (`None` where the point is absent). The new id is appended
/// even if already present.
pub fn plan_add_to_group(fetched: Option<StoredPayload>, group_id: u128) -> (r: Result<
    Payload,
    QdrantError,
>)
    ensures
        fetched is None ==> r == Err::<Payload, QdrantError>(QdrantError::NotFound),
        fetched is Some ==> r is Ok && is_membership_payload(
            r->Ok_0,
            fetched->Some_0,
            ids_after_add(fetched->Some_0.group_ids, group_id),
        ),
{
    match fetched {
        None => Err(QdrantError::NotFound),
        Some(stored) => {
            let mut ids = stored_group_ids(&stored.group_ids);
            ids.push(group_id);
            let field = id_list(&ids);
            proof {
                assert(decoded_ids(field) == ids@);
            }
            Ok(carried_payload(stored, field))
        },
    }
}

/// Plans the payload overwrite that removes every occurrence of `group_id`
/// from the groups of the fetched point (`None` where the point is absent).
pub fn plan_remove_from_group(fetched: Option<StoredPayload>, group_id: u128) -> (r: Result<
    Payload,
    QdrantError,
>)
    ensures
        fetched is None ==> r == Err::<Payload, QdrantError>(QdrantError::NotFound),
        fetched is Some ==> r is Ok && is_membership_payload(
            r->Ok_0,
            fetched->Some_0,
            ids_after_remove(fetched->Some_0.group_ids, group_id),
        ),
{
    match fetched {
        None => Err(QdrantError::NotFound),
        Some(stored) => {
            let current = stored_group_ids(&stored.group_ids);
            let ids = remove_id(&current, group_id);
            let field = id_list(&ids);
            proof {
                assert(decoded_ids(field) == ids@);
            }
            Ok(carried_payload(stored, field))
        },
    }
}

/// Removing an identifier drops every occurrence of it and keeps every
/// other entry.
pub proof fn lemma_without_id(s: Seq<u128>, g: u128)
    ensures
        !without_id(s, g).contains(g),
        forall|x: u128| x != g ==> (s.contains(x) <==> without_id(s, g).contains(x)),
        !s.contains(g) ==> without_id(s, g) == s,
    decreases s.len(),
{
    if s.len() > 0 {
        let t = s.drop_last();
        lemma_without_id(t, g);
        assert(s == t.push(s.last()));
        assert forall|x: u128| x != g implies (s.contains(x) <==> without_id(s, g).contains(x)) by {
            if s.contains(x) {
                let k = choose|k: int| 0 <= k < s.len() && s[k] == x;
                if k < s.len() - 1 {
                    assert(t[k] == x);
                    assert(t.contains(x));
                    assert(without_id(t, g).contains(x));
                    let j = choose|j: int| 0 <= j < without_id(t, g).len() && without_id(t, g)[j] == x;
                    assert(without_id(s, g)[j] == x);
                } else {
                    assert(without_id(s, g).last() == x);
                }
            }
            if without_id(s, g).contains(x) {
                let w = without_id(s, g);
                let k = choose|k: int| 0 <= k < w.len() && w[k] == x;
                if k < without_id(t, g).len() {
                    assert(without_id(t, g)[k] == x);
                    assert(without_id(t, g).contains(x));
                    assert(t.contains(x));
                    let m = choose|m: int| 0 <= m < t.len() && t[m] == x;
                    assert(s[m] == x);
                } else {
                    assert(s[s.len() - 1] == x);
                }
            }
        }
        if without_id(s, g).contains(g) {
            let w = without_id(s, g);
            let k = choose|k: int| 0 <= k < w.len() && w[k] == g;
            if k < without_id(t, g).len() {
                assert(without_id(t, g)[k] == g);
            }
        }
        if !s.contains(g) {
            assert(!t.contains(g)) by {
                if t.contains(g) {
                    let m = choose|m: int| 0 <= m < t.len() && t[m] == g;
                    assert(s[m] == g);
                }
            }
            assert(s[s.len() - 1] != g);
        }
    }
}

/// Adding a group a point already belongs to is no no-op: when `first` is
/// what adding `g` to a point with payload `s` writes, and `second` what
/// adding `g` once more to the point as then stored writes, the group ids of
/// `second` are those of `s` followed by `g` twice.
pub proof fn lemma_add_twice_appends_twice(
    s: StoredPayload,
    g: u128,
    first: Payload,
    second: Payload,
)
    requires
        is_membership_payload(first, s, ids_after_add(s.group_ids, g)),
        is_membership_payload(second, stored_form(first), ids_after_add(Some(first.group_ids), g)),
    ensures
        decoded_ids(second.group_ids) == stored_ids(s.group_ids).push(g).push(g),
        decoded_ids(second.group_ids).len() == stored_ids(s.group_ids).len() + 2,
{
}

/// Removing a group a point does not belong to leaves its group ids as they
/// read before, and its content fields as they were.
pub proof fn lemma_remove_absent_is_noop(s: StoredPayload, g: u128, p: Payload)
    requires
        is_membership_payload(p, s, ids_after_remove(s.group_ids, g)),
        !stored_ids(s.group_ids).contains(g),
    ensures
        decoded_ids(p.group_ids) == stored_ids(s.group_ids),
        keeps_content_fields(p, s),
{
    lemma_without_id(stored_ids(s.group_ids), g);
}

/// Removing is idempotent: when `first` is what removing `g` from a point
/// with payload `s` writes, and `second` what removing `g` again from the
/// point as then stored writes, both leave the same group ids, none equal to
/// `g`.
pub proof fn lemma_remove_twice_same_as_once(
    s: StoredPayload,
    g: u128,
    first: Payload,
    second: Payload,
)
    requires
        is_membership_payload(first, s, ids_after_remove(s.group_ids, g)),
        is_membership_payload(
            second,
            stored_form(first),
            ids_after_remove(Some(first.group_ids), g),
        ),
    ensures
        decoded_ids(second.group_ids) == decoded_ids(first.group_ids),
        !decoded_ids(second.group_ids).contains(g),
{
    lemma_without_id(stored_ids(s.group_ids), g);
    lemma_without_id(decoded_ids(first.group_ids), g);
}

/// Adding a group to a point without a group-id field gives it exactly that
/// one group.
pub proof fn lemma_add_to_ungrouped(s: StoredPayload, g: u128, p: Payload)
    requires
        s.group_ids is None,
        is_membership_payload(p, s, ids_after_add(s.group_ids, g)),
    ensures
        decoded_ids(p.group_ids) == seq![g],
        is_id_list(p.group_ids, seq![g]),
{
    assert(Seq::<u128>::empty().push(g) == seq![g]);
}

} // verus!
