use vstd::prelude::*;

use crate::error::QdrantError;
use crate::payload::{
    fresh_payload, id_list, is_fresh_payload, is_id_list, is_preserved_payload, is_text_list,
    preserved_payload, stored_form, FieldValue, Payload, PointMetadata, StoredPayload,
};
use crate::vectors::{dense_routing, dense_space_for, VectorSpace};

verus! {

/// A write of one point to the backend.
#[derive(Debug)]
pub enum PointWrite {
    /// Store the point's dense vector in `space`, its sparse vector in the
    /// sparse space, and `payload`, replacing vectors and payload together.
    /// With `wait` the call returns only once the backend has applied it.
    Upsert { space: VectorSpace, payload: Payload, wait: bool },
    /// Replace the payload alone, leaving the vectors untouched.
    OverwritePayload { payload: Payload },
}

/// `f` is the group-id field of a fresh payload: the given ids if any, else
/// the stored field if the point has one, else an empty list.
pub open spec fn is_fresh_group_field(
    f: FieldValue,
    group_ids: Option<Vec<u128>>,
    fetched: Option<StoredPayload>,
) -> bool {
    match group_ids {
        Some(ids) => is_id_list(f, ids@),
        None => match fetched {
            Some(s) => match s.group_ids {
                Some(v) => f == v,
                None => is_text_list(f, Seq::empty()),
            },
            None => is_text_list(f, Seq::empty()),
        },
    }
}

/// `p` is the payload an update writes: built from the new metadata when
/// there is some (scoped to `dataset_id`), else the fetched payload
/// reproduced.
pub open spec fn is_update_payload(
    p: Payload,
    metadata: Option<PointMetadata>,
    group_ids: Option<Vec<u128>>,
    dataset_id: u128,
    fetched: Option<StoredPayload>,
) -> bool {
    match metadata {
        Some(m) => is_fresh_payload(p, m.tag_set, m.link, m.metadata, m.time_stamp, dataset_id)
            && is_fresh_group_field(p.group_ids, group_ids, fetched),
        None => is_preserved_payload(p, fetched->Some_0),
    }
}

/// Plans the insertion of a new point whose dense vector has `dense_len`
/// values: a blocking upsert into the space of that length, with the payload
/// built from `metadata` and the group ids (none if not given).
pub fn plan_point_insert(
    dense_len: usize,
    metadata: PointMetadata,
    group_ids: Option<Vec<u128>>,
) -> (r: Result<PointWrite, QdrantError>)
    ensures
        dense_routing(dense_len as int) is Err ==> r == Err::<PointWrite, QdrantError>(
            QdrantError::InvalidVectorSize,
        ),
        dense_routing(dense_len as int) is Ok ==> r is Ok && match r->Ok_0 {
            PointWrite::Upsert { space, payload, wait } => {
                &&& space == dense_routing(dense_len as int)->Ok_0
                &&& wait
                &&& is_fresh_payload(
                    payload,
                    metadata.tag_set,
                    metadata.link,
                    metadata.metadata,
                    metadata.time_stamp,
                    metadata.dataset_id,
                )
                &&& is_id_list(
                    payload.group_ids,
                    match group_ids {
                        Some(ids) => ids@,
                        None => Seq::empty(),
                    },
                )
            },
            PointWrite::OverwritePayload { .. } => false,
        },
{
    let space = match dense_space_for(dense_len) {
        Ok(s) => s,
        Err(e) => return Err(e),
    };
    let ids = match group_ids {
        Some(ids) => ids,
        None => Vec::new(),
    };
    let field = id_list(&ids);
    let PointMetadata { tag_set, link, metadata: meta, time_stamp, dataset_id } = metadata;
    let payload = fresh_payload(tag_set, link, meta, time_stamp, dataset_id, field);
    Ok(PointWrite::Upsert { space, payload, wait: true })
}

/// Plans the update of a point from what its fetch gave (`None` where the
/// point is absent). The payload is built from `metadata` when given, else
/// the fetched payload is reproduced; with neither the point is not found.
/// With a new dense vector of `new_dense_len` values the point is upserted
/// (without waiting) with vectors and payload together; without one only the
/// payload is overwritten.
pub fn plan_point_update(
    metadata: Option<PointMetadata>,
    new_dense_len: Option<usize>,
    group_ids: Option<Vec<u128>>,
    dataset_id: u128,
    fetched: Option<StoredPayload>,
) -> (r: Result<PointWrite, QdrantError>)
    ensures
        metadata is None && fetched is None ==> r == Err::<PointWrite, QdrantError>(
            QdrantError::NotFound,
        ),
        (metadata is Some || fetched is Some) && new_dense_len is Some && dense_routing(
            new_dense_len->Some_0 as int,
        ) is Err ==> r == Err::<PointWrite, QdrantError>(QdrantError::InvalidVectorSize),
        (metadata is Some || fetched is Some) && new_dense_len is Some && dense_routing(
            new_dense_len->Some_0 as int,
        ) is Ok ==> r is Ok && match r->Ok_0 {
            PointWrite::Upsert { space, payload, wait } => {
                &&& space == dense_routing(new_dense_len->Some_0 as int)->Ok_0
                &&& !wait
                &&& is_update_payload(payload, metadata, group_ids, dataset_id, fetched)
            },
            PointWrite::OverwritePayload { .. } => false,
        },
        (metadata is Some || fetched is Some) && new_dense_len is None ==> r is Ok && match r->Ok_0 {
            PointWrite::OverwritePayload { payload } => is_update_payload(
                payload,
                metadata,
                group_ids,
                dataset_id,
                fetched,
            ),
            PointWrite::Upsert { .. } => false,
        },
{
    let payload = match metadata {
        Some(m) => {
            let field = match group_ids {
                Some(ids) => id_list(&ids),
                None => match fetched {
                    Some(s) => match s.group_ids {
                        Some(v) => v,
                        None => FieldValue::List(Vec::new()),
                    },
                    None => FieldValue::List(Vec::new()),
                },
            };
            let PointMetadata { tag_set, link, metadata: meta, time_stamp, dataset_id: _ } = m;
            fresh_payload(tag_set, link, meta, time_stamp, dataset_id, field)
        },
        None => match fetched {
            Some(s) => preserved_payload(s),
            None => return Err(QdrantError::NotFound),
        },
    };
    match new_dense_len {
        Some(len) => {
            let space = match dense_space_for(len) {
                Ok(s) => s,
                Err(e) => return Err(e),
            };
            Ok(PointWrite::Upsert { space, payload, wait: false })
        },
        None => Ok(PointWrite::OverwritePayload { payload }),
    }
}

/// A point's payload survives a metadata-free update: when `p` was written
/// and `q` is what an update without new metadata writes for the point as
/// then stored, `q` is `p`, field for field.
pub proof fn lemma_update_without_metadata_keeps_payload(
    p: Payload,
    q: Payload,
    new_group_ids: Option<Vec<u128>>,
    dataset_id: u128,
)
    requires
        is_update_payload(q, None, new_group_ids, dataset_id, Some(stored_form(p))),
    ensures
        q == p,
{
}

} // verus!
