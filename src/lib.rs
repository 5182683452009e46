//! Client-side orchestration for content points kept in a vector-search
//! backend: collection bootstrap, vector-space routing, payload shaping,
//! group-membership edits, search planning and result normalization.
//!
//! Every decision is a verified function over plain values; the network
//! round trips themselves are made by the caller, which hands the outcome
//! of each call back to these functions. Identifiers are 128-bit UUIDs held
//! as `u128`.

mod collection;
mod error;
mod ids;
mod membership;
mod payload;
mod points;
mod search;
mod vectors;

pub use collection::{
    classify_creation_error, dense_space_configs, field_index, BootstrapAction, BootstrapEvent,
    BootstrapStage, CollectionBootstrap, DenseSpaceConfig, FieldIndex, IndexKind,
    FIELD_INDEX_COUNT, HNSW_M, HNSW_PAYLOAD_M,
};
pub use error::QdrantError;
pub use ids::NIL_ID;
pub use membership::{decode_group_ids, plan_add_to_group, plan_remove_from_group, remove_id};
pub use payload::{
    carried_payload, comma_list, fresh_payload, id_list, preserved_payload, FieldEntry,
    FieldValue, Payload, PointMetadata, StoredPayload,
};
pub use points::{plan_point_insert, plan_point_update, PointWrite};
pub use search::{
    normalize_groups, normalize_hits, normalize_ids, plan_group_search, plan_search,
    point_id_texts, recommend_space, GroupKey, GroupSearchPlan, GroupSearchResults, PointKey,
    RawGroup, ScoredHit, SearchPlan, SearchResult, PAGE_STRIDE,
};
pub use vectors::{dense_space_for, query_space, VectorSpace, VectorType};
