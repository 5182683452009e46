use vstd::prelude::*;

use crate::error::QdrantError;
use crate::ids::{id_to_text, id_text, parse_id, parsed_id, NIL_ID};
use crate::vectors::{dense_routing, dense_space_for, query_space, VectorSpace, VectorType};

verus! {

/// The stride between pages of a flat search, whatever the limit.
pub const PAGE_STRIDE: u64 = 10;

/// A flat similarity search to issue.
#[derive(Clone, Copy, Debug, PartialEq, Eq, Structural)]
pub struct SearchPlan {
    pub space: VectorSpace,
    pub limit: u64,
    pub offset: u64,
}

/// A group-wise similarity search to issue; hits are always grouped by the
/// `group_ids` payload field.
#[derive(Clone, Copy, Debug, PartialEq, Eq, Structural)]
pub struct GroupSearchPlan {
    pub space: VectorSpace,
    pub limit: u32,
    pub group_size: u32,
}

/// A point identifier as the backend reports it.
#[derive(Debug)]
pub enum PointKey {
    Uuid(String),
    Num(u64),
}

/// A group key as the backend reports it.
#[derive(Debug)]
pub enum GroupKey {
    Text(String),
    Integer(i64),
    Unsigned(u64),
}

/// One hit of a backend response; the score is the bit pattern of a
/// single-precision number.
#[derive(Debug)]
pub struct ScoredHit {
    pub id: Option<PointKey>,
    pub score_bits: u32,
}

/// One group of a backend response.
#[derive(Debug)]
pub struct RawGroup {
    pub id: Option<GroupKey>,
    pub hits: Vec<ScoredHit>,
}

/// A hit as this library reports it.
#[derive(Clone, Copy, Debug, PartialEq, Eq, Structural)]
pub struct SearchResult {
    pub point_id: u128,
    pub score_bits: u32,
}

/// A group of hits as this library reports it.
#[derive(Debug)]
pub struct GroupSearchResults {
    pub group_id: u128,
    pub hits: Vec<SearchResult>,
}

/// The offset a flat search on `page` (counted from one) starts at.
pub open spec fn page_offset(page: int) -> int {
    (page - 1) * PAGE_STRIDE
}

/// The number of hits a group search on `page` asks for: grouped search has
/// no offset, so every page asks for all hits up to its end.
pub open spec fn group_request_limit(limit: int, page: int) -> int {
    limit * page
}

/// Plans a flat search on `page` for at most `limit` hits.
pub fn plan_search(page: u64, limit: u64, vector: &VectorType) -> (r: Result<
    SearchPlan,
    QdrantError,
>)
    requires
        1 <= page,
        page_offset(page as int) <= u64::MAX,
    ensures
        vector.routing() is Err ==> r == Err::<SearchPlan, QdrantError>(
            QdrantError::InvalidVectorSize,
        ),
        vector.routing() is Ok ==> r == Ok::<SearchPlan, QdrantError>(
            SearchPlan {
                space: vector.routing()->Ok_0,
                limit,
                offset: page_offset(page as int) as u64,
            },
        ),
{
    let space = match query_space(vector) {
        Ok(s) => s,
        Err(e) => return Err(e),
    };
    Ok(SearchPlan { space, limit, offset: (page - 1) * PAGE_STRIDE })
}

/// Plans a group search on `page` for pages of `limit` groups of at most
/// `group_size` hits.
pub fn plan_group_search(page: u64, limit: u32, group_size: u32, vector: &VectorType) -> (r:
    Result<GroupSearchPlan, QdrantError>)
    requires
        group_request_limit(limit as int, page as int) <= u32::MAX,
    ensures
        vector.routing() is Err ==> r == Err::<GroupSearchPlan, QdrantError>(
            QdrantError::InvalidVectorSize,
        ),
        vector.routing() is Ok ==> r == Ok::<GroupSearchPlan, QdrantError>(
            GroupSearchPlan {
                space: vector.routing()->Ok_0,
                limit: group_request_limit(limit as int, page as int) as u32,
                group_size,
            },
        ),
{
    let space = match query_space(vector) {
        Ok(s) => s,
        Err(e) => return Err(e),
    };
    let total: u32 = if limit == 0 {
        proof {
            assert(limit * page == 0) by (nonlinear_arith)
                requires
                    limit == 0,
            ;
        }
        0
    } else {
        proof {
            assert(page <= limit * page) by (nonlinear_arith)
                requires
                    limit >= 1,
            ;
        }
        limit * (page as u32)
    };
    Ok(GroupSearchPlan { space, limit: total, group_size })
}

/// Selects the space a recommendation uses, from the dataset's configured
/// embedding size.
pub fn recommend_space(embedding_size: usize) -> (r: Result<VectorSpace, QdrantError>)
    ensures
        r == dense_routing(embedding_size as int),
{
    dense_space_for(embedding_size)
}

/// The texts under which the backend knows the given points.
pub fn point_id_texts(ids: &Vec<u128>) -> (r: Vec<String>)
    ensures
        r@.len() == ids@.len(),
        forall|i: int| 0 <= i < ids@.len() ==> #[trigger] r@[i]@ == id_text(ids@[i]),
{
    let mut out: Vec<String> = Vec::new();
    let mut i: usize = 0;
    while i < ids.len()
        invariant
            i <= ids@.len(),
            out@.len() == i,
            forall|j: int| 0 <= j < i ==> #[trigger] out@[j]@ == id_text(ids@[j]),
        decreases ids@.len() - i,
    {
        out.push(id_to_text(ids[i]));
        i = i + 1;
    }
    out
}

/// The identifier a point key stands for: a text key that reads as an
/// identifier gives it; numeric keys and unreadable texts give none.
pub open spec fn key_id(k: Option<PointKey>) -> Option<u128> {
    match k {
        Some(PointKey::Uuid(s)) => parsed_id(s@),
        _ => None,
    }
}

/// The result a hit gives, if its key stands for an identifier.
pub open spec fn hit_result(h: ScoredHit) -> Option<SearchResult> {
    match key_id(h.id) {
        Some(id) => Some(SearchResult { point_id: id, score_bits: h.score_bits }),
        None => None,
    }
}

/// The results of `hs`, in order, without the hits that give none.
pub open spec fn normalized_hits(hs: Seq<ScoredHit>) -> Seq<SearchResult>
    decreases hs.len(),
{
    if hs.len() == 0 {
        Seq::empty()
    } else {
        let r = normalized_hits(hs.drop_last());
        match hit_result(hs.last()) {
            Some(x) => r.push(x),
            None => r,
        }
    }
}

/// The identifiers of `ks`, in order, without the keys that stand for none.
pub open spec fn normalized_ids(ks: Seq<Option<PointKey>>) -> Seq<u128>
    decreases ks.len(),
{
    if ks.len() == 0 {
        Seq::empty()
    } else {
        let r = normalized_ids(ks.drop_last());
        match key_id(ks.last()) {
            Some(x) => r.push(x),
            None => r,
        }
    }
}

/// Whether a group is reported: only groups with a text key are.
pub open spec fn group_kept(g: RawGroup) -> bool {
    g.id matches Some(GroupKey::Text(_))
}

/// The identifier of a reported group: its text read as an identifier, the
/// nil identifier where it does not read as one.
pub open spec fn group_id_of(g: RawGroup) -> u128 {
    match parsed_id(g.id->Some_0->Text_0@) {
        Some(id) => id,
        None => NIL_ID,
    }
}

/// The reported groups of `gs`, in order: their source groups.
pub open spec fn kept_groups(gs: Seq<RawGroup>) -> Seq<RawGroup> {
    gs.filter(|g: RawGroup| group_kept(g))
}

fn hit_of(h: &ScoredHit) -> (r: Option<SearchResult>)
    ensures
        r == hit_result(*h),
{
    match &h.id {
        Some(PointKey::Uuid(s)) => match parse_id(s.as_str()) {
            Some(id) => Some(SearchResult { point_id: id, score_bits: h.score_bits }),
            None => None,
        },
        _ => None,
    }
}

/// The results of backend hits, in the backend's order, dropping hits whose
/// key is numeric, missing or no identifier.
pub fn normalize_hits(hits: &Vec<ScoredHit>) -> (r: Vec<SearchResult>)
    ensures
        r@ == normalized_hits(hits@),
{
    let mut out: Vec<SearchResult> = Vec::new();
    let mut i: usize = 0;
    while i < hits.len()
        invariant
            i <= hits@.len(),
            out@ == normalized_hits(hits@.subrange(0, i as int)),
        decreases hits@.len() - i,
    {
        proof {
            assert(hits@.subrange(0, i + 1).drop_last() == hits@.subrange(0, i as int));
        }
        match hit_of(&hits[i]) {
            Some(x) => out.push(x),
            None => {},
        }
        i = i + 1;
    }
    proof {
        assert(hits@.subrange(0, hits@.len() as int) == hits@);
    }
    out
}

/// The identifiers of recommended points, in the backend's order, dropping
/// keys that are numeric, missing or no identifier.
pub fn normalize_ids(keys: &Vec<Option<PointKey>>) -> (r: Vec<u128>)
    ensures
        r@ == normalized_ids(keys@),
{
    let mut out: Vec<u128> = Vec::new();
    let mut i: usize = 0;
    while i < keys.len()
        invariant
            i <= keys@.len(),
            out@ == normalized_ids(keys@.subrange(0, i as int)),
        decreases keys@.len() - i,
    {
        proof {
            assert(keys@.subrange(0, i + 1).drop_last() == keys@.subrange(0, i as int));
        }
        match &keys[i] {
            Some(PointKey::Uuid(s)) => match parse_id(s.as_str()) {
                Some(id) => out.push(id),
                None => {},
            },
            _ => {},
        }
        i = i + 1;
    }
    proof {
        assert(keys@.subrange(0, keys@.len() as int) == keys@);
    }
    out
}

/// The groups of a backend response, in its order: groups whose key is not
/// a text are dropped; each other group is reported under its key read as
/// an identifier (nil where it does not read as one), with its hits
/// normalized.
pub fn normalize_groups(groups: &Vec<RawGroup>) -> (r: Vec<GroupSearchResults>)
    ensures
        r@.len() == kept_groups(groups@).len(),
        forall|i: int|
            0 <= i < r@.len() ==> {
                &&& #[trigger] r@[i].group_id == group_id_of(kept_groups(groups@)[i])
                &&& r@[i].hits@ == normalized_hits(kept_groups(groups@)[i].hits@)
            },
{
    let mut out: Vec<GroupSearchResults> = Vec::new();
    let mut i: usize = 0;
    while i < groups.len()
        invariant
            i <= groups@.len(),
            out@.len() == kept_groups(groups@.subrange(0, i as int)).len(),
            forall|j: int|
                0 <= j < out@.len() ==> {
                    &&& #[trigger] out@[j].group_id == group_id_of(
                        kept_groups(groups@.subrange(0, i as int))[j],
                    )
                    &&& out@[j].hits@ == normalized_hits(
                        kept_groups(groups@.subrange(0, i as int))[j].hits@,
                    )
                },
        decreases groups@.len() - i,
    {
        let ghost before = groups@.subrange(0, i as int);
        proof {
            assert(groups@.subrange(0, i + 1) == before.push(groups@[i as int]));
            before.lemma_filter_push(groups@[i as int], |g: RawGroup| group_kept(g));
            assert(kept_groups(groups@.subrange(0, i + 1)) == if group_kept(groups@[i as int]) {
                kept_groups(before).push(groups@[i as int])
            } else {
                kept_groups(before)
            });
        }
        let g = &groups[i];
        match &g.id {
            Some(GroupKey::Text(s)) => {
                let group_id = match parse_id(s.as_str()) {
                    Some(id) => id,
                    None => NIL_ID,
                };
                let hits = normalize_hits(&g.hits);
                out.push(GroupSearchResults { group_id, hits });
            },
            _ => {},
        }
        i = i + 1;
    }
    proof {
        assert(groups@.subrange(0, groups@.len() as int) == groups@);
    }
    out
}

} // verus!
