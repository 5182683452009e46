use vstd::prelude::*;

use crate::error::QdrantError;
use crate::vectors::VectorSpace;

verus! {

/// The graph connectivity set at the collection level; zero leaves it to
/// the per-space indexing.
pub const HNSW_M: u64 = 0;

/// The graph fan-out used for payload indexes.
pub const HNSW_PAYLOAD_M: u64 = 16;

/// The number of secondary field indexes a collection gets.
pub const FIELD_INDEX_COUNT: usize = 6;

/// The configuration of one dense vector space of a new collection; every
/// dense space uses cosine distance.
#[derive(Clone, Copy, Debug, PartialEq, Eq, Structural)]
pub struct DenseSpaceConfig {
    pub space: VectorSpace,
    pub size: u64,
    /// Binary quantization, kept resident in memory.
    pub quantized: bool,
}

/// The type of a secondary payload index.
#[derive(Clone, Copy, Debug, PartialEq, Eq, Structural)]
pub enum IndexKind {
    Text,
    Keyword,
    Integer,
}

/// A secondary index over one payload field.
#[derive(Clone, Copy, Debug)]
pub struct FieldIndex {
    pub field: &'static str,
    pub kind: IndexKind,
}

/// The dense space at position `i` of a new collection, smallest first.
pub open spec fn dense_space_at(i: int) -> VectorSpace {
    if i == 0 {
        VectorSpace::Dense384
    } else if i == 1 {
        VectorSpace::Dense512
    } else if i == 2 {
        VectorSpace::Dense768
    } else if i == 3 {
        VectorSpace::Dense1024
    } else {
        VectorSpace::Dense1536
    }
}

/// The configuration of the dense space at position `i`: quantized when
/// asked for, except the smallest space, which keeps full precision.
pub open spec fn dense_config_at(i: int, quantize: bool) -> DenseSpaceConfig {
    DenseSpaceConfig {
        space: dense_space_at(i),
        size: dense_space_at(i).dimension() as u64,
        quantized: quantize && i != 0,
    }
}

/// The field and type of the index at position `i`, in creation order.
pub open spec fn field_index_at(i: int) -> (Seq<char>, IndexKind) {
    if i == 0 {
        ("link"@, IndexKind::Text)
    } else if i == 1 {
        ("tag_set"@, IndexKind::Text)
    } else if i == 2 {
        ("dataset_id"@, IndexKind::Keyword)
    } else if i == 3 {
        ("metadata"@, IndexKind::Keyword)
    } else if i == 4 {
        ("time_stamp"@, IndexKind::Integer)
    } else {
        ("group_ids"@, IndexKind::Keyword)
    }
}

/// `s` has `p` as a contiguous part.
pub open spec fn has_infix(s: Seq<char>, p: Seq<char>) -> bool {
    exists|i: int| 0 <= i && i + p.len() <= s.len() && #[trigger] s.subrange(i, i + p.len()) == p
}

/// Relies on `str::contains` with a `&str` pattern: whether the pattern
/// occurs in the text.
#[verifier::external_body]
fn text_contains(s: &str, pattern: &str) -> (r: bool)
    ensures
        r == has_infix(s@, pattern@),
{
    s.contains(pattern)
}

/// The dense spaces of a new collection, smallest first.
pub fn dense_space_configs(quantize: bool) -> (r: Vec<DenseSpaceConfig>)
    ensures
        r@.len() == 5,
        forall|i: int| 0 <= i < 5 ==> #[trigger] r@[i] == dense_config_at(i, quantize),
{
    let r = vec![
        DenseSpaceConfig { space: VectorSpace::Dense384, size: 384, quantized: false },
        DenseSpaceConfig { space: VectorSpace::Dense512, size: 512, quantized: quantize },
        DenseSpaceConfig { space: VectorSpace::Dense768, size: 768, quantized: quantize },
        DenseSpaceConfig { space: VectorSpace::Dense1024, size: 1024, quantized: quantize },
        DenseSpaceConfig { space: VectorSpace::Dense1536, size: 1536, quantized: quantize },
    ];
    assert forall|i: int| 0 <= i < 5 implies #[trigger] r@[i] == dense_config_at(i, quantize) by {
        if i == 0 {
        } else if i == 1 {
        } else if i == 2 {
        } else if i == 3 {
        } else {
        }
    }
    r
}

/// The secondary index at position `i` of a new collection.
pub fn field_index(i: usize) -> (r: FieldIndex)
    requires
        i < FIELD_INDEX_COUNT,
    ensures
        (r.field@, r.kind) == field_index_at(i as int),
{
    if i == 0 {
        FieldIndex { field: "link", kind: IndexKind::Text }
    } else if i == 1 {
        FieldIndex { field: "tag_set", kind: IndexKind::Text }
    } else if i == 2 {
        FieldIndex { field: "dataset_id", kind: IndexKind::Keyword }
    } else if i == 3 {
        FieldIndex { field: "metadata", kind: IndexKind::Keyword }
    } else if i == 4 {
        FieldIndex { field: "time_stamp", kind: IndexKind::Integer }
    } else {
        FieldIndex { field: "group_ids", kind: IndexKind::Keyword }
    }
}

/// The failure a rejected collection creation reports: a name collision when
/// the backend's message says the collection already exists.
pub open spec fn creation_failure(message: Seq<char>) -> QdrantError {
    if has_infix(message, "already exists"@) {
        QdrantError::AlreadyExists
    } else {
        QdrantError::CollectionCreationFailed
    }
}

/// Classifies the backend's message for a rejected collection creation.
pub fn classify_creation_error(message: &str) -> (r: QdrantError)
    ensures
        r == creation_failure(message@),
{
    if text_contains(message, "already exists") {
        QdrantError::AlreadyExists
    } else {
        QdrantError::CollectionCreationFailed
    }
}

/// Where a collection bootstrap stands.
#[derive(Clone, Copy, Debug, PartialEq, Eq, Structural)]
pub enum BootstrapStage {
    /// Asking whether the collection is present.
    Checking,
    /// Creating the collection.
    Creating,
    /// Creating the field index at this position.
    Indexing(usize),
    /// Nothing more to do.
    Finished,
}

/// What the backend answered to the last action of a bootstrap.
#[derive(Debug)]
pub enum BootstrapEvent {
    /// The presence check answered; `present` where the collection exists.
    /// A failed check counts as absent.
    Checked { present: bool },
    /// The collection or index was created.
    Created,
    /// The backend refused the collection or index, with its message.
    Refused(String),
}

/// The next call a bootstrap asks for.
#[derive(Debug)]
pub enum BootstrapAction {
    /// Create the collection with these dense spaces, the sparse space kept
    /// in memory, and the collection-level graph settings.
    CreateCollection(Vec<DenseSpaceConfig>),
    /// Create this field index.
    CreateIndex(FieldIndex),
    /// Report this outcome to the caller.
    Finish(Result<(), QdrantError>),
}

/// The decisions of creating a collection, one backend answer at a time:
/// check presence, create, then create each field index in turn. Nothing is
/// rolled back when an index fails.
#[derive(Clone, Copy, Debug)]
pub struct CollectionBootstrap {
    pub stage: BootstrapStage,
    pub quantize: bool,
}

impl CollectionBootstrap {
    pub open spec fn wf(self) -> bool {
        self.stage matches BootstrapStage::Indexing(i) ==> i < FIELD_INDEX_COUNT
    }

    /// Whether `event` answers the action this stage asked for.
    pub open spec fn expects(self, event: BootstrapEvent) -> bool {
        match self.stage {
            BootstrapStage::Checking => event is Checked,
            BootstrapStage::Creating => !(event is Checked),
            BootstrapStage::Indexing(_) => !(event is Checked),
            BootstrapStage::Finished => false,
        }
    }

    /// A new bootstrap; its first call is the presence check.
    pub fn new(quantize: bool) -> (r: CollectionBootstrap)
        ensures
            r.stage == BootstrapStage::Checking,
            r.quantize == quantize,
            r.wf(),
    {
        CollectionBootstrap { stage: BootstrapStage::Checking, quantize }
    }

    pub fn accepts(&self, event: &BootstrapEvent) -> (r: bool)
        ensures
            r == self.expects(*event),
    {
        match self.stage {
            BootstrapStage::Checking => matches!(event, BootstrapEvent::Checked { .. }),
            BootstrapStage::Creating => !matches!(event, BootstrapEvent::Checked { .. }),
            BootstrapStage::Indexing(_) => !matches!(event, BootstrapEvent::Checked { .. }),
            BootstrapStage::Finished => false,
        }
    }

    /// Takes the backend's answer and gives the next call.
    pub fn step(&mut self, event: BootstrapEvent) -> (r: BootstrapAction)
        requires
            old(self).wf(),
            old(self).expects(event),
        ensures
            final(self).wf(),
            final(self).quantize == old(self).quantize,
            match (old(self).stage, event) {
                (BootstrapStage::Checking, BootstrapEvent::Checked { present: true }) => {
                    &&& r == BootstrapAction::Finish(Err(QdrantError::AlreadyExists))
                    &&& final(self).stage == BootstrapStage::Finished
                },
                (BootstrapStage::Checking, BootstrapEvent::Checked { present: false }) => {
                    &&& r is CreateCollection
                    &&& r->CreateCollection_0@.len() == 5
                    &&& forall|i: int|
                        0 <= i < 5 ==> #[trigger] r->CreateCollection_0@[i] == dense_config_at(
                            i,
                            old(self).quantize,
                        )
                    &&& final(self).stage == BootstrapStage::Creating
                },
                (BootstrapStage::Creating, BootstrapEvent::Created) => {
                    &&& r is CreateIndex
                    &&& (r->CreateIndex_0.field@, r->CreateIndex_0.kind) == field_index_at(0)
                    &&& final(self).stage == BootstrapStage::Indexing(0)
                },
                (BootstrapStage::Creating, BootstrapEvent::Refused(m)) => {
                    &&& r == BootstrapAction::Finish(Err(creation_failure(m@)))
                    &&& final(self).stage == BootstrapStage::Finished
                },
                (BootstrapStage::Indexing(i), BootstrapEvent::Created) => if i + 1
                    < FIELD_INDEX_COUNT {
                    &&& r is CreateIndex
                    &&& (r->CreateIndex_0.field@, r->CreateIndex_0.kind) == field_index_at(i + 1)
                    &&& final(self).stage == BootstrapStage::Indexing((i + 1) as usize)
                } else {
                    &&& r == BootstrapAction::Finish(Ok(()))
                    &&& final(self).stage == BootstrapStage::Finished
                },
                (BootstrapStage::Indexing(_), BootstrapEvent::Refused(_)) => {
                    &&& r == BootstrapAction::Finish(Err(QdrantError::IndexCreationFailed))
                    &&& final(self).stage == BootstrapStage::Finished
                },
                _ => false,
            },
    {
        match (self.stage, event) {
            (BootstrapStage::Checking, BootstrapEvent::Checked { present }) => {
                if present {
                    self.stage = BootstrapStage::Finished;
                    BootstrapAction::Finish(Err(QdrantError::AlreadyExists))
                } else {
                    self.stage = BootstrapStage::Creating;
                    BootstrapAction::CreateCollection(dense_space_configs(self.quantize))
                }
            },
            (BootstrapStage::Creating, BootstrapEvent::Refused(m)) => {
                self.stage = BootstrapStage::Finished;
                BootstrapAction::Finish(Err(classify_creation_error(m.as_str())))
            },
            (BootstrapStage::Creating, _) => {
                self.stage = BootstrapStage::Indexing(0);
                BootstrapAction::CreateIndex(field_index(0))
            },
            (BootstrapStage::Indexing(_), BootstrapEvent::Refused(_)) => {
                self.stage = BootstrapStage::Finished;
                BootstrapAction::Finish(Err(QdrantError::IndexCreationFailed))
            },
            (BootstrapStage::Indexing(i), _) => {
                if i + 1 < FIELD_INDEX_COUNT {
                    self.stage = BootstrapStage::Indexing(i + 1);
                    BootstrapAction::CreateIndex(field_index(i + 1))
                } else {
                    self.stage = BootstrapStage::Finished;
                    BootstrapAction::Finish(Ok(()))
                }
            },
            (BootstrapStage::Finished, _) => BootstrapAction::Finish(Ok(())),
            (BootstrapStage::Checking, _) => BootstrapAction::Finish(Ok(())),
        }
    }
}

} // verus!
