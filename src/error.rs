use vstd::prelude::*;

verus! {

/// The kinds of failure an operation can report. Every backend error is
/// mapped to one of these at the boundary; nothing is retried.
#[derive(Clone, Copy, Debug, PartialEq, Eq, Structural)]
pub enum QdrantError {
    /// A collection of the requested name is already present.
    AlreadyExists,
    /// A dense vector whose length is none of the supported dimensionalities.
    InvalidVectorSize,
    /// The point to update or edit is absent.
    NotFound,
    /// No connection to the backend could be made.
    BackendUnavailable,
    /// The backend refused to create the collection for another reason.
    CollectionCreationFailed,
    /// A secondary field index could not be created.
    IndexCreationFailed,
    /// A search, group search, point fetch or count was rejected.
    SearchFailed,
    /// A recommendation query was rejected.
    RecommendationFailed,
    /// A point upsert was rejected.
    UpsertFailed,
    /// A payload overwrite was rejected.
    PayloadUpdateFailed,
}

impl QdrantError {
    /// A human-readable description of the failure.
    pub fn message(&self) -> &'static str {
        match self {
            QdrantError::AlreadyExists => "Collection already exists",
            QdrantError::InvalidVectorSize => "Invalid embedding vector size",
            QdrantError::NotFound => "No metadata points found",
            QdrantError::BackendUnavailable => "Failed to connect to Qdrant",
            QdrantError::CollectionCreationFailed => "Failed to create Collection",
            QdrantError::IndexCreationFailed => "Failed to create index",
            QdrantError::SearchFailed => "Failed to search points on Qdrant",
            QdrantError::RecommendationFailed =>
                "Failed to recommend points from qdrant. You are likely providing an invalid point id.",
            QdrantError::UpsertFailed => "Failed upserting chunk in qdrant",
            QdrantError::PayloadUpdateFailed => "Failed updating chunk payload in qdrant",
        }
    }
}

} // verus!
