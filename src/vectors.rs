use vstd::prelude::*;

use crate::error::QdrantError;

verus! {

/// True of the dense dimensionalities that a collection provides a space for.
pub open spec fn is_supported_dimension(n: int) -> bool {
    n == 384 || n == 512 || n == 768 || n == 1024 || n == 1536
}

/// A named vector space of a collection: five dense spaces, one for each
/// supported dimensionality, and the single sparse space.
#[derive(Clone, Copy, Debug, PartialEq, Eq, Structural)]
pub enum VectorSpace {
    Dense384,
    Dense512,
    Dense768,
    Dense1024,
    Dense1536,
    Sparse,
}

/// A query or stored vector: dense values, or sparse index/value pairs.
/// Values are carried as IEEE-754 single-precision bit patterns; nothing
/// here computes on them.
#[derive(Debug)]
pub enum VectorType {
    Sparse(Vec<(u32, u32)>),
    Dense(Vec<u32>),
}

/// The dense space that holds vectors of length `n`, if there is one.
pub open spec fn dense_space(n: int) -> Option<VectorSpace> {
    if n == 384 {
        Some(VectorSpace::Dense384)
    } else if n == 512 {
        Some(VectorSpace::Dense512)
    } else if n == 768 {
        Some(VectorSpace::Dense768)
    } else if n == 1024 {
        Some(VectorSpace::Dense1024)
    } else if n == 1536 {
        Some(VectorSpace::Dense1536)
    } else {
        None
    }
}

/// The routing outcome for a dense vector of length `n`.
pub open spec fn dense_routing(n: int) -> Result<VectorSpace, QdrantError> {
    match dense_space(n) {
        Some(s) => Ok(s),
        None => Err(QdrantError::InvalidVectorSize),
    }
}

impl VectorType {
    /// The routing outcome for this vector: sparse vectors always go to the
    /// sparse space, dense ones to the space of their length.
    pub open spec fn routing(self) -> Result<VectorSpace, QdrantError> {
        match self {
            VectorType::Sparse(_) => Ok(VectorSpace::Sparse),
            VectorType::Dense(v) => dense_routing(v@.len() as int),
        }
    }
}

impl VectorSpace {
    /// The dimensionality of a dense space; zero for the sparse space.
    pub open spec fn dimension(self) -> int {
        match self {
            VectorSpace::Dense384 => 384,
            VectorSpace::Dense512 => 512,
            VectorSpace::Dense768 => 768,
            VectorSpace::Dense1024 => 1024,
            VectorSpace::Dense1536 => 1536,
            VectorSpace::Sparse => 0,
        }
    }

    /// The name under which the backend knows this space.
    pub open spec fn spec_name(self) -> Seq<char> {
        match self {
            VectorSpace::Dense384 => "384_vectors"@,
            VectorSpace::Dense512 => "512_vectors"@,
            VectorSpace::Dense768 => "768_vectors"@,
            VectorSpace::Dense1024 => "1024_vectors"@,
            VectorSpace::Dense1536 => "1536_vectors"@,
            VectorSpace::Sparse => "sparse_vectors"@,
        }
    }

    pub fn name(&self) -> (r: &'static str)
        ensures
            r@ == self.spec_name(),
    {
        match self {
            VectorSpace::Dense384 => "384_vectors",
            VectorSpace::Dense512 => "512_vectors",
            VectorSpace::Dense768 => "768_vectors",
            VectorSpace::Dense1024 => "1024_vectors",
            VectorSpace::Dense1536 => "1536_vectors",
            VectorSpace::Sparse => "sparse_vectors",
        }
    }

    pub fn dimension_of(&self) -> (r: u64)
        ensures
            r == self.dimension(),
    {
        match self {
            VectorSpace::Dense384 => 384,
            VectorSpace::Dense512 => 512,
            VectorSpace::Dense768 => 768,
            VectorSpace::Dense1024 => 1024,
            VectorSpace::Dense1536 => 1536,
            VectorSpace::Sparse => 0,
        }
    }
}

/// Selects the dense space for a vector of length `len`, or reports that no
/// space holds vectors of that length.
pub fn dense_space_for(len: usize) -> (r: Result<VectorSpace, QdrantError>)
    ensures
        r == dense_routing(len as int),
{
    match len {
        384 => Ok(VectorSpace::Dense384),
        512 => Ok(VectorSpace::Dense512),
        768 => Ok(VectorSpace::Dense768),
        1024 => Ok(VectorSpace::Dense1024),
        1536 => Ok(VectorSpace::Dense1536),
        _ => Err(QdrantError::InvalidVectorSize),
    }
}

/// Selects the space that a query vector targets.
pub fn query_space(vector: &VectorType) -> (r: Result<VectorSpace, QdrantError>)
    ensures
        r == vector.routing(),
{
    match vector {
        VectorType::Sparse(_) => Ok(VectorSpace::Sparse),
        VectorType::Dense(v) => dense_space_for(v.len()),
    }
}

/// A dense vector is routed to a space exactly when its length is supported;
/// that space has the vector's length as its dimensionality, so distinct
/// supported lengths go to distinct spaces with distinct names. Any other
/// length is refused with `InvalidVectorSize`.
pub proof fn lemma_dense_routing_unique(n: int, m: int)
    ensures
        dense_routing(n) is Ok <==> is_supported_dimension(n),
        !is_supported_dimension(n) ==> dense_routing(n) == Err::<VectorSpace, QdrantError>(
            QdrantError::InvalidVectorSize,
        ),
        dense_routing(n) is Ok ==> dense_routing(n)->Ok_0.dimension() == n
            && dense_routing(n)->Ok_0 != VectorSpace::Sparse,
        is_supported_dimension(n) && is_supported_dimension(m) && n != m ==> dense_routing(
            n,
        )->Ok_0.spec_name() != dense_routing(m)->Ok_0.spec_name(),
{
    reveal_strlit("384_vectors");
    reveal_strlit("512_vectors");
    reveal_strlit("768_vectors");
    reveal_strlit("1024_vectors");
    reveal_strlit("1536_vectors");
    if is_supported_dimension(n) && is_supported_dimension(m) && n != m {
        let a = dense_routing(n)->Ok_0.spec_name();
        let b = dense_routing(m)->Ok_0.spec_name();
        assert(a.len() != b.len() || a[0] != b[0] || a[1] != b[1]);
    }
}

} // verus!
