//! Scale tiers of the model family and the embedding dimension each one
//! carries.

use vstd::prelude::*;

verus! {

/// A named size class of the model family.
///
/// Four tiers — small, base, large and giant — are supported by the
/// adapter and map to a fixed embedding dimension.  The remaining tiers
/// exist in the family but have no embedding table entry; selecting one
/// is a configuration error.
#[derive(Clone, Copy, Debug, PartialEq, Eq, Structural)]
pub enum Scale {
    /// Nano.
    N,
    /// Tiny.
    T,
    /// Small.
    S,
    /// Medium.
    M,
    /// Base.
    B,
    /// Large.
    L,
    /// Extra large.
    X,
    /// Giant.
    G,
}

/// The fixed table from a scale tier to its embedding dimension.
/// Tiers outside the table resolve to `None`.
pub open spec fn spec_embedding_dim(s: Scale) -> Option<usize> {
    match s {
        Scale::S => Some(384usize),
        Scale::B => Some(768usize),
        Scale::L => Some(1024usize),
        Scale::G => Some(1536usize),
        _ => None,
    }
}

impl Scale {
    /// The embedding dimension of this tier, or `None` for a tier the
    /// adapter does not support.
    pub fn embedding_dim(&self) -> (r: Option<usize>)
        ensures
            r == spec_embedding_dim(*self),
    {
        match self {
            Scale::S => Some(384),
            Scale::B => Some(768),
            Scale::L => Some(1024),
            Scale::G => Some(1536),
            _ => None,
        }
    }
}

/// Every supported tier resolves to its fixed table value, and every
/// other tier resolves to no value at all.
pub proof fn lemma_embedding_dim_table()
    ensures
        spec_embedding_dim(Scale::S) == Some(384usize),
        spec_embedding_dim(Scale::B) == Some(768usize),
        spec_embedding_dim(Scale::L) == Some(1024usize),
        spec_embedding_dim(Scale::G) == Some(1536usize),
        spec_embedding_dim(Scale::N) is None,
        spec_embedding_dim(Scale::T) is None,
        spec_embedding_dim(Scale::M) is None,
        spec_embedding_dim(Scale::X) is None,
{
}

} // verus!
