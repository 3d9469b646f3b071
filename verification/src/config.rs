//! Declarative configuration of the adapter and its resolution into a
//! concrete model shape.

use vstd::prelude::*;
use crate::errors::ConfigError;
use crate::scale::{spec_embedding_dim, Scale};

verus! {

/// The spatial side length a dimension falls back to when the engine
/// declares none.
pub const DEFAULT_SIDE: usize = 384;

/// The shape metadata a constructed inference engine declares: its batch
/// size always, its input height and width only when the loaded model
/// fixes them.
#[derive(Clone, Copy, Debug, PartialEq, Eq, Structural)]
pub struct EngineShape {
    /// The batch size the engine works in.
    pub batch: usize,
    /// The input height the engine declares, if any.
    pub height: Option<usize>,
    /// The input width the engine declares, if any.
    pub width: Option<usize>,
}

impl EngineShape {
    /// A shape an engine can actually declare: the batch size and every
    /// declared side are positive.
    pub open spec fn wf(self) -> bool {
        &&& self.batch >= 1
        &&& (self.height matches Some(h) ==> h >= 1)
        &&& (self.width matches Some(w) ==> w >= 1)
    }
}

/// The declarative configuration the adapter is built from: the scale
/// tier, if one was specified, and the shape the constructed engine
/// declares.
#[derive(Clone, Copy, Debug, PartialEq, Eq, Structural)]
pub struct Config {
    /// The scale tier of the model, if the configuration names one.
    pub scale: Option<Scale>,
    /// The shape the engine built from this configuration declares.
    pub engine: EngineShape,
}

impl Config {
    /// A configuration whose engine shape is well formed.
    pub open spec fn wf(self) -> bool {
        self.engine.wf()
    }
}

/// The concrete, validated model shape the adapter holds once it is
/// constructed: input height and width, batch size, and the embedding
/// dimension of the scale tier.  Immutable for the adapter's lifetime.
#[derive(Clone, Copy, Debug, PartialEq, Eq, Structural)]
pub struct ResolvedSpec {
    /// Input height in pixels.
    pub height: usize,
    /// Input width in pixels.
    pub width: usize,
    /// Batch size, taken verbatim from the engine.
    pub batch: usize,
    /// Embedding dimension of the scale tier.
    pub dim: usize,
}

impl ResolvedSpec {
    /// Every field of a resolved shape is positive.
    pub open spec fn wf(self) -> bool {
        &&& self.height >= 1
        &&& self.width >= 1
        &&& self.batch >= 1
        &&& self.dim >= 1
    }
}

/// A declared side, or the fallback side length when none is declared.
pub open spec fn spec_side(declared: Option<usize>) -> usize {
    match declared {
        Some(s) => s,
        None => DEFAULT_SIDE,
    }
}

/// Configuration resolution as one mathematical function: the exact
/// shape, or the exact error, that a configuration resolves to.
pub open spec fn spec_resolve(c: Config) -> Result<ResolvedSpec, ConfigError> {
    match c.scale {
        None => Err(ConfigError::NoScale),
        Some(s) => match spec_embedding_dim(s) {
            None => Err(ConfigError::UnsupportedScale(s)),
            Some(dim) => Ok(ResolvedSpec {
                height: spec_side(c.engine.height),
                width: spec_side(c.engine.width),
                batch: c.engine.batch,
                dim,
            }),
        },
    }
}

/// Resolve a configuration into a concrete model shape.
///
/// Succeeds exactly when the configuration names a supported scale tier;
/// the height and width fall back to 384 where the engine declares none,
/// and are taken verbatim where it does.
pub fn resolve(c: &Config) -> (r: Result<ResolvedSpec, ConfigError>)
    requires
        c.wf(),
    ensures
        r == spec_resolve(*c),
        r is Ok <==> (c.scale matches Some(s) && spec_embedding_dim(s) is Some),
        r matches Ok(rs) ==> rs.wf(),
{
    let dim = match c.scale {
        None => {
            return Err(ConfigError::NoScale);
        },
        Some(s) => match s.embedding_dim() {
            None => {
                return Err(ConfigError::UnsupportedScale(s));
            },
            Some(dim) => dim,
        },
    };
    let height = match c.engine.height {
        Some(h) => h,
        None => DEFAULT_SIDE,
    };
    let width = match c.engine.width {
        Some(w) => w,
        None => DEFAULT_SIDE,
    };
    Ok(ResolvedSpec { height, width, batch: c.engine.batch, dim })
}

/// The engine's declared sides are used verbatim, and a missing
/// declaration falls back to 384 — silently, never as an error.
pub proof fn lemma_shape_resolution(c: Config)
    requires
        spec_resolve(c) is Ok,
    ensures
        c.engine.height is None ==> spec_resolve(c)->Ok_0.height == DEFAULT_SIDE,
        c.engine.width is None ==> spec_resolve(c)->Ok_0.width == DEFAULT_SIDE,
        c.engine.height matches Some(h) ==> spec_resolve(c)->Ok_0.height == h,
        c.engine.width matches Some(w) ==> spec_resolve(c)->Ok_0.width == w,
        spec_resolve(c)->Ok_0.batch == c.engine.batch,
{
}

} // verus!
