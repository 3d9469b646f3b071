//! The error taxonomy of the adapter: what can go wrong while the
//! configuration is resolved, and what can go wrong during one encoding
//! run.

use vstd::prelude::*;
use crate::scale::Scale;

verus! {

/// A construction-time failure.  Nothing of the adapter survives one of
/// these: construction either yields a complete adapter or one of these
/// values.
#[derive(Clone, Copy, Debug, PartialEq, Eq, Structural)]
pub enum ConfigError {
    /// The configuration carried no scale tier at all.
    NoScale,
    /// The configuration named a scale tier that has no embedding
    /// dimension; the offending tier is carried along.
    UnsupportedScale(Scale),
}

/// A failure of one encoding run.  Every variant is terminal for its
/// call: nothing is retried, and the batch fails as a whole.
#[derive(Clone, Debug, PartialEq, Eq)]
pub enum PipelineError {
    /// The run was asked to encode no images at all; no stage was
    /// entered.
    EmptyBatch,
    /// The preprocessing component rejected the batch; its report is
    /// carried along.  No inference was attempted.
    Preprocess(String),
    /// The inference engine failed to execute; its report is carried
    /// along.
    Inference(String),
    /// The engine returned an empty output collection although the first
    /// element is owed as the embedding.  This marks a defect in the
    /// engine, not bad input.
    EmptyEngineOutput,
}

} // verus!
