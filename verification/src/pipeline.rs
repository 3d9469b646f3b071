//! The encoding pipeline as a mathematical function of its stage
//! outcomes, and the session tokens that force the stages into strict
//! sequence.
//!
//! One run moves through three stages: preprocess, inference,
//! postprocess.  The first two are carried out by external components;
//! the adapter receives each outcome as a plain value.  A
//! [`Preprocessing`] token stands for a run whose preprocessing is under
//! way and an [`Inferring`] token for one whose inference is under way;
//! each is produced only by the adapter, so no inference can be reported
//! for a run whose preprocessing did not succeed.

use vstd::prelude::*;
use std::time::Instant;
use crate::errors::PipelineError;

verus! {

/// A run whose image batch has been handed to the preprocessing
/// component.  Carries the moment the stage began.
#[derive(Debug)]
pub struct Preprocessing {
    pub(crate) started: Instant,
}

/// A run whose tensors have been handed to the inference engine.
/// Carries the moment the stage began.  A value of this type exists only
/// for runs whose preprocessing succeeded.
#[derive(Debug)]
pub struct Inferring {
    pub(crate) started: Instant,
}

/// What one inference outcome yields: the engine's failure report, the
/// defect error for an empty output collection, or the first element of
/// the output collection as the embedding.
pub open spec fn spec_inference_result<T>(outcome: Result<Vec<T>, String>) -> Result<
    T,
    PipelineError,
> {
    match outcome {
        Err(m) => Err(PipelineError::Inference(m)),
        Ok(xs) => if xs@.len() == 0 {
            Err(PipelineError::EmptyEngineOutput)
        } else {
            Ok(xs@[0])
        },
    }
}

/// What one whole run yields, as a function of the batch size and the
/// two external stage outcomes alone.
pub open spec fn spec_encode_outcome<T>(
    n_images: nat,
    preprocessed: Result<Vec<T>, String>,
    inferred: Result<Vec<T>, String>,
) -> Result<T, PipelineError> {
    if n_images == 0 {
        Err(PipelineError::EmptyBatch)
    } else {
        match preprocessed {
            Err(m) => Err(PipelineError::Preprocess(m)),
            Ok(_) => spec_inference_result(inferred),
        }
    }
}

/// Encoding is deterministic: two runs over the same batch size whose
/// stage outcomes agree yield the same embedding, bit for bit.  Apart
/// from the timing side effect, a run is a pure function of the resolved
/// shape and its inputs.
pub proof fn lemma_encode_deterministic<T>(
    n1: nat,
    pre1: Result<Vec<T>, String>,
    inf1: Result<Vec<T>, String>,
    n2: nat,
    pre2: Result<Vec<T>, String>,
    inf2: Result<Vec<T>, String>,
)
    requires
        n1 == n2,
        pre1 == pre2,
        inf1 == inf2,
    ensures
        spec_encode_outcome(n1, pre1, inf1) == spec_encode_outcome(n2, pre2, inf2),
{
}

/// A failure at the preprocessing stage decides the run: the result is
/// the preprocessing error itself, and no inference outcome — indeed no
/// inference at all — can influence it.
pub proof fn lemma_preprocess_failure_aborts<T>(
    n_images: nat,
    report: String,
    inf1: Result<Vec<T>, String>,
    inf2: Result<Vec<T>, String>,
)
    requires
        n_images > 0,
    ensures
        spec_encode_outcome(n_images, Err(report), inf1) == Err::<T, PipelineError>(
            PipelineError::Preprocess(report),
        ),
        spec_encode_outcome(n_images, Err(report), inf1) == spec_encode_outcome(
            n_images,
            Err(report),
            inf2,
        ),
{
}

} // verus!
