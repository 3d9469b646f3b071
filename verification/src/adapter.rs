//! The model adapter: construction from a declarative configuration and
//! the three-stage encoding pipeline it drives.

use vstd::prelude::*;
use crate::clock;
use crate::config::{resolve, spec_resolve, Config, ResolvedSpec};
use crate::errors::{ConfigError, PipelineError};
use crate::pipeline::{spec_inference_result, Inferring, Preprocessing};
use crate::timing::{appended, appended_two, StageLabel, StageRecord, Ts};

verus! {

/// A DINOv2-style visual encoder adapter.
///
/// Holds the model shape resolved once at construction — immutable from
/// then on — and the timing sink its runs report into.  The external
/// preprocessing component must be configured with the resolved width
/// and height, and the engine's output collection is read positionally:
/// its first element is the embedding.
#[derive(Debug)]
pub struct DINOv2 {
    resolved: ResolvedSpec,
    ts: Ts,
}

impl DINOv2 {
    /// The model shape this adapter was constructed with.
    pub closed spec fn spec_resolved(self) -> ResolvedSpec {
        self.resolved
    }

    /// The stage records this adapter has accumulated, oldest first.
    pub closed spec fn spec_records(self) -> Seq<StageRecord> {
        self.ts@
    }

    /// A well-formed adapter holds a well-formed resolved shape.
    pub open spec fn wf(self) -> bool {
        self.spec_resolved().wf()
    }

    /// Construct an adapter from a configuration.
    ///
    /// Succeeds exactly when the configuration resolves — that is, when
    /// it names a supported scale tier — and then holds the resolved
    /// shape and an empty timing sink.  On failure nothing of the
    /// adapter survives: the exact configuration error is all that is
    /// returned.
    pub fn new(config: Config) -> (r: Result<DINOv2, ConfigError>)
        requires
            config.wf(),
        ensures
            spec_resolve(config) matches Ok(rs) ==> (r matches Ok(a) && a.spec_resolved() == rs
                && a.spec_records() == Seq::<StageRecord>::empty() && a.wf()),
            spec_resolve(config) matches Err(e) ==> (r matches Err(e2) && e2 == e),
    {
        let resolved = match resolve(&config) {
            Ok(rs) => rs,
            Err(e) => {
                return Err(e);
            },
        };
        Ok(DINOv2 { resolved, ts: Ts::new() })
    }

    /// Begin one encoding run over an ordered batch of images.
    ///
    /// An empty batch is rejected before any stage is entered; a
    /// non-empty batch yields a [`Preprocessing`] token, and the batch
    /// is owed to the preprocessing component.
    pub fn encode_images<I>(&self, images: &[I]) -> (r: Result<Preprocessing, PipelineError>)
        ensures
            images@.len() == 0 ==> (r matches Err(e) && e == PipelineError::EmptyBatch),
            images@.len() != 0 ==> r is Ok,
    {
        if images.len() == 0 {
            Err(PipelineError::EmptyBatch)
        } else {
            Ok(Preprocessing { started: clock::monotonic_now() })
        }
    }

    /// Report the preprocessing component's outcome for a run.
    ///
    /// On success the stage's duration is recorded under
    /// `visual-preprocess` and the produced tensors are returned
    /// unchanged beside an [`Inferring`] token: they are owed to the
    /// engine.  On failure nothing is recorded, the run is over, and no
    /// [`Inferring`] token — hence no inference — can come of it.
    pub fn preprocess<T>(
        &mut self,
        run: Preprocessing,
        outcome: Result<Vec<T>, String>,
    ) -> (r: Result<(Inferring, Vec<T>), PipelineError>)
        ensures
            final(self).spec_resolved() == old(self).spec_resolved(),
            outcome matches Ok(xs) ==> (r matches Ok(p) && p.1@ == xs@ && appended(
                old(self).spec_records(),
                final(self).spec_records(),
                StageLabel::VisualPreprocess,
            )),
            outcome matches Err(m) ==> (r matches Err(e) && e == PipelineError::Preprocess(m)
                && final(self).spec_records() == old(self).spec_records()),
    {
        match outcome {
            Ok(xs) => {
                let d = clock::elapsed_since(&run.started);
                let n = clock::saturate_nanos(clock::duration_as_nanos(&d));
                self.ts.record(StageLabel::VisualPreprocess, n);
                Ok((Inferring { started: clock::monotonic_now() }, xs))
            },
            Err(m) => Err(PipelineError::Preprocess(m)),
        }
    }

    /// Report the inference engine's outcome for a run.
    ///
    /// On success the stage's duration is recorded under
    /// `visual-inference`, and the postprocessing stage extracts the
    /// first element of the engine's output collection as the embedding,
    /// timed under `visual-postprocess`.  An empty output collection is
    /// a defect of the engine and yields
    /// [`PipelineError::EmptyEngineOutput`] with no postprocess record.
    /// An engine failure records nothing and carries the engine's
    /// report.
    pub fn inference<T>(
        &mut self,
        run: Inferring,
        outcome: Result<Vec<T>, String>,
    ) -> (r: Result<T, PipelineError>)
        ensures
            final(self).spec_resolved() == old(self).spec_resolved(),
            r == spec_inference_result(outcome),
            outcome matches Err(m) ==> final(self).spec_records() == old(self).spec_records(),
            outcome matches Ok(xs) && xs@.len() == 0 ==> appended(
                old(self).spec_records(),
                final(self).spec_records(),
                StageLabel::VisualInference,
            ),
            outcome matches Ok(xs) && xs@.len() != 0 ==> appended_two(
                old(self).spec_records(),
                final(self).spec_records(),
                StageLabel::VisualInference,
                StageLabel::VisualPostprocess,
            ),
    {
        match outcome {
            Ok(mut xs) => {
                let d = clock::elapsed_since(&run.started);
                let n = clock::saturate_nanos(clock::duration_as_nanos(&d));
                self.ts.record(StageLabel::VisualInference, n);
                if xs.len() == 0 {
                    Err(PipelineError::EmptyEngineOutput)
                } else {
                    let t0 = clock::monotonic_now();
                    let x = xs.remove(0);
                    let d2 = clock::elapsed_since(&t0);
                    let n2 = clock::saturate_nanos(clock::duration_as_nanos(&d2));
                    self.ts.record(StageLabel::VisualPostprocess, n2);
                    Ok(x)
                }
            },
            Err(m) => Err(PipelineError::Inference(m)),
        }
    }

    /// The resolved model shape.
    pub fn resolved(&self) -> (r: ResolvedSpec)
        ensures
            r == self.spec_resolved(),
    {
        self.resolved
    }

    /// The resolved input height in pixels.
    pub fn height(&self) -> (r: usize)
        ensures
            r == self.spec_resolved().height,
    {
        self.resolved.height
    }

    /// The resolved input width in pixels.
    pub fn width(&self) -> (r: usize)
        ensures
            r == self.spec_resolved().width,
    {
        self.resolved.width
    }

    /// The batch size, taken verbatim from the engine.
    pub fn batch(&self) -> (r: usize)
        ensures
            r == self.spec_resolved().batch,
    {
        self.resolved.batch
    }

    /// The embedding dimension of the configured scale tier.
    pub fn dim(&self) -> (r: usize)
        ensures
            r == self.spec_resolved().dim,
    {
        self.resolved.dim
    }

    /// The stage records accumulated over all runs, oldest first.
    pub fn records(&self) -> (r: &Vec<StageRecord>)
        ensures
            r@ == self.spec_records(),
    {
        self.ts.entries()
    }
}

} // verus!
