//! A verified model-adapter core for a DINOv2-style visual encoder.
//!
//! The library resolves a concrete model shape (input height and width,
//! batch size, embedding dimension) from a declarative configuration and
//! drives the three-stage encoding pipeline — preprocess, inference,
//! postprocess — with per-stage timing.  The inference engine and the image
//! preprocessor themselves are external components: the adapter receives
//! their declared shape and their stage outcomes as plain values and is
//! verified for every value they could produce.

pub mod adapter;
pub mod clock;
pub mod config;
pub mod errors;
pub mod pipeline;
pub mod scale;
pub mod timing;

pub use adapter::DINOv2;
pub use config::Config;
pub use config::EngineShape;
pub use config::ResolvedSpec;
pub use errors::ConfigError;
pub use errors::PipelineError;
pub use pipeline::Inferring;
pub use pipeline::Preprocessing;
pub use scale::Scale;
pub use timing::StageLabel;
pub use timing::StageRecord;
pub use timing::Ts;
