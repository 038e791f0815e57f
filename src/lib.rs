//! Model selection and the verified parts of batched CNN inference for m6A
//! calling: which pretrained network serves a sequencing chemistry, the
//! batch shape that a flat window buffer must have, and the extraction of the
//! positive-class probability from the network's two-column output.

pub mod engine;
pub mod selector;

pub use engine::{batch_shape, positive_scores, PredictError, LAYERS, WINDOW};
pub use selector::{select_model, ModelArtifact, PbChem, PredictOptions};
