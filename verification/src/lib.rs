//! Embeds a scripting interpreter inside a host media application so that
//! user-authored scripts can transform image buffers frame by frame.
//!
//! This crate holds the runner core: descriptors over pixel memory, the typed
//! parameter registry with its reload-adoption rules, the script context that
//! mediates every script-to-host interaction, the proxy-buffer blit, and the
//! two-phase (declare, then run) execution state machine. The interpreter
//! itself is driven by the embedding application, which feeds the outcomes of
//! script invocations back into the state machine here.

mod blit;
mod context;
pub mod default_script;
mod desc;
mod errors;
mod fbits;
mod params;
mod registry;
mod runner;
mod task;
mod variant;

pub use context::{ImageData, InputValue, PyContext};
pub use params::{as_param_index, AeVariant, ParamIdx, MAX_INPUTS, PARAM_TYPE_COUNT, STATIC_PARAMS_OFFSET};
pub use task::{ImageBuffer, OutputDesc, TaskStatus};
pub use desc::{view_layout, ImageFormat, InDesc, OutDesc, OutputSize, ViewElement};
pub use fbits::{compare_bits, is_nan_bits, lt_bits, lt_bits2, FloatOrder};
pub use variant::{Cfg, DiscreteCfg, Image, TaggedInt, TaggedIntV, Variant, VariantV};
pub use errors::{GolobulError, StdOutCatcher};
pub use runner::{fresh_module_identity, ExecutionPath, ModuleShape, PythonRunner, RenderPass, RunOutcome, SetupOutcome};
