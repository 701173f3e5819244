//! Rust bindings to a bundled equation-typesetting script, run on an embedded
//! QuickJS engine.
//!
//! The crate separates a verified core — the JS-shaped value contract, the
//! unified error taxonomy, the init-once-or-stay-poisoned lifecycle of one
//! engine per concurrency unit, and the render pipeline — from a thin trusted
//! boundary of calls into the `quick-js` runtime.

mod error;
mod js_engine;
mod opts;
mod renderer;
mod value;

pub use error::Error;
pub use js_engine::Engine;
pub use opts::Opts;
pub use renderer::EngineState;
pub use renderer::Renderer;
pub use renderer::render;
pub use renderer::render_with_opts;
pub use value::Value;
pub use value::lemma_primitive_round_trip;
pub use value::lemma_tag_mismatch;
