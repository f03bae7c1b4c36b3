//! TFX shader expression core: a typed, offset-addressed reflection layer over
//! fixed-layout "Extern" blocks, a resolver that classifies field lookups and
//! keeps diagnostic counters, and a bytecode codec and stack machine that
//! evaluates shader-bound expressions against that reflected state.

pub mod blocks;
pub mod diag;
pub mod fields;
pub mod interpreter;
pub mod kinds;
pub mod loaders;
pub mod mathops;
pub mod opcodes;
pub mod scopes;
pub mod storage;
pub mod tags;
pub mod values;

pub use values::TextureView;
