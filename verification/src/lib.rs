//! The host bridge and bounded execution pipeline of an embedded scripting
//! runtime: the codec between host values and script values, the registry
//! of capabilities that a script may call, the settlement of asynchronous
//! host calls, the mapping of byte offsets to positions, and the state
//! machine that takes a request from its setup to its response.

pub mod bridge;
pub mod codec;
pub mod config;
pub mod cyb;
pub mod diagnostics;
pub mod helpers;
pub mod json;
pub mod number;
pub mod options;
pub mod pipeline;
pub mod position;
pub mod result;
pub mod setup;
pub mod text;
pub mod value;

pub use crate::result::WasmCompileResult;
