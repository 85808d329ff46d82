//! Engine of a terminal workbench that wraps a conversational command-line
//! agent: cleaning and buffering of the child's output, per-prompt snapshot
//! planning, quota bookkeeping, and the reducer that folds key presses and
//! background results into one application model.
//!
//! Nothing here touches the terminal, the file system, the network or
//! another process: what is to be done there is described as values for the
//! caller to perform. All the library takes from outside on its own is the
//! time and a random identifier, each where a row is stamped.

pub mod config;
pub mod engine;
pub mod json;
pub mod keys;
pub mod lines;
pub mod log;
pub mod model;
pub mod snapshot;
pub mod text;
pub mod usage;
pub mod view;
