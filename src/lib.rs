//! A render-graph runtime for shader-based interactive scenes.
//!
//! A project describes a graph of nodes (render passes, images, a keyboard
//! texture and a screen output) joined by links between named slots. The engine
//! builds the graph and, for each frame, computes the exact list of device
//! commands that renders it: built-in uniforms, input bindings, double-buffered
//! self-reading passes and resolution changes included. A host executes the
//! commands on its graphics device.

pub mod command;
pub mod config_file;
pub mod determinism;
pub mod gamedata;
pub mod gamestate;
pub mod image;
pub mod keyboard;
pub mod node;
pub mod node_info;
pub mod output;
pub mod pairing;
pub mod renderpass;
pub mod runtime;
pub mod shader;

pub use gamestate::GameState;
pub use runtime::{GameToy, GameToyError};
