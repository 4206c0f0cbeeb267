//! The bridge between a windowed host and an embedded media engine.
//!
//! The library decides; it never calls the host or the engine. `control`
//! holds the control loop as a machine that names the next action and takes
//! back its outcome, and `laws` what is proved of it. The other modules are
//! what the machine is made of: the key bindings (`input`), the engine's
//! properties, options and commands (`property`, `engine`), the target of a
//! frame (`render`), the window's fullscreen state (`window`), and the text
//! that crosses the native boundary (`text`).

pub mod control;
pub mod engine;
pub mod input;
pub mod laws;
pub mod property;
pub mod render;
pub mod text;
pub mod window;
