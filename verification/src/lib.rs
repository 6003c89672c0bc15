//! A minimal real-time rendering harness.
//!
//! The library models the two pieces of a tiny renderer whose behaviour is
//! worth stating precisely: the shader-program lifecycle (compile both
//! stages, link, release the stage objects, report diagnostics) and the
//! per-frame render loop (drain events, clear, bind, set uniforms, draw,
//! present). The graphics driver and the window system are external
//! collaborators: the library decides, and a thin unverified shell performs
//! the corresponding driver calls.

pub mod builder;
pub mod commands;
pub mod diagnostics;
pub mod events;
pub mod geometry;
pub mod render_loop;
pub mod shader;
pub mod uniforms;
