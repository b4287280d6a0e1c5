//! The decision logic of a bridge that runs a rendering engine on a desktop
//! window toolkit: drag-to-move, clipboard MIME gating, the texture bridge and
//! the engine's framebuffer query. The native calls themselves are made by the
//! host around this library.
pub mod drag;
pub mod engine;
pub mod platform;
pub mod texture;
