//! Answers to the rendering engine's host callbacks that need no native call.
use vstd::prelude::*;

verus! {

/// Id of the default, on-screen framebuffer.
pub const DEFAULT_FRAMEBUFFER: u32 = 0;

/// The framebuffer the engine renders into: always the default on-screen one.
pub fn fbo_callback() -> (r: u32)
    ensures
        r == DEFAULT_FRAMEBUFFER,
{
    DEFAULT_FRAMEBUFFER
}

} // verus!
