//! A batched 2D quad renderer whose decisions are verified: quads become
//! vertices in a fixed winding, vertices gather into batches of bounded
//! size, and each batch becomes one upload and one draw call. The calls
//! for the graphics backend come out as commands, performed by the caller.

pub mod math;
pub mod layout;
pub mod gpu;
pub mod shader;
pub mod renderer;
pub mod frame;
