//! The core's record of the driver's mutable binding state.
//!
//! The driver remembers at most one active program and one active vertex
//! array; binding replaces the previous choice. Draws are only meaningful
//! while both are bound.

use vstd::prelude::*;

verus! {

/// Which program and which vertex array the core has made active.
pub struct RenderState {
    pub active_program: Option<u32>,
    pub active_array: Option<u32>,
}

/// What binding a program does to the state: the program slot is replaced,
/// the vertex-array slot is untouched.
pub open spec fn bind_program_step(s: RenderState, id: u32) -> RenderState {
    (RenderState { active_program: Some(id), active_array: s.active_array })
}

/// What binding a vertex array does to the state: the array slot is replaced,
/// the program slot is untouched.
pub open spec fn bind_array_step(s: RenderState, id: u32) -> RenderState {
    (RenderState { active_program: s.active_program, active_array: Some(id) })
}

/// A draw call has defined behavior only with a program and a vertex array
/// both bound.
pub open spec fn draw_ready(s: RenderState) -> bool {
    s.active_program is Some && s.active_array is Some
}

impl RenderState {
    /// A fresh context: nothing bound yet.
    pub fn new() -> (s: RenderState)
        ensures
            s.active_program is None,
            s.active_array is None,
    {
        RenderState { active_program: None, active_array: None }
    }
}

/// Binding is idempotent: with no intervening state change, binding the same
/// program twice leaves the state exactly as binding it once does.
pub proof fn lemma_bind_program_idempotent(s: RenderState, id: u32)
    ensures
        bind_program_step(bind_program_step(s, id), id) == bind_program_step(s, id),
{
}

/// Binding the same vertex array twice is idempotent as well.
pub proof fn lemma_bind_array_idempotent(s: RenderState, id: u32)
    ensures
        bind_array_step(bind_array_step(s, id), id) == bind_array_step(s, id),
{
}

} // verus!
