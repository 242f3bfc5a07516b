//! A frame composer for a window that shows an animated full-screen effect
//! with a text overlay.
//!
//! A frame is composed in three steps. The effect is rendered into an
//! offscreen target; the text is blended over it in the same render pass;
//! and a second pass post-processes the offscreen target onto the image of
//! the surface, which is then presented.
//!
//! The composer itself never touches the GPU or the window. It keeps a
//! record of what its host holds ([`state`]), and answers every window
//! event with a plan ([`plan`], [`event`]): a sequence of commands for the
//! host to carry out in order. What the host allocates is described by
//! plain values ([`resource`], [`pipeline`], [`geometry`], [`surface`]), and
//! how long it waits between frames is computed by the pacer ([`pacer`]).
//! A model of the host ([`host`]) says which commands a GPU accepts in
//! which order, and every plan of the composer is proved to be acceptable
//! and to leave the host as the composer has recorded it.

pub mod event;
pub mod geometry;
pub mod host;
pub mod pacer;
pub mod pipeline;
pub mod plan;
pub mod resource;
pub mod state;
pub mod surface;
