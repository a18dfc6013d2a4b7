//! Device capability flags that the batchers branch on.
//!
//! The surrounding engine queries them once from the graphics backend and
//! passes them in at construction; nothing in this crate reads ambient state.

use vstd::prelude::*;

verus! {

/// How far the backend supports binding many textures at once.
#[derive(Clone, Copy, PartialEq, Eq, Structural, Debug)]
pub enum BindlessSupport {
    /// Texture arrays of arbitrary content can be bound.
    Full,
    /// Texture arrays work but with a limited slot count.
    Limited,
    /// Every texture must be bound individually.
    Individual,
}

/// Capability flags of the graphics device, fixed for the whole session.
#[derive(Clone, Copy, PartialEq, Eq, Structural, Debug)]
pub struct Capabilities {
    /// Whether texture-array descriptors may be sparsely bound.  Backends
    /// without this need the slot array padded up to `max_texture_slots`.
    pub partially_bound_binding_array: bool,
    /// Whether one device command can issue many indexed draws from a
    /// device-resident command array.
    pub multidraw_indirect: bool,
    /// Bindless texture support of the backend.
    pub bindless: BindlessSupport,
    /// Fixed size of the texture-array binding on backends that reject
    /// sparsely bound arrays.
    pub max_texture_slots: usize,
}

/// Shape of one render pass, checked once at startup: how many bind groups
/// the pass provides and how many color and depth attachments it writes.
#[derive(Clone, Copy, PartialEq, Eq, Structural, Debug)]
pub struct PassConfiguration {
    pub bind_group_count: usize,
    pub color_attachment_count: usize,
    pub depth_attachment_count: usize,
}

impl PassConfiguration {
    /// Whether the configuration is one a pass of this renderer can have:
    /// one or two bind groups, zero, one or three color attachments, and
    /// at most one depth attachment.
    pub fn is_valid(&self) -> (r: bool)
        ensures
            r == ((self.bind_group_count == 1 || self.bind_group_count == 2) && (
            self.color_attachment_count == 0 || self.color_attachment_count == 1
                || self.color_attachment_count == 3) && self.depth_attachment_count <= 1),
    {
        (self.bind_group_count == 1 || self.bind_group_count == 2)
            && (self.color_attachment_count == 0 || self.color_attachment_count == 1
            || self.color_attachment_count == 3) && self.depth_attachment_count <= 1
    }
}

} // verus!
