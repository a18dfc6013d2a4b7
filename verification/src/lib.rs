//! Draw-preparation core of a sprite-based 3D game renderer.
//!
//! Each frame the surrounding engine collects render instructions (world
//! transforms, texture handles, per-instance attributes) and hands them to a
//! batcher, one per draw kind.  A batcher deduplicates texture references,
//! packs the instructions into GPU-ready instance records and, for indirect
//! draw kinds, emits a draw-command array.  The draw phase is described as a
//! sequence of plain commands that a thin device layer executes against the
//! real graphics API.

pub mod aabb;
pub mod blitter;
pub mod buffer;
pub mod capabilities;
pub mod command;
pub mod dedup;
pub mod entity;
pub mod instruction;
pub mod model;
pub mod picker;
pub mod settings;
pub mod water;
pub mod widget;
