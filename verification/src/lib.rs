//! A reference-counted cell with run-time borrow tracking.
//!
//! The cell keeps a payload together with three counters: how many owning
//! handles refer to it, how many read guards are outstanding, and how many
//! write guards are outstanding.  Handles are cloned to share ownership,
//! guards give bounded read or write access, and an explicit detach/reattach
//! protocol turns a handle into a plain address and back, for ownership that
//! must cross an opaque boundary.  All allocations live in an arena of
//! addressed slots, so every operation is verified against a mathematical
//! model of the whole heap.

/// The mathematical model: one cell's state and the transitions the
/// executable operations perform, with the laws that relate them.
pub mod model;

/// The executable cell: the arena, the handle, the guards and the errors.
pub mod arc_unsafe_refcell;
