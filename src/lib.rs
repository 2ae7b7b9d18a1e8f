//! A transform gizmo's drag-interaction engine on an integer world lattice.
//!
//! Points are lattice coordinates and directions are fixed-point vectors
//! scaled by [`vector::UNIT`]; all geometry is computed exactly, with each
//! result rounded towards negative infinity onto the lattice.
//!
//! - [`vector`]: lattice vectors and their arithmetic.
//! - [`plane`]: rays, ray/plane intersection, signed offsets, projections.
//! - [`interaction`]: orientations, handle interactions, turns and changes.
//! - [`resolve`]: what one pointer move of a drag changes.
//! - [`selection`]: the entities a drag moves, their snapshots, parent frames.
//! - [`gizmo`]: the gizmo's drag state machine and the engine that runs it.
pub mod vector;
pub mod plane;
pub mod interaction;
pub mod resolve;
pub mod selection;
pub mod gizmo;
