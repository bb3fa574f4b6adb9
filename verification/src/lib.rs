//! Scene bookkeeping for a portal ray tracer: object lists capped at the
//! sizes the renderer reserves, the fixed-size layout handed to it, portal
//! pairing, the choices a traced ray makes (nearest hit, bounces, portal
//! order), scene selection and the viewer's input decisions.
//!
//! Geometry itself stays with the caller: the object types are generic, and
//! where a decision rests on a distance or a projection the caller answers
//! that one question through a closure.

pub mod bounded;
pub mod builder;
pub mod controls;
pub mod debug_ray;
pub mod navigation;
pub mod nearest;
pub mod portal;
pub mod scene;
pub mod scene_buffer;
pub mod screen;
