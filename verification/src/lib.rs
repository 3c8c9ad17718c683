//! The game rules of a small kinematic platformer, stated over plain values:
//! the level and player layouts, which input becomes which movement action,
//! when a character counts as grounded, and how a kinematic character reacts
//! to a contact manifold. Floating-point arithmetic and the engine calls
//! live in the application around this library.
pub mod level;
pub mod physics;
pub mod player;
