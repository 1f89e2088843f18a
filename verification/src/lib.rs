//! The deterministic core of a small physics-driven 2D game.
//!
//! The crate keeps the bookkeeping of a rigid-body world (which bodies exist,
//! which forces were asked for, where each body was last seen), the set of
//! held keys, and the rules that turn held keys into forces and body poses
//! into draw commands. The numeric integration itself and the drawing are
//! done by whoever drives the session: each tick hands out the forces to
//! apply and takes back the poses and contact events that resulted.
//!
//! Every scalar is a fixed-point integer in thousandths, see [`geometry`].

pub mod draw;
pub mod game;
pub mod geometry;
pub mod input;
pub mod sprite;
pub mod world;
