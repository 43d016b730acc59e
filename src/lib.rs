//! Decision core of a first-person arena shooter's enemies: deterministic
//! spawn jitter, the per-unit behaviour state machine, the binding latch
//! between a unit and its animated mesh, shot damage and the death sweep.

pub mod anim;
pub mod behavior;
pub mod binding;
pub mod hash;
pub mod spawn;
pub mod unit;
