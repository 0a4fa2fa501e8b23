//! A particle solver on Verlet integration: round bodies that fall under
//! gravity inside a round boundary and push one another apart.
//!
//! All arithmetic is done by the vector type of `macroquad`. The solver's
//! contracts are stated over the results of that arithmetic, each of which has
//! a name in [`algebra`].

pub mod algebra;
pub mod constraint;
pub mod entity;
pub mod motion;
pub mod resolver;
pub mod schedule;
pub mod shape;
pub mod simulation;
