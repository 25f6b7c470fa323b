//! Decision logic of a 2D rigid-body collision engine: support-point
//! selection, the GJK and EPA iteration controllers, and the body registry
//! with its pair enumeration and broad-phase pruning.
//!
//! Every geometric quantity that these decisions read (a dot product, the
//! sign of a cross product, a distance) is handed in already reduced to a
//! plain value: a `bool` for a sign test, an `i64` order key for a quantity
//! that is only ever compared.
pub mod epa;
pub mod gjk;
pub mod shape;
pub mod world;
