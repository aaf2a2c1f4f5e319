//! A model of a foreign-function binding layer for reference-counted native
//! object frameworks: ownership-tracked handles over a counting runtime, a
//! scoped exclusive-configuration guard, an adapter that turns native
//! exceptions into structured results, and a single-resolution completion
//! bridge for callback-based asynchronous calls. The native side is
//! represented as explicit data so that every rule of the bridge is stated
//! and machine-checked.

pub mod arc;
pub mod av;
pub mod cf;
pub mod cg;
pub mod cm;
pub mod cv;
pub mod mtl;
pub mod blocks;
pub mod ns;
pub mod os;
pub mod sc;
pub mod vt;
