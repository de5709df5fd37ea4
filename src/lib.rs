//! Zond is a crate with standard rust collections that collect statistics.
//!
//! It holds [`zvec::ZVec`], an analogue of [`Vec`] that records every method
//! call as an [`Operation`] and hands the recorded operations, in batches, to
//! a [`ZondHandler`]. A [`Zond`] names the handler and the [`Policy`] that
//! decides when a batch is handed over: only at the end, after every `n`-th
//! operation, or at the first operation after a quiet period. Ending a
//! collection (`ZVec::finish`, or a method that consumes it) always hands over
//! whatever is still collected.
//!
//! The log of each collection is specified in ghost state: the operations
//! recorded, and the batches handed over. The proof functions of
//! [`collection`] state what holds of them under each policy.

pub use collection::{IdGenerator, Operation, OperationType, Operations, Zond, ZondCollection, ZondHandler};
pub use policy::{Policy, PolicyError, PolicyView};

pub mod bounds;
pub mod clock;
pub mod collection;
pub mod policy;
pub mod vec_std;
pub mod zvec;
