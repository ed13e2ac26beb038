//! Driver core for an on-chip serial audio interface (SAI/I2S) and for
//! hardware timer blocks.
//!
//! The crate holds the decision logic of the two drivers: capability
//! declarations for each peripheral instance, assembly of the native
//! parameter blocks, the install/teardown state machine, the
//! context-sensitive dispatch of timer operations, and the bounded
//! interrupt-callback registry.  Every native register-level routine is an
//! external collaborator: the drivers compute exactly which native call to
//! make, as an action value, and the embedding program performs it and
//! reports the outcome back.

use vstd::prelude::*;

pub mod sai;
pub mod timer;

verus! {

/// The execution context a driver operation runs in.
///
/// `Normal` is ordinary, preemptible program flow; `Interrupt` is execution
/// inside an interrupt service routine, where blocking and general
/// allocation are forbidden.  Operations that are defined only for normal
/// context state that as a precondition; the embedder passes the context it
/// observed from the interrupt subsystem.
#[derive(Clone, Copy, Debug, PartialEq, Eq, Structural)]
pub enum ExecContext {
    Normal,
    Interrupt,
}

/// A raw error code of the native driver layer, surfaced unchanged.
#[derive(Clone, Copy, Debug, PartialEq, Eq, Structural)]
pub struct NativeError {
    pub code: i32,
}

} // verus!
