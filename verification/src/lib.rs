//! A verified lifecycle core for a supervised background network service.
//!
//! The library models an actor that owns the `Stopped`/`Active` state of a
//! network listener. External callers submit `Start`/`Stop` commands; the
//! actor decides which side effect (binding or releasing the listening port)
//! the command requires, applies the collaborator's outcome to its state, and
//! produces one status report per successfully processed command.
//!
//! The actor never performs socket I/O itself: the surrounding program owns
//! the mailbox loop and the listener collaborator, hands each command and the
//! collaborator's outcome to the actor, and forwards the reports outward.

pub mod actor;
pub mod laws;
pub mod protocol;
