//! The core of an on-screen keyboard: the layered, split layout it shows,
//! the identities of its keys, and the state machine that latches one-shot
//! modifiers, switches layers and decides which scan codes are forwarded to
//! the key-injection service.
use vstd::prelude::*;

pub mod assets;
pub mod behavior;
pub mod keys;
pub mod layout;
pub mod model;

verus! {

} // verus!
