//! A minimal verified state-mutation handler for a host-dispatched program:
//! it authorizes itself against the owner of the first supplied account,
//! decodes the counter stored in that account's data region under a strict
//! fixed-width little-endian encoding, increments it with wraparound, and
//! writes it back in place.

pub mod account;
pub mod error;
pub mod handler;
pub mod identity;
pub mod state;

pub use account::AccountRecord;
pub use error::Failure;
pub use handler::process_instruction;
pub use identity::{Identity, IDENTITY_WIDTH};
pub use state::{GreetingAccount, STATE_SIZE};
