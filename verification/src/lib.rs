//! A minimal blocking mutual-exclusion cell built directly on a futex-style
//! wait/wake mechanism.
//!
//! [`Mewtex`] owns a protected value and an atomic state word; [`lock`] hands
//! the value to a scoped [`MewtexGuard`], and releasing the token returns the
//! value, re-opens the word, and wakes one waiter. The [`protocol`] module
//! states the lock-word protocol and the laws proved of it.
//!
//! [`lock`]: Mewtex::lock

pub mod cell;
pub mod protocol;
pub mod worker;

pub use cell::Mewtex;
pub use cell::MewtexGuard;
pub use cell::LOCKED;
pub use cell::UNLOCKED;
