//! The exclusive cell and its access token.

use vstd::prelude::*;
use core::sync::atomic::AtomicU32;
use core::sync::atomic::Ordering;

verus! {

use crate::protocol::acquire_takes;
use crate::protocol::release_leaves;

/// The state word's value while no access token is live.
pub const UNLOCKED: u32 = 0;

/// The state word's value while an access token is live.
pub const LOCKED: u32 = 1;

/// A cell granting exclusive, blocking access to a protected value.
///
/// The atomic state word publishes the lock state to every observer of the
/// word: it reads `UNLOCKED` exactly while the value sits in the cell. The
/// cell's view is the model of the same state: `Some(v)` while the cell is
/// open and holds `v`, `None` while an access token holds the value.
pub struct Mewtex<T> {
    state: AtomicU32,
    value: Option<T>,
}

/// A scoped token granting access to a [`Mewtex`]'s protected value.
///
/// A token comes to life only at a successful acquisition, holds the value
/// for its whole life, and gives it back exactly once, at [`release`].
///
/// [`release`]: MewtexGuard::release
pub struct MewtexGuard<T> {
    value: T,
}

impl<T> View for Mewtex<T> {
    type V = Option<T>;

    closed spec fn view(&self) -> Option<T> {
        self.value
    }
}

impl<T> View for MewtexGuard<T> {
    type V = T;

    closed spec fn view(&self) -> T {
        self.value
    }
}

/// Relies on `atomic_wait::wait`: blocks the calling thread while the word
/// holds `value`; returns once a wake arrives, the word no longer holds
/// `value`, or spuriously. No Rust-visible state changes either way.
#[verifier::external_body]
fn futex_wait(atomic: &AtomicU32, value: u32) {
    atomic_wait::wait(atomic, value);
}

/// Relies on `atomic_wait::wake_one`: wakes at most one thread blocked on
/// the word. No Rust-visible state changes.
#[verifier::external_body]
fn futex_wake_one(atomic: &AtomicU32) {
    atomic_wait::wake_one(atomic);
}

impl<T> Mewtex<T> {
    /// Creates a cell holding `value`, with the state word at `UNLOCKED`.
    pub fn new(value: T) -> (cell: Mewtex<T>)
        ensures
            cell@ == Some(value),
    {
        Mewtex { state: AtomicU32::new(UNLOCKED), value: Some(value) }
    }

    /// Blocking acquisition: moves the state word from `UNLOCKED` to
    /// `LOCKED` and hands the protected value to a fresh access token.
    ///
    /// The compare-and-set uses acquire ordering on success, pairing with
    /// the release-ordered store in [`MewtexGuard::release`], so everything
    /// written under the previous token is visible here. Exclusive access to
    /// the cell with its value present means no other holder exists, so the
    /// exchange succeeds; should the word nonetheless be found closed (it
    /// can only be, when the word was moved outside this interface), the
    /// thread blocks on the futex until the word is released, then takes it
    /// with an acquiring swap.
    pub fn lock(&mut self) -> (token: MewtexGuard<T>)
        requires
            old(self)@ is Some,
        ensures
            final(self)@ is None,
            token@ == acquire_takes(old(self)@),
    {
        if let Err(_) = self.state.compare_exchange(
            UNLOCKED,
            LOCKED,
            Ordering::Acquire,
            Ordering::Relaxed,
        ) {
            futex_wait(&self.state, LOCKED);
            let _observed: u32 = self.state.swap(LOCKED, Ordering::Acquire);
        }
        let value = self.value.take().unwrap();
        MewtexGuard::new(value)
    }

    /// Mutable access without the atomic machinery: language-enforced unique
    /// access to the cell (`&mut self`) already rules out every other
    /// handle, so the state word is neither read nor written.
    pub fn get_mut(&mut self) -> (value: &mut T)
        requires
            old(self)@ is Some,
        ensures
            *value == old(self)@.unwrap(),
            final(self)@ == Some(*final(value)),
    {
        match &mut self.value {
            Some(value) => value,
            None => unreached(),
        }
    }
}

impl<T> MewtexGuard<T> {
    /// Wraps a value just taken out of an acquired cell in a fresh token.
    pub fn new(value: T) -> (token: MewtexGuard<T>)
        ensures
            token@ == value,
    {
        MewtexGuard { value }
    }

    /// Read access to the protected value.
    pub fn deref(&self) -> (value: &T)
        ensures
            *value == self@,
    {
        &self.value
    }

    /// Write access to the protected value.
    pub fn deref_mut(&mut self) -> (value: &mut T)
        ensures
            *value == old(self)@,
            final(self)@ == *final(value),
    {
        &mut self.value
    }

    /// Releases the token: the state word returns to `UNLOCKED` with release
    /// ordering (pairing with the acquire ordering of [`Mewtex::lock`]'s
    /// compare-and-set), one thread blocked on the word is woken, and the
    /// protected value returns, whole, to the cell.
    pub fn release(self, cell: &mut Mewtex<T>)
        requires
            old(cell)@ is None,
        ensures
            final(cell)@ == release_leaves(self@),
    {
        cell.state.store(UNLOCKED, Ordering::Release);
        futex_wake_one(&cell.state);
        cell.value = Some(self.value);
    }
}

} // verus!
