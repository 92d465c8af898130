//! An explicit lifecycle cell for a process-wide, lazily initialized store.
//!
//! The surrounding application holds one of these around its store and
//! injects it where needed, instead of reaching for ambient global state.
//! Opening the store twice, or using it before it is opened, are first-class
//! error conditions, never panics.

use vstd::prelude::*;

use crate::error::Error;
use crate::error::ErrorKind;

verus! {

/// A cell that is empty until initialized exactly once, then full until torn
/// down.
pub struct Lifecycle<T> {
    slot: Option<T>,
}

impl<T> Lifecycle<T> {
    /// What the cell holds.
    pub closed spec fn stored(self) -> Option<T> {
        self.slot
    }

    /// Whether the cell has been initialized and not torn down.
    pub open spec fn is_init(self) -> bool {
        self.stored() is Some
    }

    /// An empty cell.
    pub fn new() -> (r: Lifecycle<T>)
        ensures
            !r.is_init(),
    {
        Lifecycle { slot: None }
    }

    /// Initialize the cell; initializing it a second time fails and leaves
    /// the first value in place.
    pub fn init(&mut self, value: T) -> (r: Result<(), Error>)
        ensures
            match r {
                Ok(_) => !old(self).is_init() && final(self).stored() == Some(value),
                Err(e) => old(self).is_init() && final(self).stored() == old(self).stored()
                    && e.spec_kind() == ErrorKind::AlreadyInitialized,
            },
    {
        match &self.slot {
            Some(_) => Err(
                Error::new(ErrorKind::AlreadyInitialized, "store is already initialized".to_owned()),
            ),
            None => {
                self.slot = Some(value);
                Ok(())
            },
        }
    }

    /// Borrow the stored value; before initialization this fails.
    pub fn get(&self) -> (r: Result<&T, Error>)
        ensures
            match r {
                Ok(v) => self.stored() == Some(*v),
                Err(e) => !self.is_init() && e.spec_kind() == ErrorKind::NotInitialized,
            },
            self.is_init() <==> r is Ok,
    {
        match &self.slot {
            Some(v) => Ok(v),
            None => Err(
                Error::new(ErrorKind::NotInitialized, "store is not initialized".to_owned()),
            ),
        }
    }

    /// Tear the cell down, handing back the stored value if there was one.
    pub fn take(&mut self) -> (r: Option<T>)
        ensures
            r == old(self).stored(),
            !final(self).is_init(),
    {
        self.slot.take()
    }

    /// Whether the cell has been initialized and not torn down.
    pub fn is_initialized(&self) -> (r: bool)
        ensures
            r == self.is_init(),
    {
        match &self.slot {
            Some(_) => true,
            None => false,
        }
    }
}

} // verus!
