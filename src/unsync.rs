//! A write-once cell for a single thread of control.

use vstd::prelude::*;

use crate::slot::{set_outcome, slot_after_set};

verus! {

/// A cell that starts empty and can be given a value once.
///
/// Storing needs exclusive access (`&mut self`), so no reader can be looking
/// at the slot while it is filled.
pub struct OnceCell<T> {
    inner: Option<T>,
}

impl<T> View for OnceCell<T> {
    type V = Option<T>;

    closed spec fn view(&self) -> Option<T> {
        self.inner
    }
}

impl<T> OnceCell<T> {
    /// An empty cell.
    pub fn new() -> (r: Self)
        ensures
            r@ is None,
    {
        OnceCell { inner: None }
    }

    /// The stored value, if there is one.
    pub fn get(&self) -> (r: Option<&T>)
        ensures
            match self@ {
                Some(v) => r is Some && *r->0 == v,
                None => r is None,
            },
    {
        self.inner.as_ref()
    }

    /// Exclusive access to the stored value, if there is one; whatever is
    /// written through it is what the cell holds afterwards.
    pub fn get_mut(&mut self) -> (r: Option<&mut T>)
        ensures
            match old(self)@ {
                Some(v) => r is Some && *r->0 == v && final(self)@ == Some(*final(r->0)),
                None => r is None && final(self)@ is None,
            },
    {
        self.inner.as_mut()
    }

    /// Stores `value` if the cell is empty. On a full cell the stored value
    /// is left alone and `value` is handed back as the error.
    pub fn set(&mut self, value: T) -> (r: Result<(), T>)
        ensures
            final(self)@ == slot_after_set(old(self)@, value),
            r == set_outcome(old(self)@, value),
    {
        if self.inner.is_some() {
            return Err(value);
        }
        self.inner = Some(value);
        Ok(())
    }
}

} // verus!
