//! A write-once cell that any number of threads may share.

use vstd::prelude::*;

use std::sync::OnceLock;

verus! {

/// std's one-time-initialised cell, carried opaquely. Its contents can change
/// behind a shared reference, so nothing is stated of them as a value.
#[verifier::external_type_specification]
#[verifier::external_body]
#[verifier::reject_recursive_types(T)]
pub struct ExOnceLock<T>(OnceLock<T>);

/// Relies on std's `OnceLock::new`: it makes an uninitialised cell.
pub assume_specification<T>[ OnceLock::<T>::new ]() -> OnceLock<T>;

/// Relies on std's `OnceLock::get`: it never blocks, and returns the
/// contents only once initialisation has completed.
pub assume_specification<T>[ OnceLock::<T>::get ](cell: &OnceLock<T>) -> Option<&T>;

/// Relies on std's `OnceLock::set`: exactly one call stores its value; every
/// other call gets its own value back, untouched, as the error.
pub assume_specification<T>[ OnceLock::<T>::set ](cell: &OnceLock<T>, value: T) -> (r: Result<
    (),
    T,
>)
    ensures
        r matches Err(v) ==> v == value,
;

/// A cell that starts empty and takes a value at most once, safe to share
/// between threads.
///
/// Whether a given `set` wins depends on what other threads do, so the
/// contracts say what holds of every outcome: a losing call always gets back
/// the very value it offered, and the stored value is never replaced.
#[verifier::reject_recursive_types(T)]
pub struct OnceCell<T> {
    inner: OnceLock<T>,
}

impl<T> OnceCell<T> {
    /// An empty cell.
    pub fn new() -> (r: Self) {
        OnceCell { inner: OnceLock::new() }
    }

    /// The stored value, once a `set` has completed; never blocks.
    pub fn get(&self) -> (r: Option<&T>) {
        self.inner.get()
    }

    /// Offers `value` to the cell. If the cell is already complete the value
    /// is handed back at once; otherwise the call contends with any others,
    /// and succeeds only if `value` itself is the one stored. A call that
    /// loses gets `value` back unchanged.
    pub fn set(&self, value: T) -> (r: Result<(), T>)
        ensures
            r matches Err(v) ==> v == value,
    {
        if self.inner.get().is_some() {
            return Err(value);
        }
        self.inner.set(value)
    }
}

} // verus!
