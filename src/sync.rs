//! The lock that guards every value shared between cores.
//!
//! The lock spins on an atomic flag until it is free, so a waiting core may
//! starve while others keep taking it; its critical sections are short.
use vstd::prelude::*;

verus! {

#[verifier::external_type_specification]
#[verifier::external_body]
#[verifier::reject_recursive_types(T)]
pub struct ExSpinMutex<T: ?Sized>(spin::Mutex<T>);

/// Relies on spin::Mutex::new: builds an unlocked spin-lock around the value.
pub assume_specification<T>[ spin::Mutex::<T>::new ](user_data: T) -> spin::Mutex<T>;

/// Exclusive access to one value for any number of cores: the value is only
/// reached through a callback that runs while the lock is held, and the lock is
/// released when the callback returns.
#[verifier::reject_recursive_types(T)]
pub struct Lock<T> {
    inner: spin::Mutex<T>,
}

impl<T> Lock<T> {
    pub fn new(value: T) -> Lock<T> {
        Lock { inner: spin::Mutex::new(value) }
    }

    /// Runs `f` on the guarded value while holding the lock; `f` returns the value
    /// to store back and the result to hand out.
    ///
    /// Other cores may change the value between two calls, so all that is known
    /// of a call is that `f` ran on some value and its result came back.
    ///
    /// Relies on spin::Mutex::lock: the guard gives exclusive access to the value
    /// until it is dropped, and writes made under it are seen by the next holder.
    #[verifier::external_body]
    pub fn mutex_use<R, F: FnOnce(T) -> (T, R)>(&self, f: F) -> (r: R)
        where
            T: Copy,
        requires
            forall|v: T| f.requires((v,)),
        ensures
            exists|v: T, next: T| f.ensures((v,), (next, r)),
    {
        let mut guard = self.inner.lock();
        let (next, r) = f(*guard);
        *guard = next;
        r
    }
}

} // verus!
