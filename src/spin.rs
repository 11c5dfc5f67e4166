use vstd::prelude::*;

use crate::cell::CausalCell;

verus! {

/// The abstract state of a mutex: whether it is held, and the protected value.
pub struct LockView<T> {
    pub locked: bool,
    pub value: T,
}

/// The state after an acquisition attempt: held, whichever way the attempt went.
pub open spec fn acquired<T>(s: LockView<T>) -> LockView<T> {
    LockView { locked: true, value: s.value }
}

/// The state after a guard is released: free, with the value left as it was.
pub open spec fn released<T>(s: LockView<T>) -> LockView<T> {
    LockView { locked: false, value: s.value }
}

/// The state after the holder stores `v` into the protected value.
pub open spec fn written<T>(s: LockView<T>, v: T) -> LockView<T> {
    LockView { locked: s.locked, value: v }
}

/// A mutual-exclusion lock over a value kept in a `CausalCell`.
///
/// The value is reached only through a `MutexGuard`, which only a successful
/// `try_lock` hands out; releasing the guard is the only way to clear the flag.
pub struct Mutex<T> {
    locked: bool,
    cell: CausalCell<T>,
    id: Ghost<int>,
}

/// The token of one acquisition of one mutex. It cannot be copied, and
/// releasing it consumes it.
pub struct MutexGuard {
    owner: Ghost<int>,
}

impl<T> View for Mutex<T> {
    type V = LockView<T>;

    closed spec fn view(&self) -> LockView<T> {
        LockView { locked: self.locked, value: self.cell.value() }
    }
}

impl<T> Mutex<T> {
    /// The identity that ties guards to the mutex that issued them.
    pub closed spec fn id(&self) -> int {
        self.id@
    }

    /// An unlocked mutex protecting `t`. Its identity is left unspecified: a
    /// guard is usable only with the mutex whose `try_lock` issued it.
    pub fn new(t: T) -> (r: Mutex<T>)
        ensures
            r@ == (LockView { locked: false, value: t }),
    {
        Mutex { locked: false, cell: CausalCell::new(t), id: Ghost(arbitrary()) }
    }

    /// Whether a guard of this mutex is live.
    pub fn is_locked(&self) -> (r: bool)
        ensures
            r == self@.locked,
    {
        self.locked
    }

    /// One attempt to take the lock, without waiting. It succeeds exactly when
    /// the mutex is free; the value is never touched.
    pub fn try_lock(&mut self) -> (r: Option<MutexGuard>)
        ensures
            r is Some <==> !old(self)@.locked,
            r is Some ==> r->0.owner() == old(self).id(),
            final(self)@ == acquired(old(self)@),
            final(self).id() == old(self).id(),
    {
        if !self.locked {
            self.locked = true;
            Some(MutexGuard { owner: Ghost(self.id@) })
        } else {
            None
        }
    }

    /// Takes the lock if it is free, runs `f` on the protected value, and
    /// releases the lock before returning, whatever `f` did. Returns `None`,
    /// with nothing run or changed, when the lock is held.
    pub fn try_with_lock<F, R>(&mut self, f: F) -> (r: Option<R>)
        where
            F: FnOnce(&mut T) -> R,
        requires
            !old(self)@.locked ==> forall|v: &mut T| *v == old(self)@.value ==> f.requires((v,)),
        ensures
            final(self).id() == old(self).id(),
            old(self)@.locked ==> r is None && final(self)@ == old(self)@,
            !old(self)@.locked ==> {
                &&& r is Some
                &&& !final(self)@.locked
                &&& exists|v: &mut T|
                    *v == old(self)@.value && *final(v) == final(self)@.value && f.ensures(
                        (v,),
                        r->0,
                    )
            },
    {
        match self.try_lock() {
            Some(guard) => {
                let out = guard.with_mut(self, f);
                guard.release(self);
                Some(out)
            },
            None => None,
        }
    }
}

impl MutexGuard {
    /// The identity of the mutex that issued this guard.
    pub closed spec fn owner(&self) -> int {
        self.owner@
    }

    /// Reads the protected value through the mutex's cell.
    pub fn with<T, F, R>(&self, m: &Mutex<T>, f: F) -> (r: R)
        where
            F: FnOnce(&T) -> R,
        requires
            self.owner() == m.id(),
            m@.locked,
            f.requires((&m@.value,)),
        ensures
            f.ensures((&m@.value,), r),
    {
        m.cell.with(f)
    }

    /// Updates the protected value through the mutex's cell; the mutex stays
    /// held and keeps what `f` left behind.
    pub fn with_mut<T, F, R>(&self, m: &mut Mutex<T>, f: F) -> (r: R)
        where
            F: FnOnce(&mut T) -> R,
        requires
            self.owner() == old(m).id(),
            old(m)@.locked,
            forall|v: &mut T| *v == old(m)@.value ==> f.requires((v,)),
        ensures
            final(m).id() == old(m).id(),
            final(m)@.locked,
            exists|v: &mut T|
                *v == old(m)@.value && *final(v) == final(m)@.value && f.ensures((v,), r),
    {
        m.cell.with_mut(f)
    }

    /// Ends the acquisition: clears the flag of the mutex that issued the guard.
    pub fn release<T>(self, m: &mut Mutex<T>)
        requires
            self.owner() == old(m).id(),
            old(m)@.locked,
        ensures
            final(m)@ == released(old(m)@),
            final(m).id() == old(m).id(),
    {
        m.locked = false;
    }
}

} // verus!
