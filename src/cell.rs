use vstd::prelude::*;

verus! {

/// A container that hands out access to its value only through two scoped
/// accessors, so that every read and every write of the value is an explicit,
/// individually observable call.
pub struct CausalCell<T> {
    data: T,
}

impl<T> CausalCell<T> {
    /// The value the cell currently holds.
    pub closed spec fn value(&self) -> T {
        self.data
    }

    /// Wraps `data`.
    pub fn new(data: T) -> (r: CausalCell<T>)
        ensures
            r.value() == data,
    {
        CausalCell { data }
    }

    /// Calls `f` with a read-only view of the value and returns what `f` returns.
    pub fn with<F, R>(&self, f: F) -> (r: R)
        where
            F: FnOnce(&T) -> R,
        requires
            f.requires((&self.value(),)),
        ensures
            f.ensures((&self.value(),), r),
    {
        f(&self.data)
    }

    /// Calls `f` with a mutable view of the value and returns what `f` returns;
    /// the value afterwards is what `f` left behind.
    pub fn with_mut<F, R>(&mut self, f: F) -> (r: R)
        where
            F: FnOnce(&mut T) -> R,
        requires
            forall|v: &mut T| *v == old(self).value() ==> f.requires((v,)),
        ensures
            exists|v: &mut T|
                *v == old(self).value() && *final(v) == final(self).value() && f.ensures((v,), r),
    {
        f(&mut self.data)
    }
}

} // verus!
