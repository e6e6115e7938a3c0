//! Change-tracking wrapper for values accessed by reference.
use vstd::pervasive::cloned;
use vstd::prelude::*;
use vstd::std_specs::cmp::PartialEqSpec;

verus! {

/// Tracked value wrapper for types to be modified by reference.
///
/// Holds a value and a flag that is true exactly when the value has been
/// written — by construction, by a value-changing set, or by handing out a
/// mutable reference — since the last freshness-consuming read.
pub struct TrackedRef<T> {
    /// True if the value changed since the last freshness-consuming read.
    pub fresh: bool,
    /// The current value.
    pub val: T,
}

impl<T> TrackedRef<T> {
    /// Construct a wrapper holding `val`; a new wrapper is always fresh.
    pub fn new(val: T) -> (r: Self)
        ensures
            r.fresh,
            r.val == val,
    {
        TrackedRef { fresh: true, val }
    }

    /// Get a reference to the current value, marking it as stale.
    pub fn get(&mut self) -> (r: &T)
        ensures
            *r == old(self).val,
            final(self).val == old(self).val,
            !final(self).fresh,
    {
        self.fresh = false;
        &self.val
    }

    /// Get a mutable reference to the current value, marking it as fresh.
    ///
    /// Whoever takes exclusive access is assumed to intend a change, so the
    /// wrapper is marked fresh even if nothing is written through the
    /// reference; after the borrow ends, the wrapper holds whatever value the
    /// reference then pointed to.
    pub fn get_mut(&mut self) -> (r: &mut T)
        ensures
            *r == old(self).val,
            final(self).val == *final(r),
            final(self).fresh,
    {
        self.fresh = true;
        &mut self.val
    }

    /// Get a reference to the current value if it changed since the last
    /// freshness-consuming read, marking it as stale; on a stale wrapper,
    /// return nothing and leave the state exactly as it was.
    pub fn get_if_fresh(&mut self) -> (r: Option<&T>)
        ensures
            final(self).val == old(self).val,
            !final(self).fresh,
            old(self).fresh ==> (r matches Some(v) && *v == old(self).val),
            !old(self).fresh ==> r is None,
    {
        if self.fresh {
            Some(self.get())
        } else {
            None
        }
    }

    /// Get a reference to the current value without altering the freshness
    /// flag; taking `&self`, it cannot change the wrapper at all.
    pub fn peek(&self) -> (r: &T)
        ensures
            *r == self.val,
    {
        &self.val
    }

    /// The current freshness flag. Pure observation.
    pub fn is_fresh(&self) -> (r: bool)
        ensures
            r == self.fresh,
    {
        self.fresh
    }
}

/// Compare-and-set for reference-semantics wrappers.
///
/// `set` is only defined for [`TrackedRef`] if `T` implements `PartialEq`;
/// the spec accessors expose the implementor's value and freshness flag so
/// that the contract of `set` can speak of them.
pub trait TrackedRefSet<T: PartialEq> {
    /// The wrapped value, as the contract of `set` sees it.
    spec fn spec_val(&self) -> T;

    /// The freshness flag, as the contract of `set` sees it.
    spec fn spec_fresh(&self) -> bool;

    /// Set a new value, marked as fresh if not equal to the existing value;
    /// setting an equal value leaves the wrapper untouched, the freshness
    /// flag included.
    ///
    /// The exact outcome is stated where `T`'s equality obeys its
    /// specification; whatever `T::eq` answers, the wrapper either stays
    /// unchanged or holds the new value and is fresh.
    fn set(&mut self, val: T)
        ensures
            T::obeys_eq_spec() && old(self).spec_val().eq_spec(&val) ==> (final(self).spec_val()
                == old(self).spec_val() && final(self).spec_fresh() == old(self).spec_fresh()),
            T::obeys_eq_spec() && !old(self).spec_val().eq_spec(&val) ==> (final(self).spec_val()
                == val && final(self).spec_fresh()),
            (final(self).spec_val() == old(self).spec_val() && final(self).spec_fresh() == old(
                self,
            ).spec_fresh()) || (final(self).spec_val() == val && final(self).spec_fresh()),
    ;
}

impl<T: PartialEq> TrackedRefSet<T> for TrackedRef<T> {
    open spec fn spec_val(&self) -> T {
        self.val
    }

    open spec fn spec_fresh(&self) -> bool {
        self.fresh
    }

    fn set(&mut self, val: T) {
        if self.val != val {
            self.val = val;
            self.fresh = true;
        }
    }
}

impl<T: Clone + PartialEq> Clone for TrackedRef<T> {
    /// Duplicate the wrapper: the copy carries a clone of the value and the
    /// same freshness flag verbatim; cloning never consumes freshness.
    fn clone(&self) -> (r: Self)
        ensures
            r.fresh == self.fresh,
            cloned::<T>(self.val, r.val),
    {
        TrackedRef { fresh: self.fresh, val: self.val.clone() }
    }
}

} // verus!
