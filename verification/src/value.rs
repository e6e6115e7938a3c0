//! Change-tracking wrapper for values with copy semantics.
use vstd::prelude::*;
use vstd::std_specs::cmp::PartialEqSpec;

verus! {

/// Tracked value for `Copy` types.
///
/// Holds a value and a flag that is true exactly when the value has been
/// written — by construction or by a value-changing [`set`](TrackedVal::set) —
/// since the last freshness-consuming read.
#[derive(Copy, Clone)]
pub struct TrackedVal<T: PartialEq + Copy> {
    /// True if the value changed since the last freshness-consuming read.
    pub fresh: bool,
    /// The current value.
    pub val: T,
}

impl<T: PartialEq + Copy> TrackedVal<T> {
    /// Construct a wrapper holding `val`; a new wrapper is always fresh.
    pub fn new(val: T) -> (r: Self)
        ensures
            r.fresh,
            r.val == val,
    {
        TrackedVal { fresh: true, val }
    }

    /// Set a new value, marked as fresh if not equal to the existing value;
    /// setting an equal value leaves the wrapper untouched, the freshness
    /// flag included.
    ///
    /// The exact outcome is stated where `T`'s equality obeys its
    /// specification; whatever `T::eq` answers, the wrapper either stays
    /// unchanged or holds the new value and is fresh.
    pub fn set(&mut self, val: T)
        ensures
            T::obeys_eq_spec() && old(self).val.eq_spec(&val) ==> *final(self) == *old(self),
            T::obeys_eq_spec() && !old(self).val.eq_spec(&val) ==> (final(self).val == val
                && final(self).fresh),
            *final(self) == *old(self) || (final(self).val == val && final(self).fresh),
    {
        if self.val != val {
            self.val = val;
            self.fresh = true;
        }
    }

    /// Get the current value, marking it as stale.
    pub fn get(&mut self) -> (r: T)
        ensures
            r == old(self).val,
            final(self).val == old(self).val,
            !final(self).fresh,
    {
        self.fresh = false;
        self.val
    }

    /// Get the current value if it changed since the last freshness-consuming
    /// read, marking it as stale; on a stale wrapper, return nothing and
    /// leave the state exactly as it was.
    pub fn get_if_fresh(&mut self) -> (r: Option<T>)
        ensures
            final(self).val == old(self).val,
            !final(self).fresh,
            old(self).fresh ==> r == Some(old(self).val),
            !old(self).fresh ==> r is None,
    {
        if self.fresh {
            Some(self.get())
        } else {
            None
        }
    }

    /// Get the current value without altering the freshness flag; taking
    /// `&self`, it cannot change the wrapper at all.
    pub fn peek(&self) -> (r: T)
        ensures
            r == self.val,
    {
        self.val
    }

    /// The current freshness flag. Pure observation.
    pub fn is_fresh(&self) -> (r: bool)
        ensures
            r == self.fresh,
    {
        self.fresh
    }
}

impl<T: Default + Copy + PartialEq> Default for TrackedVal<T> {
    /// Equivalent to `TrackedVal::new(T::default())`: a fresh wrapper around
    /// the type's default value.
    fn default() -> (r: Self)
        ensures
            r.fresh,
            call_ensures(T::default, (), r.val),
    {
        TrackedVal::new(T::default())
    }
}

} // verus!
