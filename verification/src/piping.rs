//! Fluent extension methods: transform a value, or observe it while
//! passing it through unchanged.

use vstd::prelude::*;

verus! {

/// Apply a transformation to self, returning the result.
pub trait Pipe {
    /// Hand `self` to `f` and return whatever `f` returns.
    fn pipe<T, F: FnOnce(Self) -> T>(self, f: F) -> (r: T) where
        Self: Sized,

        requires
            call_requires(f, (self,)),
        ensures
            call_ensures(f, (self,), r),
    {
        f(self)
    }
}

impl<T> Pipe for T {

}

/// Run a function on a shared reference to self, but return self.
/// Use the fallible/nullable methods `inspect_try` and `inspect_maybe`
/// to propagate the function's own failure signal.
pub trait Inspect {
    /// Call `f` on a reference to `self`, ignore its result, and return
    /// `self` unchanged.
    fn inspect<T, F: FnOnce(&Self) -> T>(self, f: F) -> (r: Self) where
        Self: Sized,

        requires
            call_requires(f, (&self,)),
        ensures
            r == self,
            exists|t: T| call_ensures(f, (&self,), t),
    {
        f(&self);
        self
    }

    /// Call `f` on a reference to `self`; on `Ok` return `self` unchanged,
    /// on `Err` pass the error through.
    fn inspect_try<T, E, F: FnOnce(&Self) -> Result<T, E>>(self, f: F) -> (r: Result<Self, E>) where
        Self: Sized,

        requires
            call_requires(f, (&self,)),
        ensures
            (match r {
                Ok(v) => v == self && exists|t: T| call_ensures(f, (&self,), Ok(t)),
                Err(e) => call_ensures(f, (&self,), Err(e)),
            }),
    {
        match f(&self) {
            Ok(_) => Ok(self),
            Err(e) => Err(e),
        }
    }

    /// Call `f` on a reference to `self`; on `Some` return `self` unchanged,
    /// on `None` return `None`.
    fn inspect_maybe<T, F: FnOnce(&Self) -> Option<T>>(self, f: F) -> (r: Option<Self>) where
        Self: Sized,

        requires
            call_requires(f, (&self,)),
        ensures
            (match r {
                Some(v) => v == self && exists|t: T| call_ensures(f, (&self,), Some(t)),
                None => call_ensures(f, (&self,), None::<T>),
            }),
    {
        match f(&self) {
            Some(t) => {
                proof {
                    assert(call_ensures(f, (&self,), Some(t)));
                }
                Some(self)
            },
            None => None,
        }
    }
}

impl<T> Inspect for T {

}

/// Run a function that mutates self, returning self.
/// Use the fallible/nullable methods `lay_try` and `lay_maybe`
/// to propagate the function's own failure signal.
pub trait Lay {
    /// Call `f` on a mutable reference to `self`, ignore its result, and
    /// return `self` as `f` left it.
    fn lay<T, F: FnOnce(&mut Self) -> T>(self, f: F) -> (r: Self) where
        Self: Sized,

        requires
            forall|m: &mut Self| mut_ref_current(m) == self ==> call_requires(f, (m,)),
        ensures
            exists|m: &mut Self, t: T|
                mut_ref_current(m) == self && #[trigger] call_ensures(f, (m,), t) && r
                    == mut_ref_future(m),
    {
        let mut s = self;
        f(&mut s);
        s
    }

    /// Call `f` on a mutable reference to `self`; on `Ok` return `self` as
    /// `f` left it, on `Err` pass the error through.
    fn lay_try<T, E, F: FnOnce(&mut Self) -> Result<T, E>>(self, f: F) -> (r: Result<Self, E>) where
        Self: Sized,

        requires
            forall|m: &mut Self| mut_ref_current(m) == self ==> call_requires(f, (m,)),
        ensures
            r is Ok ==> exists|m: &mut Self, rr: Result<T, E>|
                mut_ref_current(m) == self && #[trigger] call_ensures(f, (m,), rr) && rr is Ok
                    && r->Ok_0 == mut_ref_future(m),
            r matches Err(e) ==> exists|m: &mut Self, rr: Result<T, E>|
                mut_ref_current(m) == self && #[trigger] call_ensures(f, (m,), rr) && rr == Err::<
                    T,
                    E,
                >(e),
    {
        let mut s = self;
        match f(&mut s) {
            Ok(_) => Ok(s),
            Err(e) => Err(e),
        }
    }

    /// Call `f` on a mutable reference to `self`; on `Some` return `self` as
    /// `f` left it, on `None` return `None`.
    fn lay_maybe<T, F: FnOnce(&mut Self) -> Option<T>>(self, f: F) -> (r: Option<Self>) where
        Self: Sized,

        requires
            forall|m: &mut Self| mut_ref_current(m) == self ==> call_requires(f, (m,)),
        ensures
            (match r {
                Some(v) => exists|m: &mut Self, rr: Option<T>|
                    mut_ref_current(m) == self && #[trigger] call_ensures(f, (m,), rr) && rr is Some
                        && v == mut_ref_future(m),
                None => exists|m: &mut Self|
                    mut_ref_current(m) == self && #[trigger] call_ensures(f, (m,), None::<T>),
            }),
    {
        let mut s = self;
        match f(&mut s) {
            Some(_) => Some(s),
            None => None,
        }
    }
}

impl<T> Lay for T {

}

} // verus!
