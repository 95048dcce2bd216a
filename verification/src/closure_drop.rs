//! A value together with the closure that disposes of it.
use core::ops::Deref;
use vstd::prelude::*;

verus! {

/// Keeps a value and the closure that is to consume it in the end.
///
/// The guard lends the value out for as long as it lives. The closure runs on
/// the value when the guard is finished, and only then.
pub struct ClosureDrop<T, F: FnOnce(T)> {
    value: T,
    closure: F,
}

impl<T, F: FnOnce(T)> ClosureDrop<T, F> {
    /// The closure accepts the value, so finishing the guard is always
    /// possible.
    #[verifier::type_invariant]
    spec fn well_formed(&self) -> bool {
        call_requires(self.closure, (self.value,))
    }

    /// The guarded value.
    pub closed spec fn value(&self) -> T {
        self.value
    }

    /// The closure that will consume the value.
    pub closed spec fn closure(&self) -> F {
        self.closure
    }

    /// Guards `t` until `f` consumes it.
    pub fn new(t: T, f: F) -> (guard: Self)
        requires
            call_requires(f, (t,)),
        ensures
            guard.value() == t,
            guard.closure() == f,
    {
        ClosureDrop { value: t, closure: f }
    }

    /// Ends the guard: hands the value to the closure and runs it.
    pub fn finish(self)
        ensures
            call_ensures(self.closure(), (self.value(),), ()),
    {
        proof {
            use_type_invariant(&self);
        }
        let ClosureDrop { value, closure } = self;
        closure(value)
    }
}

impl<T, F: FnOnce(T)> Deref for ClosureDrop<T, F> {
    type Target = T;

    /// Lends the guarded value.
    fn deref(&self) -> (value: &T)
        ensures
            *value == self.value(),
    {
        &self.value
    }
}

} // verus!
