use vstd::prelude::*;

verus! {

/// A result that a program cannot go on without. Taking the value out is
/// only allowed once success is known; the caller decides how to stop
/// otherwise.
pub trait OkOrExit {
    type OkType;

    spec fn succeeded(&self) -> bool;

    spec fn value(&self) -> Self::OkType;

    fn ok_or_exit(self) -> (r: Self::OkType)
        requires
            self.succeeded(),
        ensures
            r == self.value(),
    ;
}

impl<T, E: std::fmt::Debug> OkOrExit for Result<T, E> {
    type OkType = T;

    open spec fn succeeded(&self) -> bool {
        *self is Ok
    }

    open spec fn value(&self) -> T {
        self->Ok_0
    }

    fn ok_or_exit(self) -> (r: T) {
        self.unwrap()
    }
}

} // verus!
