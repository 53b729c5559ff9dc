use vstd::prelude::*;

verus! {

/// Passes a value to a function in method position.
pub trait Pipe {
    /// `f(self)`.
    fn pipe<F: FnOnce(Self) -> R, R>(self, f: F) -> (r: R)
        where Self: Sized
        requires
            f.requires((self,)),
        ensures
            f.ensures((self,), r),
    {
        f(self)
    }

    /// `f(&self)`.
    fn pipe_ref<F: FnOnce(&Self) -> R, R>(&self, f: F) -> (r: R)
        requires
            f.requires((self,)),
        ensures
            f.ensures((self,), r),
    {
        f(self)
    }

    /// `self`, as a reference.
    fn ref_cast(&self) -> (r: &Self)
        ensures
            r == self,
    {
        self
    }
}

impl<T: ?Sized> Pipe for T {}

/// The value and the error of `i`, each where present.
pub fn unpack_result_to_some_tuple<T, E>(i: Result<T, E>) -> (r: (Option<T>, Option<E>))
    ensures
        match i {
            Ok(t) => r == (Some(t), None::<E>),
            Err(e) => r == (None::<T>, Some(e)),
        },
{
    match i {
        Ok(t) => (Some(t), None),
        Err(e) => (None, Some(e)),
    }
}

/// `i` split into a result that keeps only the value and one that keeps only the error.
pub fn unpack_result_to_result_tuple<T, E>(i: Result<T, E>) -> (r: (Result<T, ()>, Result<(), E>))
    ensures
        match i {
            Ok(t) => r == (Ok::<T, ()>(t), Ok::<(), E>(())),
            Err(e) => r == (Err::<T, ()>(()), Err::<(), E>(e)),
        },
{
    match i {
        Ok(t) => (Ok(t), Ok(())),
        Err(e) => (Err(()), Err(e)),
    }
}

} // verus!
