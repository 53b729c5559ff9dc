//! Reading a record of two named fields, and gathering the errors of both.
use std::marker::PhantomData;
use vstd::prelude::*;

use crate::text::same_text;

verus! {

/// Values that can be joined into one, as errors are gathered.
pub trait Semigroup: Sized {
    fn append(self, other: Self) -> Self;
}

/// A result that, when results are combined, keeps the errors of all of them.
pub struct Validation<T, E>(pub Result<T, E>);

/// The kind of `Validation` with errors of type `E`.
pub struct ValidationHKT<E>(PhantomData<E>);

impl<T, E> From<Result<T, E>> for Validation<T, E> {
    fn from(value: Result<T, E>) -> (r: Validation<T, E>) {
        Validation(value)
    }
}

impl<T, E> vstd::std_specs::convert::FromSpecImpl<Result<T, E>> for Validation<T, E> {
    open spec fn obeys_from_spec() -> bool {
        true
    }

    open spec fn from_spec(value: Result<T, E>) -> Validation<T, E> {
        Validation(value)
    }
}

impl<T, E> Validation<T, E> {
    /// The result inside.
    pub fn into_result(self) -> (r: Result<T, E>)
        ensures
            r == self.0,
    {
        self.0
    }

    /// Applies `f` to the value; an error stays as it is.
    pub fn fmap<B, F: FnOnce(T) -> B>(self, f: F) -> (r: Validation<B, E>)
        requires
            self.0 matches Ok(t) ==> f.requires((t,)),
        ensures
            match self.0 {
                Ok(t) => r.0 matches Ok(b) && f.ensures((t,), b),
                Err(e) => r.0 == Err::<B, E>(e),
            },
    {
        match self.0 {
            Ok(t) => Validation(Ok(f(t))),
            Err(e) => Validation(Err(e)),
        }
    }

    /// A value that is valid.
    pub fn pure(a: T) -> (r: Validation<T, E>)
        ensures
            r.0 == Ok::<T, E>(a),
    {
        Validation(Ok(a))
    }
}

impl<F, E: Semigroup> Validation<F, E> {
    /// Applies the function inside `self` to the value inside `ta`. Unlike with `Result`,
    /// when both are errors the errors are joined, the first before the second.
    pub fn apply<A, B>(self, ta: Validation<A, E>) -> (r: Validation<B, E>)
        where F: FnOnce(A) -> B
        requires
            match (self.0, ta.0) {
                (Ok(f), Ok(a)) => f.requires((a,)),
                _ => true,
            },
        ensures
            match (self.0, ta.0) {
                (Err(e1), Err(e2)) => r.0 matches Err(e) && call_ensures(E::append, (e1, e2), e),
                (Err(e1), Ok(_)) => r.0 == Err::<B, E>(e1),
                (Ok(_), Err(e2)) => r.0 == Err::<B, E>(e2),
                (Ok(f), Ok(a)) => r.0 matches Ok(b) && f.ensures((a,), b),
            },
    {
        match self.0 {
            Err(e1) => match ta.0 {
                Err(e2) => Validation(Err(e1.append(e2))),
                Ok(_) => Validation(Err(e1)),
            },
            Ok(f) => match ta.0 {
                Err(e) => Validation(Err(e)),
                Ok(a) => Validation(Ok(f(a))),
            },
        }
    }
}

/// A record built from two named fields.
pub trait Model<A, B>: Sized {
    fn new(a: A, b: B) -> Self;

    /// The names of the two fields, in order.
    const FIELD_NAMES: &'static [&'static str];
}

/// A `T` read from a map of its two fields.
pub struct DeserializeImpl2<T: Model<A, B>, A, B>(pub T, pub PhantomData<(A, B)>);

/// What to do with a key read from the map.
#[derive(Debug, Clone, Copy, PartialEq, Eq, Structural)]
pub enum KeyStep {
    /// Read the value of the first field.
    ReadFirst,
    /// Read the value of the second field.
    ReadSecond,
    /// The first field came again after it was read: it becomes a duplicate-field error.
    FirstAgain,
    /// The second field came again after it was read: it becomes a duplicate-field error.
    SecondAgain,
    /// The key names neither field: reading fails at once.
    Unknown,
}

/// The step for `key`, given whether each field already holds a value. A field that
/// holds an error is read again.
pub open spec fn key_step_spec(key: Seq<char>, names: Seq<&'static str>, first_is_set: bool, second_is_set: bool) -> KeyStep {
    if key == names[0]@ {
        if first_is_set { KeyStep::FirstAgain } else { KeyStep::ReadFirst }
    } else if key == names[1]@ {
        if second_is_set { KeyStep::SecondAgain } else { KeyStep::ReadSecond }
    } else {
        KeyStep::Unknown
    }
}

/// The step for `key` when reading a `T`, given whether each field already holds a
/// value.
pub fn key_step<T: Model<A, B>, A, B>(key: &str, first_is_set: bool, second_is_set: bool) -> (r: KeyStep)
    requires
        T::FIELD_NAMES@.len() >= 2,
    ensures
        r == key_step_spec(key@, T::FIELD_NAMES@, first_is_set, second_is_set),
{
    let names: &'static [&'static str] = T::FIELD_NAMES;
    if same_text(key, names[0]) {
        if first_is_set { KeyStep::FirstAgain } else { KeyStep::ReadFirst }
    } else if same_text(key, names[1]) {
        if second_is_set { KeyStep::SecondAgain } else { KeyStep::ReadSecond }
    } else {
        KeyStep::Unknown
    }
}

/// The `T` made of the two fields read; when both hold errors, the errors are joined.
pub fn combine_fields<T: Model<A, B>, A, B, E: Semigroup>(first: Result<A, E>, second: Result<B, E>) -> (r: Result<DeserializeImpl2<T, A, B>, E>)
    ensures
        r is Ok <==> (first is Ok && second is Ok),
        match (first, second) {
            (Err(e1), Ok(_)) => r == Err::<DeserializeImpl2<T, A, B>, E>(e1),
            (Ok(_), Err(e2)) => r == Err::<DeserializeImpl2<T, A, B>, E>(e2),
            (Err(e1), Err(e2)) => r matches Err(e) && call_ensures(E::append, (e1, e2), e),
            (Ok(a), Ok(b)) => r matches Ok(d) && call_ensures(T::new, (a, b), d.0),
        },
{
    let pending = match first {
        Ok(a) => Validation::pure(move |b: B| -> (t: T)
            ensures
                call_ensures(T::new, (a, b), t),
            {
                T::new(a, b)
            }),
        Err(e) => Validation(Err(e)),
    };
    match pending.apply(Validation::from(second)).into_result() {
        Ok(t) => Ok(DeserializeImpl2(t, PhantomData)),
        Err(e) => Err(e),
    }
}

} // verus!
