use std::rc::Rc;
use std::sync::Arc;
use vstd::prelude::*;

verus! {

/// Marker for `Arc`-based shared pointers. It is only ever used as a type;
/// its one variant exists because Verus needs an inhabited enum.
#[derive(Debug, Clone, Copy, Hash, PartialEq, Eq, PartialOrd, Ord)]
pub enum ArcHKT {
    Marker,
}

/// Marker for `Rc`-based shared pointers (used as a type only).
#[derive(Debug, Clone, Copy, Hash, PartialEq, Eq, PartialOrd, Ord)]
pub enum RcHKT {
    Marker,
}

/// Marker for uniquely owned `Box` pointers (used as a type only).
#[derive(Debug, Clone, Copy, Hash, PartialEq, Eq, PartialOrd, Ord)]
pub enum BoxHKT {
    Marker,
}

pub trait Infallible: Sized + core::fmt::Debug + 'static + Eq + Ord {}

impl<T: Sized + core::fmt::Debug + 'static + Eq + Ord> Infallible for T {}

/// A type-level function from a pointee `A` to the pointer type `Self::T` holding it.
pub trait HKT1Unsized<A: ?Sized>: Infallible {
    type T;
}

impl<A: ?Sized> HKT1Unsized<A> for ArcHKT {
    type T = Arc<A>;
}

impl<A: ?Sized> HKT1Unsized<A> for RcHKT {
    type T = Rc<A>;
}

impl<A: ?Sized> HKT1Unsized<A> for BoxHKT {
    type T = Box<A>;
}

/// New type wrapper for the pointer `P::T` holding an `A`.
pub struct K1<P: HKT1Unsized<A>, A: ?Sized>(P::T);

impl<P: HKT1Unsized<A>, A: ?Sized> K1<P, A> {
    /// The wrapped pointer.
    pub closed spec fn ptr(&self) -> P::T {
        self.0
    }

    pub fn inner(self) -> (r: P::T)
        ensures
            r == self.ptr(),
    {
        self.0
    }

    pub fn inner_ref(&self) -> (r: &P::T)
        ensures
            *r == self.ptr(),
    {
        &self.0
    }

    pub fn inner_mut(&mut self) -> (r: &mut P::T)
        ensures
            *r == old(self).ptr(),
            final(self).ptr() == *final(r),
    {
        &mut self.0
    }

    pub fn newtype(value: P::T) -> (r: K1<P, A>)
        ensures
            r.ptr() == value,
    {
        K1(value)
    }
}

/// Wrapping a pointer and taking it out again gives back that very pointer, whatever the
/// pointee, sized or not (`str`, slices): what `newtype` wraps is what `inner` returns.
pub proof fn lemma_newtype_then_inner<P: HKT1Unsized<A>, A: ?Sized>(value: P::T, wrapped: K1<P, A>, unwrapped: P::T)
    requires
        call_ensures(K1::<P, A>::newtype, (value,), wrapped),
        call_ensures(K1::<P, A>::inner, (wrapped,), unwrapped),
    ensures
        unwrapped == value,
{
}

pub fn newtype<P: HKT1Unsized<A>, A: ?Sized>(value: P::T) -> (r: K1<P, A>)
    ensures
        r.ptr() == value,
{
    K1(value)
}

/// Calls `Arc::from` on a box, which moves the boxed value into a new `Arc`: the
/// pointee is the boxed value.
#[verifier::external_body]
fn arc_from_box<A: ?Sized>(v: Box<A>) -> (r: Arc<A>)
    ensures
        &*r == &*v,
{
    Arc::from(v)
}

/// Calls `Rc::from` on a box, which moves the boxed value into a new `Rc`: the pointee is
/// the boxed value.
#[verifier::external_body]
fn rc_from_box<A: ?Sized>(v: Box<A>) -> (r: Rc<A>)
    ensures
        &*r == &*v,
{
    Rc::from(v)
}

/// Pointer kinds through which the pointee can be read.
pub trait RefHKT<A: ?Sized>: HKT1Unsized<A> {
    /// The value the pointer points to.
    spec fn pointee(value: &Self::T) -> &A;

    fn new(v: A) -> (r: K1<Self, A>)
        where A: Sized
        ensures
            *Self::pointee(&r.ptr()) == v;

    fn from_box(v: Box<A>) -> (r: K1<Self, A>)
        ensures
            Self::pointee(&r.ptr()) == &*v;

    fn deref(value: &Self::T) -> (r: &A)
        ensures
            r == Self::pointee(value);
}

impl<A: ?Sized> RefHKT<A> for ArcHKT {
    open spec fn pointee(value: &Arc<A>) -> &A {
        &**value
    }

    fn new(v: A) -> (r: K1<Self, A>)
        where A: Sized
    {
        K1(Arc::new(v))
    }

    fn from_box(v: Box<A>) -> (r: K1<Self, A>) {
        K1(arc_from_box(v))
    }

    fn deref(value: &Arc<A>) -> (r: &A) {
        &**value
    }
}

impl<A: ?Sized> RefHKT<A> for RcHKT {
    open spec fn pointee(value: &Rc<A>) -> &A {
        &**value
    }

    fn new(v: A) -> (r: K1<Self, A>)
        where A: Sized
    {
        K1(Rc::new(v))
    }

    fn from_box(v: Box<A>) -> (r: K1<Self, A>) {
        K1(rc_from_box(v))
    }

    fn deref(value: &Rc<A>) -> (r: &A) {
        &**value
    }
}

impl<A: ?Sized> RefHKT<A> for BoxHKT {
    open spec fn pointee(value: &Box<A>) -> &A {
        &**value
    }

    fn new(v: A) -> (r: K1<Self, A>)
        where A: Sized
    {
        K1(Box::new(v))
    }

    fn from_box(v: Box<A>) -> (r: K1<Self, A>) {
        K1(v)
    }

    fn deref(value: &Box<A>) -> (r: &A) {
        &**value
    }
}

/// Calls `Box::<str>::from` on a `String`, which keeps its characters.
#[verifier::external_body]
fn boxed_str_from_string(v: String) -> (r: Box<str>)
    ensures
        (*r)@ == v@,
{
    Box::<str>::from(v)
}

/// Calls `Box::<str>::from` on a string slice, which copies its characters.
#[verifier::external_body]
fn boxed_str_from_str(v: &str) -> (r: Box<str>)
    ensures
        (*r)@ == v@,
{
    Box::<str>::from(v)
}

/// Calls `Box::<[T]>::from` on a `Vec`, which keeps its elements in order.
#[verifier::external_body]
fn boxed_slice_from_vec<T>(v: Vec<T>) -> (r: Box<[T]>)
    ensures
        (*r)@ == v@,
{
    Box::<[T]>::from(v)
}

/// The string `v` behind a pointer of kind `P`.
pub fn from_string<P: RefHKT<str>>(v: String) -> (r: K1<P, str>)
    ensures
        r@ == v@,
{
    P::from_box(boxed_str_from_string(v))
}

/// A copy of the string `v` behind a pointer of kind `P`.
pub fn from_str<P: RefHKT<str>>(v: &str) -> (r: K1<P, str>)
    ensures
        r@ == v@,
{
    P::from_box(boxed_str_from_str(v))
}

/// A copy of the static string `v` behind a pointer of kind `P`.
pub fn from_static_str<P: RefHKT<str>>(v: &'static str) -> (r: K1<P, str>)
    ensures
        r@ == v@,
{
    P::from_box(boxed_str_from_str(v))
}

/// The elements of `v` behind a pointer of kind `P`.
pub fn from_vec<P: RefHKT<[T]>, T>(v: Vec<T>) -> (r: K1<P, [T]>)
    ensures
        r@ == v@,
{
    P::from_box(boxed_slice_from_vec(v))
}

impl<P: RefHKT<A>, A: View + ?Sized> View for K1<P, A> {
    type V = A::V;

    open spec fn view(&self) -> A::V {
        P::pointee(&self.ptr()).view()
    }
}

impl<P: RefHKT<A>, A: ?Sized> K1<P, A> {
    /// The value behind the pointer.
    pub open spec fn pointee(&self) -> &A {
        P::pointee(&self.ptr())
    }
}

impl<P: RefHKT<A>, A: ?Sized> core::ops::Deref for K1<P, A> {
    type Target = A;

    fn deref(&self) -> (r: &A)
        ensures
            r == self.pointee(),
    {
        P::deref(&self.0)
    }
}

impl<P: RefHKT<A>, A: ?Sized> AsRef<A> for K1<P, A> {
    fn as_ref(&self) -> (r: &A)
        ensures
            r == self.pointee(),
    {
        P::deref(&self.0)
    }
}

/// Pointer kinds that can share one pointee between several pointers.
pub trait SharedPointerHKT<A: ?Sized>: RefHKT<A> {
    /// Gives back the pointee if `value` was its only strong pointer, else `value` itself.
    fn try_unwrap(value: Self::T) -> (r: Result<A, Self::T>)
        where A: Sized
        ensures
            match r {
                Ok(a) => a == *Self::pointee(&value),
                Err(p) => p == value,
            };

    /// Mutable access to the pointee when `value` is its only pointer.
    fn get_mut(value: &mut Self::T) -> (r: Option<&mut A>)
        ensures
            match r {
                Some(m) => &*m == Self::pointee(old(value))
                    && Self::pointee(final(value)) == &*final(m),
                None => *final(value) == *old(value),
            };

    /// Mutable access to the pointee, cloning it first when it is shared.
    fn make_mut(value: &mut Self::T) -> (r: &mut A)
        where A: Clone
        ensures
            *r == *Self::pointee(old(value)) || cloned::<A>(*Self::pointee(old(value)), *r),
            *Self::pointee(final(value)) == *final(r);

    /// The number of strong pointers to the pointee of `value`.
    fn strong_count(value: &Self::T) -> (r: usize)
        ensures
            r >= 1;

    /// A second pointer to the pointee of `value`.
    fn clone(value: &Self::T) -> (r: K1<Self, A>)
        ensures
            r.pointee() == Self::pointee(value);
}

/// Calls `Arc::try_unwrap`: documented to give the pointee when `value` is its only strong
/// pointer, and `value` itself back otherwise.
#[verifier::external_body]
fn arc_try_unwrap<A>(value: Arc<A>) -> (r: Result<A, Arc<A>>)
    ensures
        match r {
            Ok(a) => a == *value,
            Err(p) => p == value,
        },
{
    Arc::try_unwrap(value)
}

/// Calls `Arc::get_mut`: documented to lend the pointee mutably when no other pointer
/// shares it, and to give `None`, changing nothing, otherwise.
#[verifier::external_body]
fn arc_get_mut<A: ?Sized>(value: &mut Arc<A>) -> (r: Option<&mut A>)
    ensures
        match r {
            Some(m) => &*m == &**old(value) && &**final(value) == &*final(m),
            None => *final(value) == *old(value),
        },
{
    Arc::get_mut(value)
}

/// Calls `Arc::make_mut`: documented to lend the pointee mutably, first cloning it into
/// a new allocation when other pointers share it.
#[verifier::external_body]
fn arc_make_mut<A: Clone>(value: &mut Arc<A>) -> (r: &mut A)
    ensures
        *r == **old(value) || cloned::<A>(**old(value), *r),
        **final(value) == *final(r),
{
    Arc::make_mut(value)
}

/// Calls `Arc::strong_count`, which counts `value` itself among the strong pointers.
#[verifier::external_body]
fn arc_strong_count<A: ?Sized>(value: &Arc<A>) -> (r: usize)
    ensures
        r >= 1,
{
    Arc::strong_count(value)
}

/// Calls `Arc::clone`, which makes another pointer to the same pointee.
#[verifier::external_body]
fn arc_clone<A: ?Sized>(value: &Arc<A>) -> (r: Arc<A>)
    ensures
        &*r == &**value,
{
    Arc::clone(value)
}

/// Calls `Rc::get_mut`: documented to lend the pointee mutably when no other pointer
/// shares it, and to give `None`, changing nothing, otherwise.
#[verifier::external_body]
fn rc_get_mut<A: ?Sized>(value: &mut Rc<A>) -> (r: Option<&mut A>)
    ensures
        match r {
            Some(m) => &*m == &**old(value) && &**final(value) == &*final(m),
            None => *final(value) == *old(value),
        },
{
    Rc::get_mut(value)
}

/// Calls `Rc::make_mut`: documented to lend the pointee mutably, first cloning it into a
/// new allocation when other pointers share it.
#[verifier::external_body]
fn rc_make_mut<A: Clone>(value: &mut Rc<A>) -> (r: &mut A)
    ensures
        *r == **old(value) || cloned::<A>(**old(value), *r),
        **final(value) == *final(r),
{
    Rc::make_mut(value)
}

/// Calls `Rc::strong_count`, which counts `value` itself among the strong pointers.
#[verifier::external_body]
fn rc_strong_count<A: ?Sized>(value: &Rc<A>) -> (r: usize)
    ensures
        r >= 1,
{
    Rc::strong_count(value)
}

/// Calls `Rc::clone`, which makes another pointer to the same pointee.
#[verifier::external_body]
fn rc_clone<A: ?Sized>(value: &Rc<A>) -> (r: Rc<A>)
    ensures
        &*r == &**value,
{
    Rc::clone(value)
}

impl<A: ?Sized> SharedPointerHKT<A> for ArcHKT {
    fn try_unwrap(value: Arc<A>) -> (r: Result<A, Arc<A>>)
        where A: Sized
    {
        arc_try_unwrap(value)
    }

    fn get_mut(value: &mut Arc<A>) -> (r: Option<&mut A>) {
        arc_get_mut(value)
    }

    fn make_mut(value: &mut Arc<A>) -> (r: &mut A)
        where A: Clone
    {
        arc_make_mut(value)
    }

    fn strong_count(value: &Arc<A>) -> (r: usize) {
        arc_strong_count(value)
    }

    fn clone(value: &Arc<A>) -> (r: K1<Self, A>) {
        K1(arc_clone(value))
    }
}

impl<A: ?Sized> SharedPointerHKT<A> for RcHKT {
    fn try_unwrap(value: Rc<A>) -> (r: Result<A, Rc<A>>)
        where A: Sized
    {
        Rc::try_unwrap(value)
    }

    fn get_mut(value: &mut Rc<A>) -> (r: Option<&mut A>) {
        rc_get_mut(value)
    }

    fn make_mut(value: &mut Rc<A>) -> (r: &mut A)
        where A: Clone
    {
        rc_make_mut(value)
    }

    fn strong_count(value: &Rc<A>) -> (r: usize) {
        rc_strong_count(value)
    }

    fn clone(value: &Rc<A>) -> (r: K1<Self, A>) {
        K1(rc_clone(value))
    }
}

impl<P: SharedPointerHKT<A>, A: ?Sized> Clone for K1<P, A> {
    fn clone(&self) -> (r: Self)
        ensures
            r.pointee() == self.pointee(),
    {
        P::clone(&self.0)
    }
}

/// Pointer kinds whose pointers may be sent to another thread.
pub trait SendHKT<A: ?Sized>: HKT1Unsized<A> {}

/// Pointer kinds whose pointers may be shared between threads.
pub trait SyncHKT<A: ?Sized>: HKT1Unsized<A> {}

impl<A: ?Sized> SendHKT<A> for ArcHKT {}

impl<A: ?Sized> SyncHKT<A> for ArcHKT {}

/// The identity type function.
pub struct Id;

} // verus!
