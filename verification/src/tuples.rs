//! Mapping every element of a tuple through one "lifter", a function generic in the
//! element's type. A kind of type is a type `K` with an impl of `HKT<A>` for each `A`; its
//! `T` is what `K` makes of `A`.
use vstd::prelude::*;

verus! {

/// A kind of type: `Self::T` is what the kind makes of `A`.
pub trait HKT<A> {
    type T;
}

/// Types whose values can be sent and shared between threads.
pub trait SendSyncStatic: Send + Sync {}

impl<T: Send + Sync> SendSyncStatic for T {}

/// Marker types that name a choice of implementations.
pub trait Marker: Send + Sync + 'static {}

/// A kind whose values are made from plain values without any state.
pub trait Lift<A>: Sized {
    type T;

    fn lift(t: A) -> Self::T;
}

/// A function object that maps a value of any type to a value of its kind.
pub trait Lifter<A>: Sized {
    type T;

    fn lift(&self, t: A) -> Self::T;
}

/// A function object with state that maps a value of any type to a value of its kind.
pub trait LifterMut<A>: Sized {
    type T;

    fn lift(&mut self, t: A) -> Self::T;
}

/// A list built of nested pairs, `(A, (B, (C, ())))`, mapped element by element.
pub trait LiftFunctor<F>: Sized {
    type T;

    fn lift_map(self, lifter: &F) -> Self::T;
}

impl<F> LiftFunctor<F> for () {
    type T = ();

    fn lift_map(self, lifter: &F) {
    }
}

impl<F: Lifter<A>, A, B: LiftFunctor<F>> LiftFunctor<F> for (A, B) {
    type T = (<F as Lifter<A>>::T, B::T);

    fn lift_map(self, lifter: &F) -> (r: (<F as Lifter<A>>::T, B::T))
        ensures
            call_ensures(<F as Lifter<A>>::lift, (lifter, self.0), r.0),
            call_ensures(<B as LiftFunctor<F>>::lift_map, (self.1, lifter), r.1),
    {
        let (a, rest) = self;
        (lifter.lift(a), rest.lift_map(lifter))
    }
}

/// A lifter for the values that kind `K` can hold.
pub trait LifterK<K: HKT<A>, A>: Sized {
    type T;

    fn lift(&self, t: A) -> Self::T;
}

/// A list of nested pairs, mapped element by element with a lifter for kind `K`.
pub trait LiftFunctorK<K, F>: Sized {
    type T;

    fn lift_map(self, lifter: &F) -> Self::T;
}

impl<K, F> LiftFunctorK<K, F> for () {
    type T = ();

    fn lift_map(self, lifter: &F) {
    }
}

impl<K: HKT<A>, F: LifterK<K, A>, A, B: LiftFunctorK<K, F>> LiftFunctorK<K, F> for (A, B) {
    type T = (<F as LifterK<K, A>>::T, B::T);

    fn lift_map(self, lifter: &F) -> (r: (<F as LifterK<K, A>>::T, B::T))
        ensures
            call_ensures(<F as LifterK<K, A>>::lift, (lifter, self.0), r.0),
            call_ensures(<B as LiftFunctorK<K, F>>::lift_map, (self.1, lifter), r.1),
    {
        let (a, rest) = self;
        (lifter.lift(a), rest.lift_map(lifter))
    }
}

/// The kind of `actix-web`'s `ThinData`.
#[derive(Debug, Clone, Copy, Hash, PartialEq, Eq, PartialOrd, Ord)]
pub enum ThinDataHKT {
    Marker,
}

impl Marker for ThinDataHKT {}

impl<A> HKT<A> for ThinDataHKT {
    type T = actix_web::web::ThinData<A>;
}

/// Wraps `t` in `actix_web::web::ThinData`; the wrapper is opaque here.
#[verifier::external_body]
fn thin_data<A>(t: A) -> (r: actix_web::web::ThinData<A>) {
    actix_web::web::ThinData(t)
}

impl<A> Lift<A> for ThinDataHKT {
    type T = actix_web::web::ThinData<A>;

    fn lift(t: A) -> actix_web::web::ThinData<A> {
        thin_data(t)
    }
}

/// A tuple of nine values, mapped element by element.
pub trait TupleMap9<T, U, V, W, X, Y, Z, A, B>: Sized {
    /// Each element lifted into kind `F`.
    fn lift_map<F: Lift<T> + Lift<U> + Lift<V> + Lift<W> + Lift<X> + Lift<Y> + Lift<Z> + Lift<A> + Lift<B>>(self) -> (
        <F as Lift<T>>::T,
        <F as Lift<U>>::T,
        <F as Lift<V>>::T,
        <F as Lift<W>>::T,
        <F as Lift<X>>::T,
        <F as Lift<Y>>::T,
        <F as Lift<Z>>::T,
        <F as Lift<A>>::T,
        <F as Lift<B>>::T,
    );

    /// Each element lifted with `f`.
    fn map<G: Lifter<T> + Lifter<U> + Lifter<V> + Lifter<W> + Lifter<X> + Lifter<Y> + Lifter<Z> + Lifter<A> + Lifter<B>>(self, f: &G) -> (
        <G as Lifter<T>>::T,
        <G as Lifter<U>>::T,
        <G as Lifter<V>>::T,
        <G as Lifter<W>>::T,
        <G as Lifter<X>>::T,
        <G as Lifter<Y>>::T,
        <G as Lifter<Z>>::T,
        <G as Lifter<A>>::T,
        <G as Lifter<B>>::T,
    );

    /// Each element lifted with `f`, in order, which may change `f` as it goes.
    fn map_mut<G: LifterMut<T> + LifterMut<U> + LifterMut<V> + LifterMut<W> + LifterMut<X> + LifterMut<Y> + LifterMut<Z> + LifterMut<A> + LifterMut<B>>(self, f: &mut G) -> (
        <G as LifterMut<T>>::T,
        <G as LifterMut<U>>::T,
        <G as LifterMut<V>>::T,
        <G as LifterMut<W>>::T,
        <G as LifterMut<X>>::T,
        <G as LifterMut<Y>>::T,
        <G as LifterMut<Z>>::T,
        <G as LifterMut<A>>::T,
        <G as LifterMut<B>>::T,
    );
}

impl<T, U, V, W, X, Y, Z, A, B> TupleMap9<T, U, V, W, X, Y, Z, A, B> for (T, U, V, W, X, Y, Z, A, B) {
    fn lift_map<F: Lift<T> + Lift<U> + Lift<V> + Lift<W> + Lift<X> + Lift<Y> + Lift<Z> + Lift<A> + Lift<B>>(self) -> (r: (
        <F as Lift<T>>::T,
        <F as Lift<U>>::T,
        <F as Lift<V>>::T,
        <F as Lift<W>>::T,
        <F as Lift<X>>::T,
        <F as Lift<Y>>::T,
        <F as Lift<Z>>::T,
        <F as Lift<A>>::T,
        <F as Lift<B>>::T,
    ))
        ensures
            call_ensures(<F as Lift<T>>::lift, (self.0,), r.0),
            call_ensures(<F as Lift<U>>::lift, (self.1,), r.1),
            call_ensures(<F as Lift<V>>::lift, (self.2,), r.2),
            call_ensures(<F as Lift<W>>::lift, (self.3,), r.3),
            call_ensures(<F as Lift<X>>::lift, (self.4,), r.4),
            call_ensures(<F as Lift<Y>>::lift, (self.5,), r.5),
            call_ensures(<F as Lift<Z>>::lift, (self.6,), r.6),
            call_ensures(<F as Lift<A>>::lift, (self.7,), r.7),
            call_ensures(<F as Lift<B>>::lift, (self.8,), r.8),
    {
        let (t0, u0, v0, w0, x0, y0, z0, a0, b0) = self;
        (<F as Lift<T>>::lift(t0), <F as Lift<U>>::lift(u0), <F as Lift<V>>::lift(v0), <F as Lift<W>>::lift(w0), <F as Lift<X>>::lift(x0), <F as Lift<Y>>::lift(y0), <F as Lift<Z>>::lift(z0), <F as Lift<A>>::lift(a0), <F as Lift<B>>::lift(b0))
    }

    fn map<G: Lifter<T> + Lifter<U> + Lifter<V> + Lifter<W> + Lifter<X> + Lifter<Y> + Lifter<Z> + Lifter<A> + Lifter<B>>(self, f: &G) -> (r: (
        <G as Lifter<T>>::T,
        <G as Lifter<U>>::T,
        <G as Lifter<V>>::T,
        <G as Lifter<W>>::T,
        <G as Lifter<X>>::T,
        <G as Lifter<Y>>::T,
        <G as Lifter<Z>>::T,
        <G as Lifter<A>>::T,
        <G as Lifter<B>>::T,
    ))
        ensures
            call_ensures(<G as Lifter<T>>::lift, (f, self.0), r.0),
            call_ensures(<G as Lifter<U>>::lift, (f, self.1), r.1),
            call_ensures(<G as Lifter<V>>::lift, (f, self.2), r.2),
            call_ensures(<G as Lifter<W>>::lift, (f, self.3), r.3),
            call_ensures(<G as Lifter<X>>::lift, (f, self.4), r.4),
            call_ensures(<G as Lifter<Y>>::lift, (f, self.5), r.5),
            call_ensures(<G as Lifter<Z>>::lift, (f, self.6), r.6),
            call_ensures(<G as Lifter<A>>::lift, (f, self.7), r.7),
            call_ensures(<G as Lifter<B>>::lift, (f, self.8), r.8),
    {
        let (t0, u0, v0, w0, x0, y0, z0, a0, b0) = self;
        (<G as Lifter<T>>::lift(f, t0), <G as Lifter<U>>::lift(f, u0), <G as Lifter<V>>::lift(f, v0), <G as Lifter<W>>::lift(f, w0), <G as Lifter<X>>::lift(f, x0), <G as Lifter<Y>>::lift(f, y0), <G as Lifter<Z>>::lift(f, z0), <G as Lifter<A>>::lift(f, a0), <G as Lifter<B>>::lift(f, b0))
    }

    fn map_mut<G: LifterMut<T> + LifterMut<U> + LifterMut<V> + LifterMut<W> + LifterMut<X> + LifterMut<Y> + LifterMut<Z> + LifterMut<A> + LifterMut<B>>(self, f: &mut G) -> (r: (
        <G as LifterMut<T>>::T,
        <G as LifterMut<U>>::T,
        <G as LifterMut<V>>::T,
        <G as LifterMut<W>>::T,
        <G as LifterMut<X>>::T,
        <G as LifterMut<Y>>::T,
        <G as LifterMut<Z>>::T,
        <G as LifterMut<A>>::T,
        <G as LifterMut<B>>::T,
    ))
        ensures
            exists|m0: &mut G, m1: &mut G, m2: &mut G, m3: &mut G, m4: &mut G, m5: &mut G, m6: &mut G, m7: &mut G, m8: &mut G|
                #![trigger call_ensures(<G as LifterMut<T>>::lift, (m0, self.0), r.0), call_ensures(<G as LifterMut<U>>::lift, (m1, self.1), r.1), call_ensures(<G as LifterMut<V>>::lift, (m2, self.2), r.2), call_ensures(<G as LifterMut<W>>::lift, (m3, self.3), r.3), call_ensures(<G as LifterMut<X>>::lift, (m4, self.4), r.4), call_ensures(<G as LifterMut<Y>>::lift, (m5, self.5), r.5), call_ensures(<G as LifterMut<Z>>::lift, (m6, self.6), r.6), call_ensures(<G as LifterMut<A>>::lift, (m7, self.7), r.7), call_ensures(<G as LifterMut<B>>::lift, (m8, self.8), r.8)] {
                &&& mut_ref_current(m0) == *old(f)
                &&& mut_ref_future(m0) == mut_ref_current(m1)
                &&& mut_ref_future(m1) == mut_ref_current(m2)
                &&& mut_ref_future(m2) == mut_ref_current(m3)
                &&& mut_ref_future(m3) == mut_ref_current(m4)
                &&& mut_ref_future(m4) == mut_ref_current(m5)
                &&& mut_ref_future(m5) == mut_ref_current(m6)
                &&& mut_ref_future(m6) == mut_ref_current(m7)
                &&& mut_ref_future(m7) == mut_ref_current(m8)
                &&& mut_ref_future(m8) == *final(f)
                &&& call_ensures(<G as LifterMut<T>>::lift, (m0, self.0), r.0)
                &&& call_ensures(<G as LifterMut<U>>::lift, (m1, self.1), r.1)
                &&& call_ensures(<G as LifterMut<V>>::lift, (m2, self.2), r.2)
                &&& call_ensures(<G as LifterMut<W>>::lift, (m3, self.3), r.3)
                &&& call_ensures(<G as LifterMut<X>>::lift, (m4, self.4), r.4)
                &&& call_ensures(<G as LifterMut<Y>>::lift, (m5, self.5), r.5)
                &&& call_ensures(<G as LifterMut<Z>>::lift, (m6, self.6), r.6)
                &&& call_ensures(<G as LifterMut<A>>::lift, (m7, self.7), r.7)
                &&& call_ensures(<G as LifterMut<B>>::lift, (m8, self.8), r.8)
            },
    {
        let (t0, u0, v0, w0, x0, y0, z0, a0, b0) = self;
        let ghost g0 = *f;
        let t1 = <G as LifterMut<T>>::lift(f, t0);
        let ghost g1 = *f;
        let ghost m0 = choose|m: &mut G| #![trigger call_ensures(<G as LifterMut<T>>::lift, (m, t0), t1)]
            mut_ref_current(m) == g0 && mut_ref_future(m) == g1 && call_ensures(<G as LifterMut<T>>::lift, (m, t0), t1);
        let u1 = <G as LifterMut<U>>::lift(f, u0);
        let ghost g2 = *f;
        let ghost m1 = choose|m: &mut G| #![trigger call_ensures(<G as LifterMut<U>>::lift, (m, u0), u1)]
            mut_ref_current(m) == g1 && mut_ref_future(m) == g2 && call_ensures(<G as LifterMut<U>>::lift, (m, u0), u1);
        let v1 = <G as LifterMut<V>>::lift(f, v0);
        let ghost g3 = *f;
        let ghost m2 = choose|m: &mut G| #![trigger call_ensures(<G as LifterMut<V>>::lift, (m, v0), v1)]
            mut_ref_current(m) == g2 && mut_ref_future(m) == g3 && call_ensures(<G as LifterMut<V>>::lift, (m, v0), v1);
        let w1 = <G as LifterMut<W>>::lift(f, w0);
        let ghost g4 = *f;
        let ghost m3 = choose|m: &mut G| #![trigger call_ensures(<G as LifterMut<W>>::lift, (m, w0), w1)]
            mut_ref_current(m) == g3 && mut_ref_future(m) == g4 && call_ensures(<G as LifterMut<W>>::lift, (m, w0), w1);
        let x1 = <G as LifterMut<X>>::lift(f, x0);
        let ghost g5 = *f;
        let ghost m4 = choose|m: &mut G| #![trigger call_ensures(<G as LifterMut<X>>::lift, (m, x0), x1)]
            mut_ref_current(m) == g4 && mut_ref_future(m) == g5 && call_ensures(<G as LifterMut<X>>::lift, (m, x0), x1);
        let y1 = <G as LifterMut<Y>>::lift(f, y0);
        let ghost g6 = *f;
        let ghost m5 = choose|m: &mut G| #![trigger call_ensures(<G as LifterMut<Y>>::lift, (m, y0), y1)]
            mut_ref_current(m) == g5 && mut_ref_future(m) == g6 && call_ensures(<G as LifterMut<Y>>::lift, (m, y0), y1);
        let z1 = <G as LifterMut<Z>>::lift(f, z0);
        let ghost g7 = *f;
        let ghost m6 = choose|m: &mut G| #![trigger call_ensures(<G as LifterMut<Z>>::lift, (m, z0), z1)]
            mut_ref_current(m) == g6 && mut_ref_future(m) == g7 && call_ensures(<G as LifterMut<Z>>::lift, (m, z0), z1);
        let a1 = <G as LifterMut<A>>::lift(f, a0);
        let ghost g8 = *f;
        let ghost m7 = choose|m: &mut G| #![trigger call_ensures(<G as LifterMut<A>>::lift, (m, a0), a1)]
            mut_ref_current(m) == g7 && mut_ref_future(m) == g8 && call_ensures(<G as LifterMut<A>>::lift, (m, a0), a1);
        let b1 = <G as LifterMut<B>>::lift(f, b0);
        let ghost g9 = *f;
        let ghost m8 = choose|m: &mut G| #![trigger call_ensures(<G as LifterMut<B>>::lift, (m, b0), b1)]
            mut_ref_current(m) == g8 && mut_ref_future(m) == g9 && call_ensures(<G as LifterMut<B>>::lift, (m, b0), b1);
        let r = (t1, u1, v1, w1, x1, y1, z1, a1, b1);
        proof {
            assert(r.0 == t1 && r.1 == u1 && r.2 == v1 && r.3 == w1 && r.4 == x1 && r.5 == y1 && r.6 == z1 && r.7 == a1 && r.8 == b1);
            assert(exists|n0: &mut G, n1: &mut G, n2: &mut G, n3: &mut G, n4: &mut G, n5: &mut G, n6: &mut G, n7: &mut G, n8: &mut G|
                #![trigger call_ensures(<G as LifterMut<T>>::lift, (n0, t0), r.0), call_ensures(<G as LifterMut<U>>::lift, (n1, u0), r.1), call_ensures(<G as LifterMut<V>>::lift, (n2, v0), r.2), call_ensures(<G as LifterMut<W>>::lift, (n3, w0), r.3), call_ensures(<G as LifterMut<X>>::lift, (n4, x0), r.4), call_ensures(<G as LifterMut<Y>>::lift, (n5, y0), r.5), call_ensures(<G as LifterMut<Z>>::lift, (n6, z0), r.6), call_ensures(<G as LifterMut<A>>::lift, (n7, a0), r.7), call_ensures(<G as LifterMut<B>>::lift, (n8, b0), r.8)] {
                &&& mut_ref_current(n0) == g0
                &&& mut_ref_future(n0) == mut_ref_current(n1)
                &&& mut_ref_future(n1) == mut_ref_current(n2)
                &&& mut_ref_future(n2) == mut_ref_current(n3)
                &&& mut_ref_future(n3) == mut_ref_current(n4)
                &&& mut_ref_future(n4) == mut_ref_current(n5)
                &&& mut_ref_future(n5) == mut_ref_current(n6)
                &&& mut_ref_future(n6) == mut_ref_current(n7)
                &&& mut_ref_future(n7) == mut_ref_current(n8)
                &&& mut_ref_future(n8) == g9
                &&& call_ensures(<G as LifterMut<T>>::lift, (n0, t0), r.0)
                &&& call_ensures(<G as LifterMut<U>>::lift, (n1, u0), r.1)
                &&& call_ensures(<G as LifterMut<V>>::lift, (n2, v0), r.2)
                &&& call_ensures(<G as LifterMut<W>>::lift, (n3, w0), r.3)
                &&& call_ensures(<G as LifterMut<X>>::lift, (n4, x0), r.4)
                &&& call_ensures(<G as LifterMut<Y>>::lift, (n5, y0), r.5)
                &&& call_ensures(<G as LifterMut<Z>>::lift, (n6, z0), r.6)
                &&& call_ensures(<G as LifterMut<A>>::lift, (n7, a0), r.7)
                &&& call_ensures(<G as LifterMut<B>>::lift, (n8, b0), r.8)
            });
        }
        r
    }
}

} // verus!
