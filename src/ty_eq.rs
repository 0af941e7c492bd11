use vstd::prelude::*;
use std::marker::PhantomData;
use crate::erase::Erasable;

verus! {

/// Used to define type-level functions.
///
/// The parameter identifies the argument of the type function; the
/// implementing type is the function's name.  This lets users define their
/// own type functions without breaking the orphan rules.
pub trait TyFn<F: ?Sized> {
    /// The result of the type function.
    type Output: ?Sized;
}

/// The identity function on types: `<Identity as TyFn<T>>::Output` is `T`.
pub struct Identity;

impl<T: ?Sized> TyFn<T> for Identity {
    type Output = T;
}

/// The value of `B` that holds what `a` holds: same stripped form, with the
/// markers of `B` in place of those of `A`.
pub open spec fn transported<A: Erasable, B: Erasable<Erased = A::Erased>>(a: A) -> B {
    B::restored(a.erased())
}

/// The identity on types, written as a projection.  A type behind a
/// projection cannot be widened by subtyping.
pub trait Itself {
    type Same: ?Sized;
}

impl<T: ?Sized> Itself for T {
    type Same = T;
}

/// Like `PhantomData` but keeps `T` invariant.
pub type PhantomInvariantData<T> = PhantomData<<T as Itself>::Same>;

/// Propositional equality between types.
///
/// A `TyEq<T, U>` is evidence that `T` and `U` are the same type up to the
/// scope markers they carry.  Safe code obtains one only by reflexivity, by
/// comparing two branded containers, and from those by symmetry and
/// transitivity.  Both parameters are invariant, so subtyping cannot turn
/// one witness into another.  The witness takes no space.
///
/// A witness moves values of the types that can be stripped of their
/// markers: `Val`, `TyEq`, the integer types, `bool`, `char`, `()`,
/// `String`, and boxes, options, results, pairs and triples of these.  Moving a value rebuilds it
/// under the new markers; nothing it holds is recomputed.
#[derive(Debug)]
pub struct TyEq<T: ?Sized, U: ?Sized>(PhantomInvariantData<T>, PhantomInvariantData<U>);

impl<T: ?Sized> TyEq<T, T> {
    /// Constructor for `TyEq` (reflexivity).
    pub fn refl() -> Self {
        TyEq(PhantomData, PhantomData)
    }
}

impl<T: ?Sized, U: ?Sized> TyEq<T, U> {
    /// Asserts that `T` and `U` are equal up to their markers.  Only the
    /// crate calls this, where a run-time check has shown it.
    pub(crate) fn conjure() -> Self {
        TyEq(PhantomData, PhantomData)
    }

    /// Substitutes `U` for `T` within the shape `F` (Leibniz's law).
    ///
    /// The value is moved over unchanged: what it holds stays as it was and
    /// only its markers change.
    pub fn apply<F: ?Sized>(self, value: <F as TyFn<T>>::Output) -> (r: <F as TyFn<U>>::Output) where
        F: TyFn<T> + TyFn<U>,
        <F as TyFn<T>>::Output: Erasable,
        <F as TyFn<U>>::Output: Erasable<Erased = <<F as TyFn<T>>::Output as Erasable>::Erased>,
        ensures
            r == transported::<<F as TyFn<T>>::Output, <F as TyFn<U>>::Output>(value),
    {
        let e = value.erase();
        <<F as TyFn<U>>::Output as Erasable>::restore(e)
    }

    /// Exchanges `T` and `U` (symmetry).
    pub fn sym(self) -> TyEq<U, T> {
        TyEq(PhantomData, PhantomData)
    }

    /// Composes two equalities (transitivity).
    pub fn trans<R: ?Sized>(self, other: TyEq<U, R>) -> TyEq<T, R> {
        TyEq(PhantomData, PhantomData)
    }
}

impl<T, U> TyEq<T, U> {
    /// Casts from `T` to `U`: `apply` with the identity shape.
    pub fn cast(self, value: T) -> (r: U) where T: Erasable, U: Erasable<Erased = T::Erased>,
        ensures
            r == transported::<T, U>(value),
    {
        self.apply::<Identity>(value)
    }
}

/// Reflexivity is the identity: moving a value along `refl` changes nothing.
pub proof fn lemma_refl_identity<A: Erasable>(e: TyEq<A, A>, a: A)
    ensures
        transported::<A, A>(a) == a,
{
    a.lemma_erase_restore(a.erased());
}

/// Moving a value along a witness and then back along its inverse gives the
/// value back, in either order.
pub proof fn lemma_sym_round_trip<A: Erasable, B: Erasable<Erased = A::Erased>>(
    e: TyEq<A, B>,
    a: A,
    b: B,
)
    ensures
        transported::<B, A>(transported::<A, B>(a)) == a,
        transported::<A, B>(transported::<B, A>(b)) == b,
{
    a.lemma_erase_restore(a.erased());
    b.lemma_erase_restore(b.erased());
    B::restored(a.erased()).lemma_erase_restore(a.erased());
    A::restored(b.erased()).lemma_erase_restore(b.erased());
}

/// Moving a value along a composed witness is moving it along the first
/// witness and then along the second.
pub proof fn lemma_trans_composes<
    A: Erasable,
    B: Erasable<Erased = A::Erased>,
    C: Erasable<Erased = A::Erased>,
>(e1: TyEq<A, B>, e2: TyEq<B, C>, a: A)
    ensures
        transported::<A, C>(a) == transported::<B, C>(transported::<A, B>(a)),
{
    B::restored(a.erased()).lemma_erase_restore(a.erased());
}

impl<T: ?Sized, U: ?Sized> Clone for TyEq<T, U> {
    fn clone(&self) -> (r: Self) {
        TyEq(PhantomData, PhantomData)
    }
}

impl<T: ?Sized, U: ?Sized> Copy for TyEq<T, U> {

}

impl<T: ?Sized, U: ?Sized> Erasable for TyEq<T, U> {
    type Erased = ();

    closed spec fn erased(self) -> () {
        ()
    }

    closed spec fn restored(e: ()) -> Self {
        TyEq(PhantomData, PhantomData)
    }

    proof fn lemma_erase_restore(self, e: ()) {
    }

    fn erase(self) -> (r: ()) {
        ()
    }

    fn restore(e: ()) -> (r: Self) {
        TyEq(PhantomData, PhantomData)
    }
}

} // verus!
