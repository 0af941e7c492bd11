use vstd::prelude::*;
use std::marker::PhantomData;
use crate::erase::Erasable;
use crate::ty_eq::{TyEq, transported};
use vstd::std_specs::cmp::PartialEqSpec;

verus! {

/// Like `PhantomData` but keeps `'a` invariant.
pub type PhantomInvariantLifetime<'a> = PhantomData<&'a mut &'a ()>;

/// A value imprinted at the type level.
///
/// A `Val<'x, T>` holds an instance of `T` together with a marker `'x` that
/// stands for the value of that instance at the type level.  A `Val` is made
/// by `imprint`, which gives each call a marker of its own, or by `default`,
/// which uses the marker `'static`.
///
/// What "value" means is given by `T`'s equality, which must be an
/// equivalence relation (or a partial one) that no access through `&T` can
/// change: types with interior mutability break the properties below.
///
///   - If equality on `T` is an equivalence relation, then for each marker
///     `'x` the type `Val<'x, T>` holds exactly one value, and each value
///     has its own marker: `Val<'x, T>` is a singleton type.
///   - If it is only a partial equivalence relation, then for each marker
///     the type holds either one identifiable value (one equal to itself)
///     or one that is not, and each identifiable value has its own marker.
#[derive(PartialEq, Eq, PartialOrd, Ord, Hash, Debug)]
pub struct Val<'x, T> {
    tag: PhantomInvariantLifetime<'x>,
    inner: T,
}

impl<'x, T> Val<'x, T> {
    /// The value held.
    pub closed spec fn view(&self) -> T {
        self.inner
    }
}

impl<'x, T: Clone> Clone for Val<'x, T> {
    fn clone(&self) -> (r: Self)
        ensures
            call_ensures(T::clone, (&self@,), r@),
    {
        Val { tag: PhantomData, inner: self.inner.clone() }
    }
}

impl<'x, T: Copy> Copy for Val<'x, T> {

}

/// Allows the inner value to be extracted from a wrapped value.
pub trait IntoInner: Sized {
    type Inner;

    /// The value that `into_inner` hands back.
    spec fn inner_of(self) -> Self::Inner;

    /// Extracts the inner value.
    fn into_inner(self) -> (r: Self::Inner)
        ensures
            r == self.inner_of(),
    ;
}

impl<'x, T> IntoInner for Val<'x, T> {
    type Inner = T;

    open spec fn inner_of(self) -> T {
        self@
    }

    fn into_inner(self) -> (r: T)
        ensures
            r == self@,
    {
        self.inner
    }
}

/// Imprints the type of a value with the value itself.
///
/// The value is wrapped as a `Val<'x, T>`, where `'x` is a marker unique to
/// this call, and handed to `callback`, whose result is returned.  The
/// higher-rank bound keeps the container from leaving the callback.
pub fn imprint<F, R, T>(value: T, callback: F) -> (r: R) where F: for<'x> FnOnce(Val<'x, T>) -> R,
    requires
        forall|v: Val<T>| v@ == value ==> #[trigger] callback.requires((v,)),
    ensures
        exists|v: Val<T>| v@ == value && #[trigger] callback.ensures((v,), r),
{
    let v = Val { tag: PhantomData, inner: value };
    assert(v@ == value);
    let r = callback(v);
    assert(callback.ensures((v,), r));
    r
}

/// Moving a container to another marker keeps what it holds: the result is
/// the same container, marker aside.
pub proof fn lemma_transported_val<'x, 'y, T>(v: Val<'x, T>)
    ensures
        transported::<Val<'x, T>, Val<'y, T>>(v) == v,
        transported::<Val<'x, T>, Val<'y, T>>(v)@ == v@,
{
}

/// Under `imprint`, a continuation that extracts the container it is handed
/// returns the imprinted value.
pub proof fn lemma_imprint_extract<T, F>(value: T, callback: F, r: T) where
    F: for<'x> FnOnce(Val<'x, T>) -> T,
    requires
        forall|v: Val<T>, o: T| #[trigger] callback.ensures((v,), o) ==> o == v.inner_of(),
        exists|v: Val<T>| v@ == value && #[trigger] callback.ensures((v,), r),
    ensures
        r == value,
{
}

impl<'x, T: PartialEq> Val<'x, T> {
    /// Checks whether two values are equal.  If they are, evidence that
    /// their two container types are interchangeable is returned.
    pub fn eq<'y>(&self, other: &Val<'y, T>) -> (r: Option<TyEq<Self, Val<'y, T>>>)
        ensures
            exists|b: bool| #[trigger] call_ensures(T::eq, (&self@, &other@), b) && (r is Some <==> b),
            T::obeys_eq_spec() ==> (r is Some <==> self@.eq_spec(&other@)),
    {
        let same = self.inner.eq(&other.inner);
        assert(call_ensures(T::eq, (&self@, &other@), same));
        if same {
            Some(TyEq::conjure())
        } else {
            None
        }
    }
}

/// The default container always carries the marker `'static`, so any two
/// of them share their type.
impl<T: Default> Default for Val<'static, T> {
    fn default() -> (r: Self)
        ensures
            call_ensures(T::default, (), r@),
    {
        Val { tag: PhantomData, inner: T::default() }
    }
}

impl<'x, T> AsRef<T> for Val<'x, T> {
    fn as_ref(&self) -> (r: &T)
        ensures
            *r == self@,
    {
        &self.inner
    }
}

impl<'x, T> std::borrow::Borrow<T> for Val<'x, T> {
    fn borrow(&self) -> &T {
        &self.inner
    }
}

impl<'x, T> std::ops::Deref for Val<'x, T> {
    type Target = T;

    fn deref(&self) -> (r: &T)
        ensures
            *r == self@,
    {
        &self.inner
    }
}

impl<'x, T> Erasable for Val<'x, T> {
    type Erased = T;

    closed spec fn erased(self) -> T {
        self.inner
    }

    closed spec fn restored(e: T) -> Self {
        Val { tag: PhantomData, inner: e }
    }

    proof fn lemma_erase_restore(self, e: T) {
    }

    fn erase(self) -> (r: T) {
        self.inner
    }

    fn restore(e: T) -> (r: Self) {
        Val { tag: PhantomData, inner: e }
    }
}

} // verus!
