use vstd::prelude::*;
use crate::erase::Erasable;
use crate::val::{IntoInner, Val};

verus! {

/// Used to define type-level functions of a lifetime, for use with `Exists`.
///
/// Implementations must be parametric in `'a`: the output may mention `'a`
/// only as a marker.
pub trait TyFnL<'a> {
    type Output;
}

/// An object whose marker lifetime is existentially quantified.
///
/// `Exists<F>` holds a value of `<F as TyFnL<'a>>::Output` for some `'a`
/// that has been forgotten, so the value can outlive the callback that
/// confined it.  `with` opens it again under a fresh marker.
pub struct Exists<F: for<'a> TyFnL<'a>>(<F as TyFnL<'static>>::Output);

impl<F: for<'a> TyFnL<'a>> Exists<F> {
    /// The value held, under the marker `'static`.
    pub closed spec fn view(&self) -> <F as TyFnL<'static>>::Output {
        self.0
    }

    /// Creates an `Exists` object, forgetting the marker `'a`.
    pub fn new<'a, E>(value: <F as TyFnL<'a>>::Output) -> (r: Exists<F>) where
        for<'b> <F as TyFnL<'b>>::Output: Erasable<Erased = E>,
        ensures
            r@ == value,
    {
        let e = value.erase();
        let held = <<F as TyFnL<'static>>::Output as Erasable>::restore(e);
        proof {
            value.lemma_erase_restore(e);
        }
        Exists(held)
    }

    /// Opens the object: hands the value, under a fresh marker, to
    /// `callback` and returns what it returns.
    pub fn with<U, R>(self, callback: U) -> (r: R) where U: for<'a> FnOnce(<F as TyFnL<'a>>::Output) -> R,
        requires
            callback.requires((self@,)),
        ensures
            callback.ensures((self@,), r),
    {
        callback(self.0)
    }
}

/// Capturing a container and opening it again hands the continuation the
/// same value: a continuation that extracts it returns what was captured.
pub proof fn lemma_capture_open<T, F, U>(value: Val<T>, x: Exists<F>, callback: U, r: T) where
    F: for<'a> TyFnL<'a, Output = Val<'a, T>>,
    U: for<'a> FnOnce(Val<'a, T>) -> T,
    requires
        x@ == value,
        callback.ensures((x@,), r),
        forall|w: Val<T>, o: T| #[trigger] callback.ensures((w,), o) ==> o == w.inner_of(),
    ensures
        r == value@,
{
    let w: Val<T> = x@;
    assert(callback.ensures((w,), r));
}

} // verus!
