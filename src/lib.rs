//! Imprints values at the type level, so that values that only exist at run
//! time can be checked at compile time.
//!
//! `imprint` wraps a value in a `Val<'x, T>` whose marker `'x` belongs to that
//! value alone.  Comparing two such containers at run time yields a `TyEq`,
//! evidence that their types are interchangeable, which can then move values
//! from one type to the other.  `Exists` lets a container leave the callback
//! that confines it by forgetting its marker.
mod erase;
mod escape;
mod ty_eq;
mod val;

pub use escape::{Exists, TyFnL, lemma_capture_open};
pub use ty_eq::{
    Identity,
    Itself,
    PhantomInvariantData,
    TyEq,
    TyFn,
    lemma_refl_identity,
    lemma_sym_round_trip,
    lemma_trans_composes,
    transported,
};
pub use val::{
    IntoInner,
    PhantomInvariantLifetime,
    Val,
    imprint,
    lemma_imprint_extract,
    lemma_transported_val,
};
