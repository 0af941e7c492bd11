use vstd::prelude::*;

verus! {

/// Types whose values can be taken apart into a form that no scope marker
/// appears in, and rebuilt from that form under any marker.
///
/// This is what lets a type-equality witness move a value between two types
/// that differ only in their markers.  The trait lives in a private module:
/// rebuilding a branded container from its bare value would mint a container
/// under an arbitrary marker, so only the witness may do it.
pub trait Erasable: Sized {
    /// The form of a value with every marker stripped.
    type Erased;

    /// The stripped form of `self`.
    spec fn erased(self) -> Self::Erased;

    /// The value of `Self` whose stripped form is `e`.
    spec fn restored(e: Self::Erased) -> Self;

    /// Stripping and rebuilding are inverse to each other.
    proof fn lemma_erase_restore(self, e: Self::Erased)
        ensures
            Self::restored(self.erased()) == self,
            Self::restored(e).erased() == e,
    ;

    fn erase(self) -> (r: Self::Erased)
        ensures
            r == self.erased(),
    ;

    fn restore(e: Self::Erased) -> (r: Self)
        ensures
            r == Self::restored(e),
    ;
}

impl Erasable for () {
    type Erased = ();

    open spec fn erased(self) -> () {
        self
    }

    open spec fn restored(e: ()) -> () {
        e
    }

    proof fn lemma_erase_restore(self, e: ()) {
    }

    fn erase(self) -> (r: ()) {
        self
    }

    fn restore(e: ()) -> (r: ()) {
        e
    }
}

impl Erasable for bool {
    type Erased = bool;

    open spec fn erased(self) -> bool {
        self
    }

    open spec fn restored(e: bool) -> bool {
        e
    }

    proof fn lemma_erase_restore(self, e: bool) {
    }

    fn erase(self) -> (r: bool) {
        self
    }

    fn restore(e: bool) -> (r: bool) {
        e
    }
}

impl Erasable for char {
    type Erased = char;

    open spec fn erased(self) -> char {
        self
    }

    open spec fn restored(e: char) -> char {
        e
    }

    proof fn lemma_erase_restore(self, e: char) {
    }

    fn erase(self) -> (r: char) {
        self
    }

    fn restore(e: char) -> (r: char) {
        e
    }
}

impl Erasable for u8 {
    type Erased = u8;

    open spec fn erased(self) -> u8 {
        self
    }

    open spec fn restored(e: u8) -> u8 {
        e
    }

    proof fn lemma_erase_restore(self, e: u8) {
    }

    fn erase(self) -> (r: u8) {
        self
    }

    fn restore(e: u8) -> (r: u8) {
        e
    }
}

impl Erasable for u16 {
    type Erased = u16;

    open spec fn erased(self) -> u16 {
        self
    }

    open spec fn restored(e: u16) -> u16 {
        e
    }

    proof fn lemma_erase_restore(self, e: u16) {
    }

    fn erase(self) -> (r: u16) {
        self
    }

    fn restore(e: u16) -> (r: u16) {
        e
    }
}

impl Erasable for u32 {
    type Erased = u32;

    open spec fn erased(self) -> u32 {
        self
    }

    open spec fn restored(e: u32) -> u32 {
        e
    }

    proof fn lemma_erase_restore(self, e: u32) {
    }

    fn erase(self) -> (r: u32) {
        self
    }

    fn restore(e: u32) -> (r: u32) {
        e
    }
}

impl Erasable for u64 {
    type Erased = u64;

    open spec fn erased(self) -> u64 {
        self
    }

    open spec fn restored(e: u64) -> u64 {
        e
    }

    proof fn lemma_erase_restore(self, e: u64) {
    }

    fn erase(self) -> (r: u64) {
        self
    }

    fn restore(e: u64) -> (r: u64) {
        e
    }
}

impl Erasable for u128 {
    type Erased = u128;

    open spec fn erased(self) -> u128 {
        self
    }

    open spec fn restored(e: u128) -> u128 {
        e
    }

    proof fn lemma_erase_restore(self, e: u128) {
    }

    fn erase(self) -> (r: u128) {
        self
    }

    fn restore(e: u128) -> (r: u128) {
        e
    }
}

impl Erasable for usize {
    type Erased = usize;

    open spec fn erased(self) -> usize {
        self
    }

    open spec fn restored(e: usize) -> usize {
        e
    }

    proof fn lemma_erase_restore(self, e: usize) {
    }

    fn erase(self) -> (r: usize) {
        self
    }

    fn restore(e: usize) -> (r: usize) {
        e
    }
}

impl Erasable for i8 {
    type Erased = i8;

    open spec fn erased(self) -> i8 {
        self
    }

    open spec fn restored(e: i8) -> i8 {
        e
    }

    proof fn lemma_erase_restore(self, e: i8) {
    }

    fn erase(self) -> (r: i8) {
        self
    }

    fn restore(e: i8) -> (r: i8) {
        e
    }
}

impl Erasable for i16 {
    type Erased = i16;

    open spec fn erased(self) -> i16 {
        self
    }

    open spec fn restored(e: i16) -> i16 {
        e
    }

    proof fn lemma_erase_restore(self, e: i16) {
    }

    fn erase(self) -> (r: i16) {
        self
    }

    fn restore(e: i16) -> (r: i16) {
        e
    }
}

impl Erasable for i32 {
    type Erased = i32;

    open spec fn erased(self) -> i32 {
        self
    }

    open spec fn restored(e: i32) -> i32 {
        e
    }

    proof fn lemma_erase_restore(self, e: i32) {
    }

    fn erase(self) -> (r: i32) {
        self
    }

    fn restore(e: i32) -> (r: i32) {
        e
    }
}

impl Erasable for i64 {
    type Erased = i64;

    open spec fn erased(self) -> i64 {
        self
    }

    open spec fn restored(e: i64) -> i64 {
        e
    }

    proof fn lemma_erase_restore(self, e: i64) {
    }

    fn erase(self) -> (r: i64) {
        self
    }

    fn restore(e: i64) -> (r: i64) {
        e
    }
}

impl Erasable for i128 {
    type Erased = i128;

    open spec fn erased(self) -> i128 {
        self
    }

    open spec fn restored(e: i128) -> i128 {
        e
    }

    proof fn lemma_erase_restore(self, e: i128) {
    }

    fn erase(self) -> (r: i128) {
        self
    }

    fn restore(e: i128) -> (r: i128) {
        e
    }
}

impl Erasable for isize {
    type Erased = isize;

    open spec fn erased(self) -> isize {
        self
    }

    open spec fn restored(e: isize) -> isize {
        e
    }

    proof fn lemma_erase_restore(self, e: isize) {
    }

    fn erase(self) -> (r: isize) {
        self
    }

    fn restore(e: isize) -> (r: isize) {
        e
    }
}

impl Erasable for String {
    type Erased = String;

    open spec fn erased(self) -> String {
        self
    }

    open spec fn restored(e: String) -> String {
        e
    }

    proof fn lemma_erase_restore(self, e: String) {
    }

    fn erase(self) -> (r: String) {
        self
    }

    fn restore(e: String) -> (r: String) {
        e
    }
}

impl<A: Erasable> Erasable for Option<A> {
    type Erased = Option<A::Erased>;

    open spec fn erased(self) -> Option<A::Erased> {
        match self {
            Some(a) => Some(a.erased()),
            None => None,
        }
    }

    open spec fn restored(e: Option<A::Erased>) -> Option<A> {
        match e {
            Some(a) => Some(A::restored(a)),
            None => None,
        }
    }

    proof fn lemma_erase_restore(self, e: Option<A::Erased>) {
        if let Some(a) = self {
            a.lemma_erase_restore(a.erased());
        }
        if let Some(x) = e {
            A::restored(x).lemma_erase_restore(x);
        }
    }

    fn erase(self) -> (r: Option<A::Erased>) {
        match self {
            Some(a) => Some(a.erase()),
            None => None,
        }
    }

    fn restore(e: Option<A::Erased>) -> (r: Option<A>) {
        match e {
            Some(a) => Some(A::restore(a)),
            None => None,
        }
    }
}

impl<A: Erasable, B: Erasable> Erasable for (A, B) {
    type Erased = (A::Erased, B::Erased);

    open spec fn erased(self) -> (A::Erased, B::Erased) {
        (self.0.erased(), self.1.erased())
    }

    open spec fn restored(e: (A::Erased, B::Erased)) -> (A, B) {
        (A::restored(e.0), B::restored(e.1))
    }

    proof fn lemma_erase_restore(self, e: (A::Erased, B::Erased)) {
        self.0.lemma_erase_restore(e.0);
        self.1.lemma_erase_restore(e.1);
        A::restored(e.0).lemma_erase_restore(e.0);
        B::restored(e.1).lemma_erase_restore(e.1);
    }

    fn erase(self) -> (r: (A::Erased, B::Erased)) {
        let (a, b) = self;
        (a.erase(), b.erase())
    }

    fn restore(e: (A::Erased, B::Erased)) -> (r: (A, B)) {
        let (a, b) = e;
        (A::restore(a), B::restore(b))
    }
}

impl<A: Erasable> Erasable for Box<A> {
    type Erased = Box<A::Erased>;

    open spec fn erased(self) -> Box<A::Erased> {
        Box::new((*self).erased())
    }

    open spec fn restored(e: Box<A::Erased>) -> Box<A> {
        Box::new(A::restored(*e))
    }

    proof fn lemma_erase_restore(self, e: Box<A::Erased>) {
        (*self).lemma_erase_restore((*self).erased());
        A::restored(*e).lemma_erase_restore(*e);
    }

    fn erase(self) -> (r: Box<A::Erased>) {
        Box::new((*self).erase())
    }

    fn restore(e: Box<A::Erased>) -> (r: Box<A>) {
        Box::new(A::restore(*e))
    }
}

impl<A: Erasable, B: Erasable> Erasable for Result<A, B> {
    type Erased = Result<A::Erased, B::Erased>;

    open spec fn erased(self) -> Result<A::Erased, B::Erased> {
        match self {
            Ok(a) => Ok(a.erased()),
            Err(b) => Err(b.erased()),
        }
    }

    open spec fn restored(e: Result<A::Erased, B::Erased>) -> Result<A, B> {
        match e {
            Ok(a) => Ok(A::restored(a)),
            Err(b) => Err(B::restored(b)),
        }
    }

    proof fn lemma_erase_restore(self, e: Result<A::Erased, B::Erased>) {
        match self {
            Ok(a) => a.lemma_erase_restore(a.erased()),
            Err(b) => b.lemma_erase_restore(b.erased()),
        }
        match e {
            Ok(x) => A::restored(x).lemma_erase_restore(x),
            Err(y) => B::restored(y).lemma_erase_restore(y),
        }
    }

    fn erase(self) -> (r: Result<A::Erased, B::Erased>) {
        match self {
            Ok(a) => Ok(a.erase()),
            Err(b) => Err(b.erase()),
        }
    }

    fn restore(e: Result<A::Erased, B::Erased>) -> (r: Result<A, B>) {
        match e {
            Ok(a) => Ok(A::restore(a)),
            Err(b) => Err(B::restore(b)),
        }
    }
}

impl<A: Erasable, B: Erasable, C: Erasable> Erasable for (A, B, C) {
    type Erased = (A::Erased, B::Erased, C::Erased);

    open spec fn erased(self) -> (A::Erased, B::Erased, C::Erased) {
        (self.0.erased(), self.1.erased(), self.2.erased())
    }

    open spec fn restored(e: (A::Erased, B::Erased, C::Erased)) -> (A, B, C) {
        (A::restored(e.0), B::restored(e.1), C::restored(e.2))
    }

    proof fn lemma_erase_restore(self, e: (A::Erased, B::Erased, C::Erased)) {
        self.0.lemma_erase_restore(e.0);
        self.1.lemma_erase_restore(e.1);
        self.2.lemma_erase_restore(e.2);
        A::restored(e.0).lemma_erase_restore(e.0);
        B::restored(e.1).lemma_erase_restore(e.1);
        C::restored(e.2).lemma_erase_restore(e.2);
    }

    fn erase(self) -> (r: (A::Erased, B::Erased, C::Erased)) {
        let (a, b, c) = self;
        (a.erase(), b.erase(), c.erase())
    }

    fn restore(e: (A::Erased, B::Erased, C::Erased)) -> (r: (A, B, C)) {
        let (a, b, c) = e;
        (A::restore(a), B::restore(b), C::restore(c))
    }
}

} // verus!
