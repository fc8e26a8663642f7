//! Small fluent helpers for everyday value shuffling: wrapping a value into
//! `Option` or `Result`, turning a `bool` into an `Option`, tapping a value
//! with an observer while passing it through unchanged, chaining a
//! transformation, swapping the branches of a `Result`, replicating a value
//! into a small tuple, and calling a function on a tuple of arguments.

use vstd::prelude::*;

verus! {

/// Wraps any value into the present variant of `Option`.
pub trait OptionOps {
    /// Returns `Some(self)`: always present, holding exactly this value.
    fn some(self) -> (r: Option<Self>) where Self: Sized
        ensures
            r == Some(self),
    ;
}

impl<T> OptionOps for T {
    fn some(self) -> (r: Option<T>) {
        Some(self)
    }
}

/// Returns the absent variant of `Option` for the chosen element type.
pub fn none<T>() -> (r: Option<T>)
    ensures
        r == None::<T>,
{
    None
}

/// Wraps any value into either branch of `Result`. The other branch's type
/// defaults to the unit type for call sites that only name one side.
pub trait ResultOps<T = ()> {
    /// Returns `Ok(self)`: always the success variant, holding exactly this value.
    fn ok(self) -> (r: Result<Self, T>) where Self: Sized
        ensures
            r == Ok::<Self, T>(self),
    ;

    /// Returns `Err(self)`: always the failure variant, holding exactly this value.
    fn err(self) -> (r: Result<T, Self>) where Self: Sized
        ensures
            r == Err::<T, Self>(self),
    ;
}

impl<T> ResultOps for T {
    fn ok(self) -> (r: Result<T, ()>) {
        Ok(self)
    }

    fn err(self) -> (r: Result<(), T>) {
        Err(self)
    }
}

/// Turns a `bool` into an `Option`: the value when true, absent when false.
pub trait BoolOps {
    /// Returns `Some(x)` when `self` is true and `None` when it is false.
    fn option<T>(self, x: T) -> Option<T>;
}

impl BoolOps for bool {
    fn option<T>(self, x: T) -> (r: Option<T>)
        ensures
            r == (if self { Some(x) } else { None::<T> }),
    {
        if self {
            Some(x)
        } else {
            None
        }
    }
}

/// Passes a value through an observer or a transformation in fluent style.
pub trait TapOps {
    /// Calls the observer once on a read-only view of `self` for its side
    /// effect, discards what it returns, and hands `self` back unchanged.
    fn tap<R, F: Fn(&Self) -> R>(self, f: F) -> (r: Self) where Self: Sized
        requires
            call_requires(f, (&self,)),
        ensures
            r == self,
            exists|y: R| call_ensures(f, (&self,), y),
    ;

    /// Applies the transformation to `self` and returns its result directly:
    /// plain function application in left-to-right chaining style.
    fn chain<R, F: FnOnce(Self) -> R>(self, f: F) -> (r: R) where Self: Sized
        requires
            call_requires(f, (self,)),
        ensures
            call_ensures(f, (self,), r),
    ;
}

impl<T> TapOps for T {
    fn tap<R, F: Fn(&T) -> R>(self, f: F) -> (r: T) {
        let _observed = f(&self);
        self
    }

    fn chain<R, F: FnOnce(T) -> R>(self, f: F) -> (r: R) {
        f(self)
    }
}

/// The value of a `Result` with its two branches exchanged.
pub open spec fn spec_swap<T, E>(r: Result<T, E>) -> Result<E, T> {
    match r {
        Ok(v) => Err(v),
        Err(e) => Ok(e),
    }
}

/// Exchanges the two branches of a `Result`: success becomes failure and
/// failure becomes success, each keeping its value.
pub trait ResultExt<T, E>: Sized {
    /// Returns `Err(v)` for `Ok(v)` and `Ok(e)` for `Err(e)`.
    fn swap(self) -> Result<E, T>;
}

impl<T, E> ResultExt<T, E> for Result<T, E> {
    fn swap(self) -> (r: Result<E, T>)
        ensures
            r == spec_swap(self),
    {
        match self {
            Ok(v) => Err(v),
            Err(e) => Ok(e),
        }
    }
}

/// A value is duplicable when cloning it can only yield the value itself:
/// independent copies carry the same value as the original.
pub open spec fn duplicable<A: Clone>(a: A) -> bool {
    forall|b: A| cloned(a, b) ==> b == a
}

/// Replicates a value into a tuple of one, two or three elements.
pub trait TupleOps: Sized {
    /// Returns the one-element tuple holding exactly `self`.
    fn once(self) -> (r: (Self,))
        ensures
            r == (self,),
    ;

    /// Returns a pair whose second element is `self` and whose first is a
    /// clone of it.
    fn twice(self) -> (r: (Self, Self)) where Self: Clone
        ensures
            cloned(self, r.0),
            r.1 == self,
    ;

    /// Returns a triple whose last element is `self` and whose first two are
    /// clones of it.
    fn thrice(self) -> (r: (Self, Self, Self)) where Self: Clone
        ensures
            cloned(self, r.0),
            cloned(self, r.1),
            r.2 == self,
    ;
}

impl<T> TupleOps for T {
    fn once(self) -> (r: (T,)) {
        (self,)
    }

    fn twice(self) -> (r: (T, T)) where T: Clone {
        (self.clone(), self)
    }

    fn thrice(self) -> (r: (T, T, T)) where T: Clone {
        (self.clone(), self.clone(), self)
    }
}

/// Returns the one-element tuple holding exactly `a`.
pub fn once<A>(a: A) -> (r: (A,))
    ensures
        r == (a,),
{
    (a,)
}

/// Returns a pair whose second element is `a` and whose first is a clone of it.
pub fn twice<A: Clone>(a: A) -> (r: (A, A))
    ensures
        cloned(a, r.0),
        r.1 == a,
{
    (a.clone(), a)
}

/// Returns a triple whose last element is `a` and whose first two are clones
/// of it.
pub fn thrice<A: Clone>(a: A) -> (r: (A, A, A))
    ensures
        cloned(a, r.0),
        cloned(a, r.1),
        r.2 == a,
{
    (a.clone(), a.clone(), a)
}

/// A duplicable value clones only to itself, so a pair built by `twice` can
/// only be `(a, a)`.
pub proof fn lemma_twice_replicates<A: Clone>(a: A, r: (A, A))
    requires
        duplicable(a),
        cloned(a, r.0),
        r.1 == a,
    ensures
        r == (a, a),
{
}

/// A duplicable value clones only to itself, so a triple built by `thrice`
/// can only be `(a, a, a)`.
pub proof fn lemma_thrice_replicates<A: Clone>(a: A, r: (A, A, A))
    requires
        duplicable(a),
        cloned(a, r.0),
        cloned(a, r.1),
        r.2 == a,
    ensures
        r == (a, a, a),
{
}

/// Swapping a success gives the failure holding the same value, and swapping
/// that failure restores the original success.
pub proof fn lemma_swap_of_ok<T, E>(v: T)
    ensures
        spec_swap(Ok::<T, E>(v)) == Err::<E, T>(v),
        spec_swap(spec_swap(Ok::<T, E>(v))) == Ok::<T, E>(v),
{
}

/// Swapping the branches of a `Result` twice gives back the original value:
/// the exchange is an involution.
pub proof fn lemma_swap_involution<T, E>(r: Result<T, E>)
    ensures
        spec_swap(spec_swap(r)) == r,
{
}

/// Calls a function on the element of a one-element tuple.
pub trait Apply1Ops<A1>: Sized {
    /// The tuple of arguments that `apply` hands to the function.
    spec fn args(self) -> (A1,);

    /// Unpacks the tuple and calls `f` on its element, returning `f`'s result.
    fn apply<R, F: FnOnce(A1) -> R>(self, f: F) -> (r: R)
        requires
            call_requires(f, self.args()),
        ensures
            call_ensures(f, self.args(), r),
    ;
}

impl<A1> Apply1Ops<A1> for (A1,) {
    open spec fn args(self) -> (A1,) {
        self
    }

    fn apply<R, F: FnOnce(A1) -> R>(self, f: F) -> (r: R) {
        let (a1,) = self;
        f(a1)
    }
}

/// Calls a function on the elements of a pair, in left-to-right order.
pub trait Apply2Ops<A1, A2>: Sized {
    /// The tuple of arguments that `apply` hands to the function.
    spec fn args(self) -> (A1, A2);

    /// Unpacks the tuple and calls `f` on its elements, returning `f`'s result.
    fn apply<R, F: FnOnce(A1, A2) -> R>(self, f: F) -> (r: R)
        requires
            call_requires(f, self.args()),
        ensures
            call_ensures(f, self.args(), r),
    ;
}

impl<A1, A2> Apply2Ops<A1, A2> for (A1, A2) {
    open spec fn args(self) -> (A1, A2) {
        self
    }

    fn apply<R, F: FnOnce(A1, A2) -> R>(self, f: F) -> (r: R) {
        let (a1, a2) = self;
        f(a1, a2)
    }
}

/// Calls a function on the elements of a triple, in left-to-right order.
pub trait Apply3Ops<A1, A2, A3>: Sized {
    /// The tuple of arguments that `apply` hands to the function.
    spec fn args(self) -> (A1, A2, A3);

    /// Unpacks the tuple and calls `f` on its elements, returning `f`'s result.
    fn apply<R, F: FnOnce(A1, A2, A3) -> R>(self, f: F) -> (r: R)
        requires
            call_requires(f, self.args()),
        ensures
            call_ensures(f, self.args(), r),
    ;
}

impl<A1, A2, A3> Apply3Ops<A1, A2, A3> for (A1, A2, A3) {
    open spec fn args(self) -> (A1, A2, A3) {
        self
    }

    fn apply<R, F: FnOnce(A1, A2, A3) -> R>(self, f: F) -> (r: R) {
        let (a1, a2, a3) = self;
        f(a1, a2, a3)
    }
}

/// Calls a function on the elements of a four-element tuple, in left-to-right order.
pub trait Apply4Ops<A1, A2, A3, A4>: Sized {
    /// The tuple of arguments that `apply` hands to the function.
    spec fn args(self) -> (A1, A2, A3, A4);

    /// Unpacks the tuple and calls `f` on its elements, returning `f`'s result.
    fn apply<R, F: FnOnce(A1, A2, A3, A4) -> R>(self, f: F) -> (r: R)
        requires
            call_requires(f, self.args()),
        ensures
            call_ensures(f, self.args(), r),
    ;
}

impl<A1, A2, A3, A4> Apply4Ops<A1, A2, A3, A4> for (A1, A2, A3, A4) {
    open spec fn args(self) -> (A1, A2, A3, A4) {
        self
    }

    fn apply<R, F: FnOnce(A1, A2, A3, A4) -> R>(self, f: F) -> (r: R) {
        let (a1, a2, a3, a4) = self;
        f(a1, a2, a3, a4)
    }
}

/// Calls a function on the elements of a five-element tuple, in left-to-right order.
pub trait Apply5Ops<A1, A2, A3, A4, A5>: Sized {
    /// The tuple of arguments that `apply` hands to the function.
    spec fn args(self) -> (A1, A2, A3, A4, A5);

    /// Unpacks the tuple and calls `f` on its elements, returning `f`'s result.
    fn apply<R, F: FnOnce(A1, A2, A3, A4, A5) -> R>(self, f: F) -> (r: R)
        requires
            call_requires(f, self.args()),
        ensures
            call_ensures(f, self.args(), r),
    ;
}

impl<A1, A2, A3, A4, A5> Apply5Ops<A1, A2, A3, A4, A5> for (A1, A2, A3, A4, A5) {
    open spec fn args(self) -> (A1, A2, A3, A4, A5) {
        self
    }

    fn apply<R, F: FnOnce(A1, A2, A3, A4, A5) -> R>(self, f: F) -> (r: R) {
        let (a1, a2, a3, a4, a5) = self;
        f(a1, a2, a3, a4, a5)
    }
}

/// Calls a function on the elements of a six-element tuple, in left-to-right order.
pub trait Apply6Ops<A1, A2, A3, A4, A5, A6>: Sized {
    /// The tuple of arguments that `apply` hands to the function.
    spec fn args(self) -> (A1, A2, A3, A4, A5, A6);

    /// Unpacks the tuple and calls `f` on its elements, returning `f`'s result.
    fn apply<R, F: FnOnce(A1, A2, A3, A4, A5, A6) -> R>(self, f: F) -> (r: R)
        requires
            call_requires(f, self.args()),
        ensures
            call_ensures(f, self.args(), r),
    ;
}

impl<A1, A2, A3, A4, A5, A6> Apply6Ops<A1, A2, A3, A4, A5, A6> for (A1, A2, A3, A4, A5, A6) {
    open spec fn args(self) -> (A1, A2, A3, A4, A5, A6) {
        self
    }

    fn apply<R, F: FnOnce(A1, A2, A3, A4, A5, A6) -> R>(self, f: F) -> (r: R) {
        let (a1, a2, a3, a4, a5, a6) = self;
        f(a1, a2, a3, a4, a5, a6)
    }
}

/// Calls a function on the elements of a seven-element tuple, in left-to-right order.
pub trait Apply7Ops<A1, A2, A3, A4, A5, A6, A7>: Sized {
    /// The tuple of arguments that `apply` hands to the function.
    spec fn args(self) -> (A1, A2, A3, A4, A5, A6, A7);

    /// Unpacks the tuple and calls `f` on its elements, returning `f`'s result.
    fn apply<R, F: FnOnce(A1, A2, A3, A4, A5, A6, A7) -> R>(self, f: F) -> (r: R)
        requires
            call_requires(f, self.args()),
        ensures
            call_ensures(f, self.args(), r),
    ;
}

impl<A1, A2, A3, A4, A5, A6, A7> Apply7Ops<A1, A2, A3, A4, A5, A6, A7> for (A1, A2, A3, A4, A5, A6, A7) {
    open spec fn args(self) -> (A1, A2, A3, A4, A5, A6, A7) {
        self
    }

    fn apply<R, F: FnOnce(A1, A2, A3, A4, A5, A6, A7) -> R>(self, f: F) -> (r: R) {
        let (a1, a2, a3, a4, a5, a6, a7) = self;
        f(a1, a2, a3, a4, a5, a6, a7)
    }
}

/// Calls a function on the elements of a eight-element tuple, in left-to-right order.
pub trait Apply8Ops<A1, A2, A3, A4, A5, A6, A7, A8>: Sized {
    /// The tuple of arguments that `apply` hands to the function.
    spec fn args(self) -> (A1, A2, A3, A4, A5, A6, A7, A8);

    /// Unpacks the tuple and calls `f` on its elements, returning `f`'s result.
    fn apply<R, F: FnOnce(A1, A2, A3, A4, A5, A6, A7, A8) -> R>(self, f: F) -> (r: R)
        requires
            call_requires(f, self.args()),
        ensures
            call_ensures(f, self.args(), r),
    ;
}

impl<A1, A2, A3, A4, A5, A6, A7, A8> Apply8Ops<A1, A2, A3, A4, A5, A6, A7, A8> for (A1, A2, A3, A4, A5, A6, A7, A8) {
    open spec fn args(self) -> (A1, A2, A3, A4, A5, A6, A7, A8) {
        self
    }

    fn apply<R, F: FnOnce(A1, A2, A3, A4, A5, A6, A7, A8) -> R>(self, f: F) -> (r: R) {
        let (a1, a2, a3, a4, a5, a6, a7, a8) = self;
        f(a1, a2, a3, a4, a5, a6, a7, a8)
    }
}

/// Calls a function on the elements of a nine-element tuple, in left-to-right order.
pub trait Apply9Ops<A1, A2, A3, A4, A5, A6, A7, A8, A9>: Sized {
    /// The tuple of arguments that `apply` hands to the function.
    spec fn args(self) -> (A1, A2, A3, A4, A5, A6, A7, A8, A9);

    /// Unpacks the tuple and calls `f` on its elements, returning `f`'s result.
    fn apply<R, F: FnOnce(A1, A2, A3, A4, A5, A6, A7, A8, A9) -> R>(self, f: F) -> (r: R)
        requires
            call_requires(f, self.args()),
        ensures
            call_ensures(f, self.args(), r),
    ;
}

impl<A1, A2, A3, A4, A5, A6, A7, A8, A9> Apply9Ops<A1, A2, A3, A4, A5, A6, A7, A8, A9> for (A1, A2, A3, A4, A5, A6, A7, A8, A9) {
    open spec fn args(self) -> (A1, A2, A3, A4, A5, A6, A7, A8, A9) {
        self
    }

    fn apply<R, F: FnOnce(A1, A2, A3, A4, A5, A6, A7, A8, A9) -> R>(self, f: F) -> (r: R) {
        let (a1, a2, a3, a4, a5, a6, a7, a8, a9) = self;
        f(a1, a2, a3, a4, a5, a6, a7, a8, a9)
    }
}

/// Calls a function on the elements of a ten-element tuple, in left-to-right order.
pub trait Apply10Ops<A1, A2, A3, A4, A5, A6, A7, A8, A9, A10>: Sized {
    /// The tuple of arguments that `apply` hands to the function.
    spec fn args(self) -> (A1, A2, A3, A4, A5, A6, A7, A8, A9, A10);

    /// Unpacks the tuple and calls `f` on its elements, returning `f`'s result.
    fn apply<R, F: FnOnce(A1, A2, A3, A4, A5, A6, A7, A8, A9, A10) -> R>(self, f: F) -> (r: R)
        requires
            call_requires(f, self.args()),
        ensures
            call_ensures(f, self.args(), r),
    ;
}

impl<A1, A2, A3, A4, A5, A6, A7, A8, A9, A10> Apply10Ops<A1, A2, A3, A4, A5, A6, A7, A8, A9, A10> for (A1, A2, A3, A4, A5, A6, A7, A8, A9, A10) {
    open spec fn args(self) -> (A1, A2, A3, A4, A5, A6, A7, A8, A9, A10) {
        self
    }

    fn apply<R, F: FnOnce(A1, A2, A3, A4, A5, A6, A7, A8, A9, A10) -> R>(self, f: F) -> (r: R) {
        let (a1, a2, a3, a4, a5, a6, a7, a8, a9, a10) = self;
        f(a1, a2, a3, a4, a5, a6, a7, a8, a9, a10)
    }
}

/// Calls a function on the elements of a eleven-element tuple, in left-to-right order.
pub trait Apply11Ops<A1, A2, A3, A4, A5, A6, A7, A8, A9, A10, A11>: Sized {
    /// The tuple of arguments that `apply` hands to the function.
    spec fn args(self) -> (A1, A2, A3, A4, A5, A6, A7, A8, A9, A10, A11);

    /// Unpacks the tuple and calls `f` on its elements, returning `f`'s result.
    fn apply<R, F: FnOnce(A1, A2, A3, A4, A5, A6, A7, A8, A9, A10, A11) -> R>(self, f: F) -> (r: R)
        requires
            call_requires(f, self.args()),
        ensures
            call_ensures(f, self.args(), r),
    ;
}

impl<A1, A2, A3, A4, A5, A6, A7, A8, A9, A10, A11> Apply11Ops<A1, A2, A3, A4, A5, A6, A7, A8, A9, A10, A11> for (A1, A2, A3, A4, A5, A6, A7, A8, A9, A10, A11) {
    open spec fn args(self) -> (A1, A2, A3, A4, A5, A6, A7, A8, A9, A10, A11) {
        self
    }

    fn apply<R, F: FnOnce(A1, A2, A3, A4, A5, A6, A7, A8, A9, A10, A11) -> R>(self, f: F) -> (r: R) {
        let (a1, a2, a3, a4, a5, a6, a7, a8, a9, a10, a11) = self;
        f(a1, a2, a3, a4, a5, a6, a7, a8, a9, a10, a11)
    }
}

/// Calls a function on the elements of a twelve-element tuple, in left-to-right order.
pub trait Apply12Ops<A1, A2, A3, A4, A5, A6, A7, A8, A9, A10, A11, A12>: Sized {
    /// The tuple of arguments that `apply` hands to the function.
    spec fn args(self) -> (A1, A2, A3, A4, A5, A6, A7, A8, A9, A10, A11, A12);

    /// Unpacks the tuple and calls `f` on its elements, returning `f`'s result.
    fn apply<R, F: FnOnce(A1, A2, A3, A4, A5, A6, A7, A8, A9, A10, A11, A12) -> R>(self, f: F) -> (r: R)
        requires
            call_requires(f, self.args()),
        ensures
            call_ensures(f, self.args(), r),
    ;
}

impl<A1, A2, A3, A4, A5, A6, A7, A8, A9, A10, A11, A12> Apply12Ops<A1, A2, A3, A4, A5, A6, A7, A8, A9, A10, A11, A12> for (A1, A2, A3, A4, A5, A6, A7, A8, A9, A10, A11, A12) {
    open spec fn args(self) -> (A1, A2, A3, A4, A5, A6, A7, A8, A9, A10, A11, A12) {
        self
    }

    fn apply<R, F: FnOnce(A1, A2, A3, A4, A5, A6, A7, A8, A9, A10, A11, A12) -> R>(self, f: F) -> (r: R) {
        let (a1, a2, a3, a4, a5, a6, a7, a8, a9, a10, a11, a12) = self;
        f(a1, a2, a3, a4, a5, a6, a7, a8, a9, a10, a11, a12)
    }
}

} // verus!
