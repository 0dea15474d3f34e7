//! Calls of function values whose contracts name the function that was called.
//!
//! A direct call of a function leaves behind what the function's own contract says. A call through
//! one of these helpers also leaves behind that the result is one that *this* function gives for
//! *these* arguments (`call_ensures`), so that a caller's contract can say where its result came
//! from even where nothing else can be promised of it.

use vstd::prelude::*;

verus! {

/// Calls `f` with no argument.
pub(crate) fn call0<R, F: FnOnce() -> R>(f: F) -> (r: R)
    requires
        call_requires(f, ()),
    ensures
        call_ensures(f, (), r),
{
    f()
}

/// Calls `f` with one argument.
pub(crate) fn call1<A, R, F: FnOnce(A) -> R>(f: F, a: A) -> (r: R)
    requires
        call_requires(f, (a,)),
    ensures
        call_ensures(f, (a,), r),
{
    f(a)
}

/// Calls `f` with two arguments.
pub(crate) fn call2<A, B, R, F: FnOnce(A, B) -> R>(f: F, a: A, b: B) -> (r: R)
    requires
        call_requires(f, (a, b)),
    ensures
        call_ensures(f, (a, b), r),
{
    f(a, b)
}

/// Calls `f` with three arguments.
pub(crate) fn call3<A, B, C, R, F: FnOnce(A, B, C) -> R>(f: F, a: A, b: B, c: C) -> (r: R)
    requires
        call_requires(f, (a, b, c)),
    ensures
        call_ensures(f, (a, b, c), r),
{
    f(a, b, c)
}

/// Calls `f` with four arguments.
pub(crate) fn call4<A, B, C, D, R, F: FnOnce(A, B, C, D) -> R>(f: F, a: A, b: B, c: C, d: D) -> (r: R)
    requires
        call_requires(f, (a, b, c, d)),
    ensures
        call_ensures(f, (a, b, c, d), r),
{
    f(a, b, c, d)
}

/// Calls `f` with five arguments.
pub(crate) fn call5<A, B, C, D, E, R, F: FnOnce(A, B, C, D, E) -> R>(
    f: F,
    a: A,
    b: B,
    c: C,
    d: D,
    e: E,
) -> (r: R)
    requires
        call_requires(f, (a, b, c, d, e)),
    ensures
        call_ensures(f, (a, b, c, d, e), r),
{
    f(a, b, c, d, e)
}

} // verus!
