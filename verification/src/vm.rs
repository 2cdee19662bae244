use vstd::prelude::*;
use crate::raw::RawReference;
use crate::scope::Scope;

verus! {

/// The marker of a failure that the host will see as an exception. It carries
/// nothing: the thrown value waits in the host.
#[derive(Clone, Copy, PartialEq, Eq, Structural, Debug)]
pub struct Throw;

pub type VmResult<T> = Result<T, Throw>;

/// The exception that waits after `raw` is thrown with `pending` waiting
/// before: the one that waited first.
pub open spec fn after_throw(pending: Option<RawReference>, raw: RawReference) -> Option<
    RawReference,
> {
    if pending is Some {
        pending
    } else {
        Some(raw)
    }
}

/// The exception that waits after the values of `thrown` were thrown in order.
pub open spec fn after_throws(pending: Option<RawReference>, thrown: Seq<RawReference>) -> Option<
    RawReference,
>
    decreases thrown.len(),
{
    if thrown.len() == 0 {
        pending
    } else {
        after_throw(after_throws(pending, thrown.drop_last()), thrown.last())
    }
}

/// The result that the call `depth` levels above the innermost one returns,
/// when the innermost call returned `inner` and every call above it passes a
/// failure on and goes on with `next` after a success.
pub open spec fn seen_at<T>(inner: VmResult<T>, next: spec_fn(T) -> VmResult<T>, depth: nat)
    -> VmResult<T>
    decreases depth,
{
    if depth == 0 {
        inner
    } else {
        match seen_at(inner, next, (depth - 1) as nat) {
            Ok(value) => next(value),
            Err(marker) => Err(marker),
        }
    }
}

/// Once a call has thrown, every call that encloses it returns the failure
/// marker, whatever it would have done after a success.
pub proof fn lemma_failure_reaches_every_caller<T>(
    inner: VmResult<T>,
    next: spec_fn(T) -> VmResult<T>,
    depth: nat,
)
    requires
        inner is Err,
    ensures
        seen_at(inner, next, depth) == Err::<T, Throw>(Throw),
    decreases depth,
{
    if depth > 0 {
        lemma_failure_reaches_every_caller(inner, next, (depth - 1) as nat);
    } else {
        let marker = inner->Err_0;
        assert(marker == Throw);
        assert(inner == Err::<T, Throw>(marker));
    }
}

/// While an exception waits, throwing again changes nothing: the first one
/// stays until the host takes it.
pub proof fn lemma_first_exception_stays(pending: Option<RawReference>, thrown: Seq<RawReference>)
    requires
        pending is Some,
    ensures
        after_throws(pending, thrown) == pending,
    decreases thrown.len(),
{
    if thrown.len() > 0 {
        lemma_first_exception_stays(pending, thrown.drop_last());
    }
}

/// One link of a call chain: hands the value of `inner` to `next`, or passes
/// the failure marker on without running `next` and without touching the host.
pub fn chain<T, U, F: FnOnce(&mut Scope, T) -> VmResult<U>>(
    scope: &mut Scope,
    inner: VmResult<T>,
    next: F,
) -> (outer: VmResult<U>)
    requires
        forall|s: &mut Scope, v: T|
            *s == *old(scope) && inner == Ok::<T, Throw>(v) ==> next.requires((s, v)),
    ensures
        inner is Err ==> outer == Err::<U, Throw>(Throw) && *final(scope) == *old(scope),
        inner is Ok ==> exists|s: &mut Scope|
            {
                &&& *s == *old(scope)
                &&& next.ensures((s, inner->Ok_0), outer)
                &&& *final(scope) == *final(s)
            },
{
    match inner {
        Ok(v) => next(scope, v),
        Err(_) => Err(Throw),
    }
}

} // verus!
