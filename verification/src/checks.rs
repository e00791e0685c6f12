//! Validated invocation: every argument is checked by its own validator, in
//! order and stopping at the first rejection, before a computation runs on the
//! validated values.
//!
//! Validators and the computation are executable functions, so the contracts
//! below speak of them through `call_requires` and `call_ensures`: what must
//! hold for a call to be allowed, and which results a call can give.

use vstd::prelude::*;
use crate::error::Error;

verus! {

/// A validator held as a plain function pointer, so that validators made from
/// different functions fit into one vector. It hands the value back, possibly
/// transformed, or says why it rejects it.
///
/// Function pointers carry no contract: callers that prove something about an
/// invocation pass function items or closures of one type instead.
pub type Validator<T> = fn(T) -> Result<T, Error>;

/// The reason that [`with_checks`] gives when it is handed more or fewer
/// validators than arguments.
pub const LENGTH_MISMATCH: &'static str = "args and validators length mismatch";

/// `out` can come out of validating the first `out.len()` arguments in order,
/// each one accepted by the validator at its own position.
pub open spec fn accepted<T, V: Fn(T) -> Result<T, Error>>(
    args: Seq<T>,
    validators: Seq<V>,
    out: Seq<T>,
) -> bool {
    &&& out.len() <= args.len()
    &&& out.len() <= validators.len()
    &&& forall|i: int|
        #![trigger out[i]]
        #![trigger args[i]]
        0 <= i < out.len() ==> call_ensures(validators[i], (args[i],), Ok::<T, Error>(out[i]))
}

/// The calls that a validated invocation can make are allowed: a validator
/// accepts its argument as input once everything before it has been accepted,
/// and the computation accepts every vector of validated values. Nothing is
/// asked of a validator behind a position that always rejects, nor of the
/// computation where some position always rejects, nor of either where the
/// lengths differ: those calls are never made.
pub open spec fn callable<T, V: Fn(T) -> Result<T, Error>, R, F: Fn(Vec<T>) -> R>(
    args: Seq<T>,
    validators: Seq<V>,
    f: F,
) -> bool {
    args.len() == validators.len() ==> {
        &&& forall|out: Seq<T>| #[trigger]
            accepted(args, validators, out) && out.len() < args.len() ==> call_requires(
                validators[out.len() as int],
                (args[out.len() as int],),
            )
        &&& forall|v: Vec<T>| #[trigger]
            accepted(args, validators, v@) && v.len() == args.len() ==> call_requires(f, (v,))
    }
}

/// `result` is a possible result of the validated invocation of `f` on `args`.
///
/// - With a different number of arguments and validators it is the error
///   whose reason is [`LENGTH_MISMATCH`].
/// - Otherwise, if it is `Ok(r)`, every argument was accepted and `r` is what
///   `f` returned for the validated values, in the order of the arguments.
/// - Otherwise it is the error, unchanged, of a validator that rejected its
///   argument after all arguments before it had been accepted.
pub open spec fn checked<T, V: Fn(T) -> Result<T, Error>, R, F: Fn(Vec<T>) -> R>(
    args: Seq<T>,
    validators: Seq<V>,
    f: F,
    result: Result<R, Error>,
) -> bool {
    if args.len() != validators.len() {
        result == Err::<R, Error>(Error::Invalid(LENGTH_MISMATCH))
    } else {
        match result {
            Ok(r) => exists|v: Vec<T>| #[trigger]
                accepted(args, validators, v@) && v.len() == args.len() && call_ensures(f, (v,), r),
            Err(e) => exists|out: Seq<T>| #[trigger]
                accepted(args, validators, out) && out.len() < args.len() && call_ensures(
                    validators[out.len() as int],
                    (args[out.len() as int],),
                    Err::<T, Error>(e),
                ),
        }
    }
}

/// Each validator is a function of its argument here: on `args[i]` the
/// validator at `i` can return `outcomes[i]` and nothing else.
pub open spec fn determined<T, V: Fn(T) -> Result<T, Error>>(
    args: Seq<T>,
    validators: Seq<V>,
    outcomes: Seq<Result<T, Error>>,
) -> bool {
    &&& args.len() == validators.len()
    &&& args.len() == outcomes.len()
    &&& forall|i: int, o: Result<T, Error>|
        0 <= i < args.len() && #[trigger] call_ensures(validators[i], (args[i],), o) ==> o
            == outcomes[i]
}

/// The values that a sequence of outcomes carries where all of them are `Ok`.
pub open spec fn values<T>(outcomes: Seq<Result<T, Error>>) -> Seq<T> {
    Seq::new(outcomes.len(), |i: int| outcomes[i]->Ok_0)
}

/// Validates each argument with the validator at the same position, then runs
/// `f` on the validated values.
///
/// With a different number of arguments and validators nothing is called and
/// the error says so. Otherwise the validators run in order; the first
/// rejection ends the invocation and its error is returned as it is. When
/// every argument has been accepted, `f` receives the values that the
/// validators handed back, in the order of the arguments, and its result is
/// returned as `Ok`.
pub fn with_checks<T, V: Fn(T) -> Result<T, Error>, R, F: Fn(Vec<T>) -> R>(
    args: Vec<T>,
    validators: Vec<V>,
    f: F,
) -> (result: Result<R, Error>)
    requires
        callable(args@, validators@, f),
    ensures
        checked(args@, validators@, f, result),
{
    if args.len() != validators.len() {
        return Err(Error::Invalid(LENGTH_MISMATCH));
    }
    let ghost given = args@;
    let mut validated: Vec<T> = Vec::with_capacity(args.len());
    let mut i: usize = 0;
    for arg in it: args.into_iter()
        invariant
            it.seq() == given,
            given.len() == validators.len(),
            i == it.index(),
            validated.len() == i,
            accepted(given, validators@, validated@),
            callable(given, validators@, f),
    {
        match (validators[i])(arg) {
            Ok(value) => {
                validated.push(value);
            },
            Err(e) => {
                return Err(e);
            },
        }
        i = i + 1;
    }
    Ok(f(validated))
}

/// Fail-fast law. Where each validator is a function of its argument and `k`
/// is the first position whose validator rejects, a validated invocation
/// returns the error of that validator, unchanged, whatever the validators
/// behind `k` would have said.
pub proof fn lemma_first_rejection_is_returned<
    T,
    V: Fn(T) -> Result<T, Error>,
    R,
    F: Fn(Vec<T>) -> R,
>(
    args: Seq<T>,
    validators: Seq<V>,
    f: F,
    outcomes: Seq<Result<T, Error>>,
    k: int,
    result: Result<R, Error>,
)
    requires
        checked(args, validators, f, result),
        determined(args, validators, outcomes),
        0 <= k < outcomes.len(),
        outcomes[k] is Err,
        forall|j: int| 0 <= j < k ==> (#[trigger] outcomes[j]) is Ok,
    ensures
        result == Err::<R, Error>(outcomes[k]->Err_0),
{
    match result {
        Ok(r) => {
            let v = choose|v: Vec<T>| #[trigger]
                accepted(args, validators, v@) && v.len() == args.len() && call_ensures(f, (v,), r);
            assert(call_ensures(validators[k], (args[k],), Ok::<T, Error>(v@[k])));
        },
        Err(e) => {
            let out = choose|out: Seq<T>| #[trigger]
                accepted(args, validators, out) && out.len() < args.len() && call_ensures(
                    validators[out.len() as int],
                    (args[out.len() as int],),
                    Err::<T, Error>(e),
                );
            let m = out.len() as int;
            assert(outcomes[m] == Err::<T, Error>(e));
            if k < m {
                assert(call_ensures(validators[k], (args[k],), Ok::<T, Error>(out[k])));
            }
        },
    }
}

/// Success law. Where each validator is a function of its argument and every
/// one of them accepts, a validated invocation succeeds, and with what `f`
/// returns for the validated values in the order of the arguments.
pub proof fn lemma_all_accepted_is_computed<
    T,
    V: Fn(T) -> Result<T, Error>,
    R,
    F: Fn(Vec<T>) -> R,
>(
    args: Seq<T>,
    validators: Seq<V>,
    f: F,
    outcomes: Seq<Result<T, Error>>,
    result: Result<R, Error>,
)
    requires
        checked(args, validators, f, result),
        determined(args, validators, outcomes),
        forall|j: int| 0 <= j < outcomes.len() ==> (#[trigger] outcomes[j]) is Ok,
    ensures
        result is Ok,
        exists|v: Vec<T>| v@ == values(outcomes) && #[trigger] call_ensures(f, (v,), result->Ok_0),
{
    match result {
        Ok(r) => {
            let v = choose|v: Vec<T>| #[trigger]
                accepted(args, validators, v@) && v.len() == args.len() && call_ensures(f, (v,), r);
            assert forall|i: int| 0 <= i < v@.len() implies v@[i] == values(outcomes)[i] by {
                assert(call_ensures(validators[i], (args[i],), Ok::<T, Error>(v@[i])));
            }
            assert(v@ =~= values(outcomes));
        },
        Err(e) => {
            let out = choose|out: Seq<T>| #[trigger]
                accepted(args, validators, out) && out.len() < args.len() && call_ensures(
                    validators[out.len() as int],
                    (args[out.len() as int],),
                    Err::<T, Error>(e),
                );
            assert(outcomes[out.len() as int] == Err::<T, Error>(e));
        },
    }
}

} // verus!
