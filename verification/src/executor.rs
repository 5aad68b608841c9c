//! The parallel callback executor: fans one callback out over an ordered
//! input batch through a thread-pool map and reassembles the results in
//! input order, whatever order the worker threads finish in.

use crate::outcome::CallError;
use crate::outcome::resolve;
use crate::outcome::resolved;
use rayon::iter::IntoParallelRefIterator;
use rayon::iter::ParallelIterator;
use vstd::prelude::*;

verus! {

/// The outcomes a callback can produce, as a relation from input to outcome:
/// `outcome_rel(f)(x, o)` says that a call of `f` on `x` may end in `o`.
pub open spec fn outcome_rel<F: Fn(i32) -> Result<i32, CallError>>(f: F) -> spec_fn(
    i32,
    Result<i32, CallError>,
) -> bool {
    |x: i32, outcome: Result<i32, CallError>| call_ensures(f, (x,), outcome)
}

/// One output element is accounted for: it resolves some outcome that the
/// callback, described by the relation `post`, can produce for its input.
pub open spec fn element_ok(
    post: spec_fn(i32, Result<i32, CallError>) -> bool,
    x: i32,
    y: i32,
) -> bool {
    exists|outcome: Result<i32, CallError>| #[trigger] post(x, outcome) && y == resolved(outcome)
}

/// What one batch run guarantees, over a relation `post` describing the
/// callback's possible outcomes: the outputs match the inputs index by
/// index, each output resolving an outcome of the input at the same spot.
pub open spec fn models_batch(
    post: spec_fn(i32, Result<i32, CallError>) -> bool,
    inputs: Seq<i32>,
    outputs: Seq<i32>,
) -> bool {
    &&& outputs.len() == inputs.len()
    &&& forall|i: int|
        0 <= i < inputs.len() ==> element_ok(post, inputs[i], #[trigger] outputs[i])
}

/// Runs `callback` on every element of `inputs` across the thread pool and
/// collects the per-element outcomes in input order.
///
/// Relies on rayon's `par_iter().map(..).collect::<Vec<_>>()`: the parallel
/// map applies the function to each element exactly once, and collecting an
/// indexed parallel iterator into a `Vec` places each result at the index of
/// the element it came from, whatever order the worker threads finish in.
#[verifier::external_body]
fn par_map_outcomes<F: Fn(i32) -> Result<i32, CallError> + Sync>(
    callback: &F,
    inputs: &Vec<i32>,
) -> (outcomes: Vec<Result<i32, CallError>>)
    requires
        forall|x: i32| #[trigger] call_requires(*callback, (x,)),
    ensures
        outcomes@.len() == inputs@.len(),
        forall|i: int|
            0 <= i < inputs@.len() ==> call_ensures(
                *callback,
                (inputs@[i],),
                #[trigger] outcomes@[i],
            ),
{
    inputs.par_iter().map(|&x| callback(x)).collect()
}

/// Runs `callback` once per input, concurrently across the thread pool, and
/// returns the results in input order: `outputs[i]` resolves an outcome of
/// `callback` on `inputs[i]`, the returned value where the invocation
/// succeeded and the fallback `0` where it failed. An empty batch returns
/// empty without entering the parallel region.
pub fn execute<F: Fn(i32) -> Result<i32, CallError> + Sync>(
    callback: F,
    inputs: &Vec<i32>,
) -> (outputs: Vec<i32>)
    requires
        forall|x: i32| #[trigger] call_requires(callback, (x,)),
    ensures
        outputs@.len() == inputs@.len(),
        models_batch(outcome_rel(callback), inputs@, outputs@),
{
    if inputs.len() == 0 {
        return Vec::new();
    }
    let outcomes = par_map_outcomes(&callback, inputs);
    let mut outputs: Vec<i32> = Vec::new();
    let mut j: usize = 0;
    while j < outcomes.len()
        invariant
            outcomes@.len() == inputs@.len(),
            forall|i: int|
                0 <= i < inputs@.len() ==> call_ensures(
                    callback,
                    (inputs@[i],),
                    #[trigger] outcomes@[i],
                ),
            j <= outcomes@.len(),
            outputs@.len() == j,
            forall|i: int|
                0 <= i < j ==> element_ok(outcome_rel(callback), inputs@[i], #[trigger] outputs@[i]),
        decreases outcomes@.len() - j,
    {
        let y = resolve(&outcomes[j]);
        proof {
            let o = outcomes@[j as int];
            assert(outcome_rel(callback)(inputs@[j as int], o));
            assert(element_ok(outcome_rel(callback), inputs@[j as int], resolved(o)));
        }
        outputs.push(y);
        j += 1;
    }
    outputs
}

} // verus!
