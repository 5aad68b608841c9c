//! Batch-level laws of the executor, stated over the batch model and proved
//! once for every callback and every input sequence: order preservation,
//! fault isolation, and idempotence.

use crate::executor::models_batch;
use crate::outcome::CallError;
use crate::outcome::resolved;
use vstd::prelude::*;

verus! {

/// Order preservation: against a callback that succeeds on every input —
/// every outcome it can produce for `x` is success with value `g(x)` — a
/// batch maps each input to exactly its computed value, in input order.
pub proof fn lemma_order_preservation(
    post: spec_fn(i32, Result<i32, CallError>) -> bool,
    g: spec_fn(i32) -> i32,
    inputs: Seq<i32>,
    outputs: Seq<i32>,
)
    requires
        models_batch(post, inputs, outputs),
        forall|x: i32, o: Result<i32, CallError>| #[trigger]
            post(x, o) ==> o == Ok::<i32, CallError>(g(x)),
    ensures
        outputs.len() == inputs.len(),
        forall|i: int| 0 <= i < inputs.len() ==> outputs[i] == g(#[trigger] inputs[i]),
{
    assert forall|i: int| 0 <= i < inputs.len() implies outputs[i] == g(inputs[i]) by {
        let o = choose|o: Result<i32, CallError>| #[trigger]
            post(inputs[i], o) && outputs[i] == resolved(o);
        assert(o == Ok::<i32, CallError>(g(inputs[i])));
    }
}

/// Fault isolation: where the callback fails — for every input in `failing`
/// each outcome it can produce is an error — the batch result is the
/// fallback `0`, and at every other index it is the computed value; one
/// failing element never disturbs the rest of the batch.
pub proof fn lemma_fault_isolation(
    post: spec_fn(i32, Result<i32, CallError>) -> bool,
    g: spec_fn(i32) -> i32,
    failing: Set<i32>,
    inputs: Seq<i32>,
    outputs: Seq<i32>,
)
    requires
        models_batch(post, inputs, outputs),
        forall|x: i32, o: Result<i32, CallError>| #[trigger]
            post(x, o) && failing.contains(x) ==> o is Err,
        forall|x: i32, o: Result<i32, CallError>| #[trigger]
            post(x, o) && !failing.contains(x) ==> o == Ok::<i32, CallError>(g(x)),
    ensures
        outputs.len() == inputs.len(),
        forall|i: int|
            0 <= i < inputs.len() && failing.contains(#[trigger] inputs[i]) ==> outputs[i] == 0,
        forall|i: int|
            0 <= i < inputs.len() && !failing.contains(#[trigger] inputs[i]) ==> outputs[i] == g(
                inputs[i],
            ),
{
    assert forall|i: int|
        0 <= i < inputs.len() && failing.contains(inputs[i]) implies outputs[i] == 0 by {
        let o = choose|o: Result<i32, CallError>| #[trigger]
            post(inputs[i], o) && outputs[i] == resolved(o);
        assert(o is Err);
    }
    assert forall|i: int|
        0 <= i < inputs.len() && !failing.contains(inputs[i]) implies outputs[i] == g(
        inputs[i],
    ) by {
        let o = choose|o: Result<i32, CallError>| #[trigger]
            post(inputs[i], o) && outputs[i] == resolved(o);
        assert(o == Ok::<i32, CallError>(g(inputs[i])));
    }
}

/// Idempotence: against a deterministic callback — at most one outcome per
/// input — two batches over the same inputs return identical outputs.
pub proof fn lemma_idempotence(
    post: spec_fn(i32, Result<i32, CallError>) -> bool,
    inputs: Seq<i32>,
    first: Seq<i32>,
    second: Seq<i32>,
)
    requires
        models_batch(post, inputs, first),
        models_batch(post, inputs, second),
        forall|x: i32, o1: Result<i32, CallError>, o2: Result<i32, CallError>|
            #![trigger post(x, o1), post(x, o2)]
            post(x, o1) && post(x, o2) ==> o1 == o2,
    ensures
        first == second,
{
    assert forall|i: int| 0 <= i < first.len() implies first[i] == second[i] by {
        let o1 = choose|o: Result<i32, CallError>| #[trigger]
            post(inputs[i], o) && first[i] == resolved(o);
        let o2 = choose|o: Result<i32, CallError>| #[trigger]
            post(inputs[i], o) && second[i] == resolved(o);
        assert(o1 == o2);
    }
    assert(first =~= second);
}

} // verus!
