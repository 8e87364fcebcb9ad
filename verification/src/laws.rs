use vstd::prelude::*;
use crate::combination::CombinationPayload;
use crate::payload::Payload;
use crate::types::ObjectRef;

verus! {

/// Whether `run` is a history of one mixture: each entry but the first came
/// out of regenerating the entry before it, with the references that stand at
/// the same position in `objects` and `gases`.
pub open spec fn is_run<P: Payload>(
    run: Seq<CombinationPayload<P>>,
    objects: Seq<ObjectRef>,
    gases: Seq<ObjectRef>,
) -> bool {
    &&& run.len() == objects.len() + 1
    &&& run.len() == gases.len() + 1
    &&& forall|i: int|
        0 <= i < run.len() - 1 ==> (#[trigger] run[i]).regenerates_to(
            objects[i],
            gases[i],
            &run[i + 1],
        )
}

/// Reading changes nothing: whatever two calls of `make_transaction` on one
/// mixture return, it is the same transaction, that of the active payload.
pub proof fn lemma_make_transaction_repeats<P: Payload>(
    mix: CombinationPayload<P>,
    first: P::Transaction,
    second: P::Transaction,
)
    requires
        first == mix.transaction(),
        second == mix.transaction(),
    ensures
        first == second,
        first == mix@.active().transaction(),
{
}

/// A mixture put together from `payloads` with the starting index `k`
/// answers `get_object_id` with the id of the payload at `k`.
pub proof fn lemma_initial_object_id<P: Payload>(
    mix: CombinationPayload<P>,
    payloads: Seq<P>,
    k: int,
)
    requires
        0 <= k < payloads.len(),
        mix@.payloads == payloads,
        mix@.curr_index == k,
    ensures
        mix.object_id() == payloads[k].object_id(),
{
}

/// One regeneration touches the active payload alone, keeps the number of
/// payloads and the table, and leaves a mixture whose active position is
/// again one of its payloads', and one whose weight is not zero.
pub proof fn lemma_regeneration_keeps_shape<P: Payload>(
    mix: CombinationPayload<P>,
    new_object: ObjectRef,
    new_gas: ObjectRef,
    next: CombinationPayload<P>,
)
    requires
        mix@.wf(),
        mix.regenerates_to(new_object, new_gas, &next),
    ensures
        next@.wf(),
        next@.payloads.len() == mix@.payloads.len(),
        next@.dist == mix@.dist,
        next@.weights()[next@.curr_index] > 0,
        forall|i: int|
            0 <= i < mix@.payloads.len() && i != mix@.curr_index ==> next@.payloads[i]
                == mix@.payloads[i],
        mix@.active().regenerates_to(new_object, new_gas, &next@.payloads[mix@.curr_index]),
{
}

/// A mixture of one payload keeps that payload active, whatever the random
/// source gives.
pub proof fn lemma_single_payload_stays_active<P: Payload>(
    mix: CombinationPayload<P>,
    new_object: ObjectRef,
    new_gas: ObjectRef,
    next: CombinationPayload<P>,
)
    requires
        mix@.wf(),
        mix@.payloads.len() == 1,
        mix.regenerates_to(new_object, new_gas, &next),
    ensures
        next@.curr_index == 0,
{
}

/// The next active position follows from the weights and the random source
/// alone: two mixtures with equal weights and one seeded source in one state
/// get the same next position and are left with the same source, whatever
/// their payloads, their active positions and the references handed in.
pub proof fn lemma_next_index_follows_from_source<P: Payload, Q: Payload>(
    first: CombinationPayload<P>,
    first_object: ObjectRef,
    first_gas: ObjectRef,
    first_next: CombinationPayload<P>,
    second: CombinationPayload<Q>,
    second_object: ObjectRef,
    second_gas: ObjectRef,
    second_next: CombinationPayload<Q>,
)
    requires
        first@.weights() == second@.weights(),
        first@.rng == second@.rng,
        first@.rng is Seeded,
        first.regenerates_to(first_object, first_gas, &first_next),
        second.regenerates_to(second_object, second_gas, &second_next),
    ensures
        first_next@.curr_index == second_next@.curr_index,
        first_next@.rng == second_next@.rng,
        first_next@.rng is Seeded,
        first_next@.weights() == second_next@.weights(),
{
}

/// Through any number of regenerations a mixture keeps its number of payloads
/// and its table, its active position stays one of its payloads', and so
/// its tag is at every step the tag of a payload that it holds: the active
/// one.
pub proof fn lemma_run_keeps_active_payload<P: Payload>(
    run: Seq<CombinationPayload<P>>,
    objects: Seq<ObjectRef>,
    gases: Seq<ObjectRef>,
    k: int,
)
    requires
        is_run(run, objects, gases),
        run[0]@.wf(),
        0 <= k < run.len(),
    ensures
        run[k]@.wf(),
        run[k]@.payloads.len() == run[0]@.payloads.len(),
        run[k]@.dist == run[0]@.dist,
        run[k].workload_type() == run[k]@.payloads[run[k]@.curr_index].workload_type(),
    decreases k,
{
    if k > 0 {
        lemma_run_keeps_active_payload(run, objects, gases, k - 1);
        lemma_regeneration_keeps_shape(run[k - 1], objects[k - 1], gases[k - 1], run[k]);
    }
}

/// A seed fixes the run: two histories that start with equal weights and one
/// seeded source in one state pass through the same active positions, step by
/// step, and hold the same source after each step.
pub proof fn lemma_runs_from_one_source_agree<P: Payload, Q: Payload>(
    first: Seq<CombinationPayload<P>>,
    first_objects: Seq<ObjectRef>,
    first_gases: Seq<ObjectRef>,
    second: Seq<CombinationPayload<Q>>,
    second_objects: Seq<ObjectRef>,
    second_gases: Seq<ObjectRef>,
    k: int,
)
    requires
        is_run(first, first_objects, first_gases),
        is_run(second, second_objects, second_gases),
        first[0]@.weights() == second[0]@.weights(),
        first[0]@.rng == second[0]@.rng,
        first[0]@.rng is Seeded,
        0 <= k < first.len(),
        k < second.len(),
    ensures
        first[k]@.weights() == second[k]@.weights(),
        first[k]@.rng == second[k]@.rng,
        first[k]@.rng is Seeded,
        k > 0 ==> first[k]@.curr_index == second[k]@.curr_index,
    decreases k,
{
    if k > 0 {
        lemma_runs_from_one_source_agree(
            first,
            first_objects,
            first_gases,
            second,
            second_objects,
            second_gases,
            k - 1,
        );
        lemma_next_index_follows_from_source(
            first[k - 1],
            first_objects[k - 1],
            first_gases[k - 1],
            first[k],
            second[k - 1],
            second_objects[k - 1],
            second_gases[k - 1],
            second[k],
        );
    }
}

} // verus!
