use vstd::prelude::*;
use crate::types::{ObjectID, ObjectRef, WorkloadType};

verus! {

/// A generator of transactions that is bound to one ledger object.
///
/// The driver asks a payload for its transaction, submits it, and, once
/// execution has returned the new references of the object and of the gas
/// object, trades the payload in for its successor with `make_new_payload`.
/// That call takes the payload by value: the instance that holds the stale
/// references cannot be used afterwards.
pub trait Payload: Sized + Send + Sync {
    /// What the execution layer takes; this library never looks inside.
    type Transaction;

    /// The id of the object that this payload will mutate next.
    spec fn object_id(&self) -> ObjectID;

    /// The tag under which this payload is counted.
    spec fn workload_type(&self) -> WorkloadType;

    /// The transaction that this payload stands for in its present state.
    spec fn transaction(&self) -> Self::Transaction;

    /// Whether `next` may come out of regenerating `self` with the two
    /// references. Each kind of payload says here what its successor keeps
    /// and what it takes from the references.
    spec fn regenerates_to(&self, new_object: ObjectRef, new_gas: ObjectRef, next: &Self) -> bool;

    /// Trades this payload in for its successor, which is bound to the two
    /// references that execution has returned.
    fn make_new_payload(self, new_object: ObjectRef, new_gas: ObjectRef) -> (next: Self)
        ensures
            self.regenerates_to(new_object, new_gas, &next),
    ;

    /// The transaction to submit next. It reads the payload and changes
    /// nothing, so any number of calls give the same transaction.
    fn make_transaction(&self) -> (tx: Self::Transaction)
        ensures
            tx == self.transaction(),
    ;

    /// The id of the object to fetch again once the transaction has run.
    fn get_object_id(&self) -> (id: ObjectID)
        ensures
            id == self.object_id(),
    ;

    /// The tag under which the driver counts this payload.
    fn get_workload_type(&self) -> (tag: WorkloadType)
        ensures
            tag == self.workload_type(),
    ;
}

/// Whether `after` is `before` with the payload at `index` regenerated with
/// the two references and every other payload left as it was.
pub open spec fn regenerated_at<P: Payload>(
    before: Seq<P>,
    index: int,
    new_object: ObjectRef,
    new_gas: ObjectRef,
    after: Seq<P>,
) -> bool {
    &&& 0 <= index < before.len()
    &&& after.len() == before.len()
    &&& forall|i: int| 0 <= i < before.len() && i != index ==> after[i] == before[i]
    &&& before[index].regenerates_to(new_object, new_gas, &after[index])
}

/// Rebuilds a sequence of payloads: the one at `index` is traded in for its
/// successor, the others move over untouched and in order.
pub fn regenerate_at<P: Payload>(
    payloads: Vec<P>,
    index: usize,
    new_object: ObjectRef,
    new_gas: ObjectRef,
) -> (rebuilt: Vec<P>)
    requires
        index < payloads@.len(),
    ensures
        regenerated_at(payloads@, index as int, new_object, new_gas, rebuilt@),
{
    let ghost before = payloads@;
    let n: usize = payloads.len();
    let mut rebuilt: Vec<P> = Vec::new();
    let mut pos: usize = 0;
    for e in it: payloads
        invariant
            pos == it.index(),
            it.seq() == before,
            before.len() == n,
            index < n,
            rebuilt@.len() == pos,
            forall|i: int| 0 <= i < pos && i != index ==> rebuilt@[i] == before[i],
            index < pos ==> before[index as int].regenerates_to(
                new_object,
                new_gas,
                &rebuilt@[index as int],
            ),
    {
        if pos == index {
            let updated = e.make_new_payload(new_object, new_gas);
            rebuilt.push(updated);
        } else {
            rebuilt.push(e);
        }
        pos = pos + 1;
    }
    rebuilt
}

} // verus!
