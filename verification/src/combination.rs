use vstd::prelude::*;
use crate::payload::{regenerate_at, regenerated_at, Payload};
use crate::sampling::{table_error, AliasTable, RandomSource, TableError};
use crate::types::{ObjectID, ObjectRef, WorkloadType};

verus! {

/// A weighted mixture of payloads behind the one `Payload` interface. One of
/// its payloads is active: it answers for the mixture until the next
/// regeneration, which trades it in for its successor and draws the next
/// active payload from the alias table.
pub struct CombinationPayload<P> {
    payloads: Vec<P>,
    dist: AliasTable,
    curr_index: usize,
    rng: RandomSource,
}

/// What a mixture is to a contract: its four parts.
pub ghost struct Mixture<P> {
    /// The payloads, in order.
    pub payloads: Seq<P>,
    /// The alias table from which the next active payload is drawn.
    pub dist: AliasTable,
    /// The position of the active payload.
    pub curr_index: int,
    /// The random source, in the state in which the next draw finds it.
    pub rng: RandomSource,
}

impl<P> Mixture<P> {
    /// The weight of each payload in the draw of the next active payload.
    pub open spec fn weights(self) -> Seq<u32> {
        self.dist.weights()
    }

    /// There is one weight for each payload, and the active position is one
    /// of theirs.
    pub open spec fn wf(self) -> bool {
        &&& self.weights().len() == self.payloads.len()
        &&& 0 <= self.curr_index < self.payloads.len()
    }

    /// The active payload.
    pub open spec fn active(self) -> P
        recommends
            self.wf(),
    {
        self.payloads[self.curr_index]
    }
}

impl<P> View for CombinationPayload<P> {
    type V = Mixture<P>;

    closed spec fn view(&self) -> Mixture<P> {
        Mixture {
            payloads: self.payloads@,
            dist: self.dist,
            curr_index: self.curr_index as int,
            rng: self.rng,
        }
    }
}

/// Why the parts given make no mixture.
#[derive(Clone, Copy, Debug, PartialEq, Eq)]
pub enum BuildError {
    /// The weights make no alias table.
    Table(TableError),
    /// The number of weights is not the number of payloads.
    LengthMismatch,
    /// The starting index is not the position of a payload.
    IndexOutOfRange,
}

/// The reason for which the parts make no mixture, or `None` where they make
/// one. The reasons are tried in this order.
pub open spec fn build_error(n: nat, weights: Seq<u32>, curr_index: int) -> Option<BuildError> {
    if weights.len() != n {
        Some(BuildError::LengthMismatch)
    } else if !(0 <= curr_index < n) {
        Some(BuildError::IndexOutOfRange)
    } else {
        match table_error(weights) {
            Some(e) => Some(BuildError::Table(e)),
            None => None,
        }
    }
}

impl<P> CombinationPayload<P> {
    #[verifier::type_invariant]
    spec fn inv(self) -> bool {
        self@.wf()
    }
}

impl<P: Payload> CombinationPayload<P> {
    /// Puts a mixture together from its parts. The table must have been built
    /// for as many weights as there are payloads.
    pub fn new(payloads: Vec<P>, dist: AliasTable, curr_index: usize, rng: RandomSource) -> (mix: Self)
        requires
            dist.weights().len() == payloads@.len(),
            curr_index < payloads@.len(),
        ensures
            mix@ == (Mixture { payloads: payloads@, dist, curr_index: curr_index as int, rng }),
    {
        CombinationPayload { payloads, dist, curr_index, rng }
    }

    /// Builds the alias table for `weights` and puts the mixture together, or
    /// says what is wrong with the parts.
    pub fn from_weights(
        payloads: Vec<P>,
        weights: Vec<u32>,
        curr_index: usize,
        rng: RandomSource,
    ) -> (r: Result<Self, BuildError>)
        ensures
            match r {
                Ok(mix) => {
                    &&& build_error(payloads@.len(), weights@, curr_index as int) is None
                    &&& mix@.payloads == payloads@
                    &&& mix@.weights() == weights@
                    &&& mix@.curr_index == curr_index
                    &&& mix@.rng == rng
                },
                Err(e) => build_error(payloads@.len(), weights@, curr_index as int) == Some(e),
            },
    {
        if weights.len() != payloads.len() {
            return Err(BuildError::LengthMismatch);
        }
        if curr_index >= payloads.len() {
            return Err(BuildError::IndexOutOfRange);
        }
        match AliasTable::new(weights) {
            Ok(dist) => Ok(Self::new(payloads, dist, curr_index, rng)),
            Err(e) => Err(BuildError::Table(e)),
        }
    }

    /// The payloads, in order.
    pub fn payloads(&self) -> (payloads: &Vec<P>)
        ensures
            payloads@ == self@.payloads,
    {
        &self.payloads
    }

    /// The alias table from which the next active payload is drawn.
    pub fn dist(&self) -> (dist: &AliasTable)
        ensures
            *dist == self@.dist,
    {
        &self.dist
    }

    /// The random source, in the state in which the next draw finds it.
    pub fn rng(&self) -> (rng: &RandomSource)
        ensures
            *rng == self@.rng,
    {
        &self.rng
    }

    /// The position of the active payload, which is always one of the
    /// payloads'.
    pub fn curr_index(&self) -> (index: usize)
        ensures
            index == self@.curr_index,
            self@.wf(),
    {
        proof {
            use_type_invariant(self);
        }
        self.curr_index
    }

    /// Regenerates the active payload with the two references and makes the
    /// payload at `next_index` the active one. This is `make_new_payload`
    /// with the draw given: nothing is drawn, and the table and the random
    /// source go over as they are.
    pub fn make_new_payload_at(
        self,
        new_object: ObjectRef,
        new_gas: ObjectRef,
        next_index: usize,
    ) -> (next: Self)
        requires
            next_index < self@.payloads.len(),
        ensures
            self@.wf(),
            next@.wf(),
            regenerated_at(self@.payloads, self@.curr_index, new_object, new_gas, next@.payloads),
            next@.dist == self@.dist,
            next@.curr_index == next_index,
            next@.rng == self@.rng,
    {
        proof {
            use_type_invariant(&self);
        }
        let CombinationPayload { payloads, dist, curr_index, rng } = self;
        let rebuilt = regenerate_at(payloads, curr_index, new_object, new_gas);
        CombinationPayload { payloads: rebuilt, dist, curr_index: next_index, rng }
    }
}

impl<P: Payload> Payload for CombinationPayload<P> {
    type Transaction = P::Transaction;

    open spec fn object_id(&self) -> ObjectID {
        self@.active().object_id()
    }

    open spec fn workload_type(&self) -> WorkloadType {
        self@.active().workload_type()
    }

    open spec fn transaction(&self) -> P::Transaction {
        self@.active().transaction()
    }

    open spec fn regenerates_to(&self, new_object: ObjectRef, new_gas: ObjectRef, next: &Self) -> bool {
        &&& regenerated_at(self@.payloads, self@.curr_index, new_object, new_gas, next@.payloads)
        &&& next@.dist == self@.dist
        &&& 0 <= next@.curr_index < self@.payloads.len()
        &&& self@.rng.draws(self@.weights(), next@.curr_index)
        &&& next@.rng == self@.rng.after_draw(self@.weights())
    }

    /// Trades the active payload in for its successor, leaves the others as
    /// they are, and draws the next active payload from the table: one draw,
    /// after which the successor holds the same table and the random source
    /// as that draw left it.
    fn make_new_payload(self, new_object: ObjectRef, new_gas: ObjectRef) -> (next: Self)
        ensures
            self@.wf(),
            next@.wf(),
            self@.weights()[next@.curr_index] > 0,
            self@.payloads.len() == 1 ==> next@.curr_index == 0,
    {
        proof {
            use_type_invariant(&self);
        }
        let CombinationPayload { payloads, dist, curr_index, rng } = self;
        let rebuilt = regenerate_at(payloads, curr_index, new_object, new_gas);
        let mut rng = rng;
        let next_index = rng.sample(&dist);
        CombinationPayload { payloads: rebuilt, dist, curr_index: next_index, rng }
    }

    /// The transaction of the active payload.
    fn make_transaction(&self) -> (tx: P::Transaction)
        ensures
            self@.wf(),
    {
        proof {
            use_type_invariant(self);
        }
        self.payloads[self.curr_index].make_transaction()
    }

    /// The object that the active payload will mutate next.
    fn get_object_id(&self) -> (id: ObjectID)
        ensures
            self@.wf(),
    {
        proof {
            use_type_invariant(self);
        }
        self.payloads[self.curr_index].get_object_id()
    }

    /// The tag of the active payload.
    fn get_workload_type(&self) -> (tag: WorkloadType)
        ensures
            self@.wf(),
    {
        proof {
            use_type_invariant(self);
        }
        self.payloads[self.curr_index].get_workload_type()
    }
}

} // verus!
