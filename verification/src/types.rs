use vstd::prelude::*;

verus! {

/// Identifier of an object on the ledger. It names the object through all of
/// its versions.
#[derive(Clone, Copy, Debug, PartialEq, Eq, Hash)]
pub struct ObjectID {
    pub bytes: [u8; 32],
}

/// Reference to one version of a ledger object: every transaction that touches
/// the object leaves it with a new version and digest, so a reference is good
/// for one transaction only.
#[derive(Clone, Copy, Debug, PartialEq, Eq, Hash)]
pub struct ObjectRef {
    pub id: ObjectID,
    pub version: u64,
    pub digest: [u8; 32],
}

/// Classification of a payload, by which the driver groups its metrics. It
/// has no influence on what a payload does.
#[derive(Clone, Copy, Debug, PartialEq, Eq, Hash)]
pub enum WorkloadType {
    SharedCounter,
    TransferObject,
}

} // verus!
