//! The slice of a checkpoint that the row transformers read: its sequence
//! number, its transactions in order, and for each transaction the objects
//! it output. Object access control is one of a closed set of owner
//! variants; each maps to an `(owner_type, owner_id)` column pair.

use vstd::prelude::*;

verus! {

/// How an object's access control is expressed.
#[derive(Debug)]
pub enum Owner {
    /// Owned by a single address.
    AddressOwner(String),
    /// Owned by another object (nested).
    ObjectOwner(String),
    /// Shared: usable by anyone.
    Shared,
    /// Immutable: never changes again.
    Immutable,
    /// Address-owned, but transferable only through consensus.
    ConsensusAddressOwner(String),
}

/// One object as a transaction output: its identity, content digest,
/// optional type descriptor, owner, and the outcome of producing its
/// canonical binary encoding (`None` when that encoding failed).
#[derive(Debug)]
pub struct ObjectData {
    pub id: String,
    pub version: u64,
    pub digest: String,
    pub type_desc: Option<String>,
    pub owner: Owner,
    pub bcs_encoding: Option<Vec<u8>>,
}

/// One transaction of a checkpoint: its content digest and the objects it
/// output, resolved against the checkpoint's full object set.
#[derive(Debug)]
pub struct CheckpointTransaction {
    pub digest: String,
    pub output_objects: Vec<ObjectData>,
}

/// An ordered, immutable unit of ledger history.
#[derive(Debug)]
pub struct Checkpoint {
    pub sequence_number: u64,
    pub transactions: Vec<CheckpointTransaction>,
}

/// The `owner_type` column value for each owner variant.
pub open spec fn owner_type_chars(o: Owner) -> Seq<char> {
    match o {
        Owner::AddressOwner(_) => "address"@,
        Owner::ObjectOwner(_) => "object"@,
        Owner::Shared => "shared"@,
        Owner::Immutable => "immutable"@,
        Owner::ConsensusAddressOwner(_) => "consensus_address"@,
    }
}

/// The `owner_id` column value for each owner variant: the owning address
/// where there is one, absent for shared and immutable objects.
pub open spec fn owner_id_of(o: Owner) -> Option<Seq<char>> {
    match o {
        Owner::AddressOwner(a) => Some(a@),
        Owner::ObjectOwner(a) => Some(a@),
        Owner::Shared => None,
        Owner::Immutable => None,
        Owner::ConsensusAddressOwner(a) => Some(a@),
    }
}

/// Maps an owner variant to its `(owner_type, owner_id)` column pair.
pub fn owner_parts(owner: &Owner) -> (r: (String, Option<String>))
    ensures
        r.0@ == owner_type_chars(*owner),
        match r.1 {
            Some(id) => owner_id_of(*owner) == Some(id@),
            None => owner_id_of(*owner) is None,
        },
{
    match owner {
        Owner::AddressOwner(address) => ("address".to_owned(), Some(address.clone())),
        Owner::ObjectOwner(address) => ("object".to_owned(), Some(address.clone())),
        Owner::Shared => ("shared".to_owned(), None),
        Owner::Immutable => ("immutable".to_owned(), None),
        Owner::ConsensusAddressOwner(address) => (
            "consensus_address".to_owned(),
            Some(address.clone()),
        ),
    }
}

} // verus!
