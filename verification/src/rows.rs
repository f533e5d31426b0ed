//! The two output row shapes, one per target relation, and the small trait
//! the committer needs of a row: a primary key and a column count.

use vstd::prelude::*;

verus! {

/// One row of the transaction-digest relation. Primary key: `tx_digest`.
#[derive(Debug)]
pub struct StoredTransactionDigest {
    pub tx_digest: String,
    pub checkpoint_sequence_number: i64,
}

/// One row of the per-object snapshot relation.
/// Primary key: `(object_id, object_version)`.
#[derive(Debug)]
pub struct StoredObjectData {
    pub object_id: String,
    pub object_version: i64,
    pub object_digest: String,
    pub checkpoint_sequence_number: i64,
    pub owner_type: Option<String>,
    pub owner_id: Option<String>,
    pub object_type: Option<String>,
    pub object_bcs: Option<Vec<u8>>,
}

/// What the batched committer asks of a row: a mathematical primary key,
/// an executable test for key equality, and the number of columns the row
/// binds in one write statement.
pub trait TableRow: Sized {
    type Key;

    /// The row's primary key, as a mathematical value.
    spec fn key(self) -> Self::Key;

    /// The number of columns of the row's relation, as a mathematical value.
    spec fn spec_field_count() -> nat;

    /// The number of columns of the row's relation.
    fn field_count() -> (n: usize)
        ensures
            n as nat == Self::spec_field_count(),
            n >= 1,
    ;

    /// Whether two rows collide on the relation's primary key.
    fn same_key(&self, other: &Self) -> (b: bool)
        ensures
            b == (self.key() == other.key()),
    ;
}

impl TableRow for StoredTransactionDigest {
    type Key = Seq<char>;

    open spec fn key(self) -> Seq<char> {
        self.tx_digest@
    }

    open spec fn spec_field_count() -> nat {
        2
    }

    fn field_count() -> (n: usize) {
        2
    }

    fn same_key(&self, other: &Self) -> (b: bool) {
        self.tx_digest == other.tx_digest
    }
}

impl TableRow for StoredObjectData {
    type Key = (Seq<char>, i64);

    open spec fn key(self) -> (Seq<char>, i64) {
        (self.object_id@, self.object_version)
    }

    open spec fn spec_field_count() -> nat {
        8
    }

    fn field_count() -> (n: usize) {
        8
    }

    fn same_key(&self, other: &Self) -> (b: bool) {
        self.object_id == other.object_id && self.object_version == other.object_version
    }
}

} // verus!
