//! The two row transformers: pure, order-preserving maps from one
//! checkpoint to the rows of one target relation, plus the accumulation and
//! commit steps the pipeline invokes around them. Neither transformer
//! deduplicates: deduplication happens only at commit time through the
//! primary-key conflict policy.

use vstd::prelude::*;

use crate::checkpoint::Checkpoint;
use crate::checkpoint::CheckpointTransaction;
use crate::checkpoint::ObjectData;
use crate::checkpoint::owner_id_of;
use crate::checkpoint::owner_parts;
use crate::checkpoint::owner_type_chars;
use crate::rows::StoredObjectData;
use crate::rows::StoredTransactionDigest;
use crate::rows::TableRow;
use crate::store::Table;
use crate::store::added_count;
use crate::store::insert_rows;

verus! {

/// Why a checkpoint's object transform was aborted.
#[derive(Debug)]
pub enum TransformError {
    /// The canonical binary encoding of the named object failed. The whole
    /// checkpoint's object transform is abandoned: no partial output.
    Serialization { object_id: String },
}

/// Every object every transaction of the checkpoint output, in transaction
/// order and, within one transaction, in output order.
pub open spec fn all_outputs(txs: Seq<CheckpointTransaction>) -> Seq<ObjectData>
    decreases txs.len(),
{
    if txs.len() == 0 {
        Seq::empty()
    } else {
        all_outputs(txs.drop_last()) + txs.last().output_objects@
    }
}

/// Whether every object of `objs` carries its canonical binary encoding.
pub open spec fn all_encoded(objs: Seq<ObjectData>) -> bool {
    forall|i: int| 0 <= i < objs.len() ==> (#[trigger] objs[i]).bcs_encoding is Some
}

/// What one row of the object relation holds for one output object of the
/// checkpoint with sequence number `seq`.
pub open spec fn object_row_matches(row: StoredObjectData, obj: ObjectData, seq: u64) -> bool {
    &&& row.object_id == obj.id
    &&& row.object_version == obj.version as i64
    &&& row.object_digest == obj.digest
    &&& row.checkpoint_sequence_number == seq as i64
    &&& row.owner_type matches Some(t) && t@ == owner_type_chars(obj.owner)
    &&& (match row.owner_id {
        Some(id) => owner_id_of(obj.owner) == Some(id@),
        None => owner_id_of(obj.owner) is None,
    })
    &&& row.object_type == obj.type_desc
    &&& obj.bcs_encoding matches Some(b) && row.object_bcs matches Some(rb) && rb@ == b@
}

/// Splitting a run of transactions splits the run of their output objects.
pub proof fn lemma_all_outputs_concat(a: Seq<CheckpointTransaction>, b: Seq<CheckpointTransaction>)
    ensures
        all_outputs(a + b) == all_outputs(a) + all_outputs(b),
    decreases b.len(),
{
    if b.len() == 0 {
        assert(a + b =~= a);
        assert(all_outputs(a) + all_outputs(b) =~= all_outputs(a));
    } else {
        assert((a + b).drop_last() =~= a + b.drop_last());
        assert((a + b).last() == b.last());
        lemma_all_outputs_concat(a, b.drop_last());
        assert((all_outputs(a) + all_outputs(b.drop_last())) + b.last().output_objects@
            =~= all_outputs(a) + (all_outputs(b.drop_last()) + b.last().output_objects@));
    }
}

/// Emits one `(tx_digest, checkpoint_sequence_number)` row per transaction
/// of a checkpoint, in transaction order.
pub struct TransactionDigestHandler;

impl TransactionDigestHandler {
    /// The transaction-digest transform: one row per transaction, in order,
    /// each carrying the transaction's digest and the checkpoint's sequence
    /// number. A checkpoint with no transactions yields no rows.
    pub fn process(&self, checkpoint: &Checkpoint) -> (rows: Vec<StoredTransactionDigest>)
        ensures
            rows@.len() == checkpoint.transactions@.len(),
            forall|i: int| 0 <= i < rows@.len() ==> {
                &&& (#[trigger] rows@[i]).tx_digest == checkpoint.transactions@[i].digest
                &&& rows@[i].checkpoint_sequence_number == checkpoint.sequence_number as i64
            },
    {
        let checkpoint_seq: i64 = #[verifier::truncate] (checkpoint.sequence_number as i64);
        let n = checkpoint.transactions.len();
        let mut rows: Vec<StoredTransactionDigest> = Vec::new();
        let mut i: usize = 0;
        while i < n
            invariant
                i <= n,
                n == checkpoint.transactions@.len(),
                checkpoint_seq == checkpoint.sequence_number as i64,
                rows@.len() == i,
                forall|k: int| 0 <= k < i ==> {
                    &&& (#[trigger] rows@[k]).tx_digest == checkpoint.transactions@[k].digest
                    &&& rows@[k].checkpoint_sequence_number == checkpoint.sequence_number as i64
                },
            decreases n - i,
        {
            let tx = &checkpoint.transactions[i];
            rows.push(
                StoredTransactionDigest {
                    tx_digest: tx.digest.clone(),
                    checkpoint_sequence_number: checkpoint_seq,
                },
            );
            i += 1;
        }
        rows
    }

    /// Accumulates freshly transformed rows onto the pending batch, keeping
    /// their order.
    pub fn batch(
        &self,
        batch: &mut Vec<StoredTransactionDigest>,
        values: Vec<StoredTransactionDigest>,
    )
        ensures
            final(batch)@ == old(batch)@ + values@,
    {
        let mut vs = values;
        batch.append(&mut vs);
    }

    /// Commits the batch to the digest relation in size-bounded chunks with
    /// insert-or-ignore semantics, returning how many rows were genuinely
    /// new.
    pub fn commit(
        &self,
        batch: Vec<StoredTransactionDigest>,
        table: &mut Table<StoredTransactionDigest>,
        param_ceiling: usize,
    ) -> (n: usize)
        requires
            StoredTransactionDigest::spec_field_count() <= param_ceiling as nat,
        ensures
            final(table)@ == insert_rows(old(table)@, batch@),
            n as nat == added_count(old(table)@, batch@),
    {
        table.commit_chunked(batch, param_ceiling)
    }
}

/// Emits one row per object output by any transaction of a checkpoint.
pub struct ObjectDataHandler;

impl ObjectDataHandler {
    /// The object-data transform: for each transaction in order, for each
    /// object it output in order, one row with the object's identity,
    /// digest, owner columns, optional type and canonical binary encoding.
    /// An object whose encoding failed aborts the whole transform: the
    /// error names the first such object and nothing is emitted.
    pub fn process(&self, checkpoint: &Checkpoint) -> (r: Result<
        Vec<StoredObjectData>,
        TransformError,
    >)
        ensures
            ({
                let objs = all_outputs(checkpoint.transactions@);
                match r {
                    Ok(rows) => {
                        &&& all_encoded(objs)
                        &&& rows@.len() == objs.len()
                        &&& forall|k: int|
                            0 <= k < objs.len() ==> object_row_matches(
                                #[trigger] rows@[k],
                                objs[k],
                                checkpoint.sequence_number,
                            )
                    },
                    Err(e) => {
                        &&& !all_encoded(objs)
                        &&& exists|j: int|
                            {
                                &&& 0 <= j < objs.len()
                                &&& (#[trigger] objs[j]).bcs_encoding is None
                                &&& (forall|k: int|
                                    0 <= k < j ==> (#[trigger] objs[k]).bcs_encoding is Some)
                                &&& e matches TransformError::Serialization { object_id }
                                    && object_id == objs[j].id
                            }
                    },
                }
            }),
    {
        let seq = checkpoint.sequence_number;
        let checkpoint_seq: i64 = #[verifier::truncate] (seq as i64);
        let n = checkpoint.transactions.len();
        let mut rows: Vec<StoredObjectData> = Vec::new();
        let mut i: usize = 0;
        while i < n
            invariant
                i <= n,
                n == checkpoint.transactions@.len(),
                checkpoint_seq == seq as i64,
                seq == checkpoint.sequence_number,
                all_encoded(all_outputs(checkpoint.transactions@.take(i as int))),
                rows@.len() == all_outputs(checkpoint.transactions@.take(i as int)).len(),
                forall|k: int|
                    0 <= k < rows@.len() ==> object_row_matches(
                        #[trigger] rows@[k],
                        all_outputs(checkpoint.transactions@.take(i as int))[k],
                        seq,
                    ),
            decreases n - i,
        {
            let ghost txs = checkpoint.transactions@;
            let ghost pre = all_outputs(txs.take(i as int));
            let tx = &checkpoint.transactions[i];
            let m = tx.output_objects.len();
            let mut j: usize = 0;
            while j < m
                invariant
                    j <= m,
                    i < n,
                    n == checkpoint.transactions@.len(),
                    m == tx.output_objects@.len(),
                    checkpoint_seq == seq as i64,
                    seq == checkpoint.sequence_number,
                    txs == checkpoint.transactions@,
                    tx == &checkpoint.transactions[i as int],
                    pre == all_outputs(txs.take(i as int)),
                    all_encoded(pre),
                    rows@.len() == pre.len() + j,
                    forall|k: int|
                        0 <= k < pre.len() ==> object_row_matches(
                            #[trigger] rows@[k],
                            pre[k],
                            seq,
                        ),
                    forall|k: int| 0 <= k < j ==> {
                        &&& (#[trigger] tx.output_objects@[k]).bcs_encoding is Some
                        &&& object_row_matches(
                            rows@[pre.len() + k],
                            tx.output_objects@[k],
                            seq,
                        )
                    },
                decreases m - j,
            {
                let obj = &tx.output_objects[j];
                match &obj.bcs_encoding {
                    None => {
                        proof {
                            lemma_transform_failure_position(txs, i as int, j as int);
                        }
                        return Err(
                            TransformError::Serialization { object_id: obj.id.clone() },
                        );
                    },
                    Some(bytes) => {
                        let (owner_type, owner_id) = owner_parts(&obj.owner);
                        let row = StoredObjectData {
                            object_id: obj.id.clone(),
                            object_version: #[verifier::truncate] (obj.version as i64),
                            object_digest: obj.digest.clone(),
                            checkpoint_sequence_number: checkpoint_seq,
                            owner_type: Some(owner_type),
                            owner_id,
                            object_type: clone_opt_string(&obj.type_desc),
                            object_bcs: Some(copy_bytes(bytes)),
                        };
                        rows.push(row);
                    },
                }
                j += 1;
            }
            proof {
                assert(txs.take(i + 1).drop_last() =~= txs.take(i as int));
                assert(txs.take(i + 1).last() == txs[i as int]);
                assert(all_outputs(txs.take(i + 1)) == pre + tx.output_objects@);
                assert forall|k: int|
                    0 <= k < rows@.len() implies object_row_matches(
                    #[trigger] rows@[k],
                    all_outputs(txs.take(i + 1))[k],
                    seq,
                ) by {
                    if k < pre.len() {
                        assert((pre + tx.output_objects@)[k] == pre[k]);
                    } else {
                        assert((pre + tx.output_objects@)[k] == tx.output_objects@[k - pre.len()]);
                    }
                }
            }
            i += 1;
        }
        proof {
            assert(checkpoint.transactions@.take(n as int) =~= checkpoint.transactions@);
        }
        Ok(rows)
    }

    /// Accumulates freshly transformed rows onto the pending batch, keeping
    /// their order.
    pub fn batch(&self, batch: &mut Vec<StoredObjectData>, values: Vec<StoredObjectData>)
        ensures
            final(batch)@ == old(batch)@ + values@,
    {
        let mut vs = values;
        batch.append(&mut vs);
    }

    /// Commits the batch to the object relation in size-bounded chunks with
    /// insert-or-ignore semantics, returning how many rows were genuinely
    /// new.
    pub fn commit(
        &self,
        batch: Vec<StoredObjectData>,
        table: &mut Table<StoredObjectData>,
        param_ceiling: usize,
    ) -> (n: usize)
        requires
            StoredObjectData::spec_field_count() <= param_ceiling as nat,
        ensures
            final(table)@ == insert_rows(old(table)@, batch@),
            n as nat == added_count(old(table)@, batch@),
    {
        table.commit_chunked(batch, param_ceiling)
    }
}

/// Locates an object within the checkpoint-wide output run: transaction
/// `i`'s output `j` stands at position `all_outputs(take(i)).len() + j`,
/// and when everything before it is encoded, it is the first unencoded
/// object of the whole run.
proof fn lemma_transform_failure_position(txs: Seq<CheckpointTransaction>, i: int, j: int)
    requires
        0 <= i < txs.len(),
        0 <= j < txs[i].output_objects@.len(),
        all_encoded(all_outputs(txs.take(i))),
        forall|k: int| 0 <= k < j ==> (#[trigger] txs[i].output_objects@[k]).bcs_encoding is Some,
    ensures
        ({
            let objs = all_outputs(txs);
            let pos = all_outputs(txs.take(i)).len() + j;
            &&& 0 <= pos < objs.len()
            &&& objs[pos] == txs[i].output_objects@[j]
            &&& forall|k: int| 0 <= k < pos ==> (#[trigger] objs[k]).bcs_encoding is Some
        }),
{
    let pre = all_outputs(txs.take(i));
    assert(txs.take(i + 1).drop_last() =~= txs.take(i));
    assert(txs.take(i + 1).last() == txs[i]);
    assert(all_outputs(txs.take(i + 1)) == pre + txs[i].output_objects@);
    assert(txs =~= txs.take(i + 1) + txs.skip(i + 1));
    lemma_all_outputs_concat(txs.take(i + 1), txs.skip(i + 1));
    let objs = all_outputs(txs);
    let head = pre + txs[i].output_objects@;
    assert(objs == head + all_outputs(txs.skip(i + 1)));
    let pos = pre.len() + j;
    assert(head[pos] == txs[i].output_objects@[j]);
    assert(objs[pos] == head[pos]);
    assert forall|k: int| 0 <= k < pos implies (#[trigger] objs[k]).bcs_encoding is Some by {
        assert(objs[k] == head[k]);
        if k < pre.len() {
            assert(head[k] == pre[k]);
        } else {
            assert(head[k] == txs[i].output_objects@[k - pre.len()]);
        }
    }
}

/// A fresh copy of an optional textual column.
fn clone_opt_string(src: &Option<String>) -> (r: Option<String>)
    ensures
        r == *src,
{
    match src {
        Some(s) => Some(s.clone()),
        None => None,
    }
}

/// A fresh copy of a binary column.
fn copy_bytes(src: &Vec<u8>) -> (r: Vec<u8>)
    ensures
        r@ == src@,
{
    let n = src.len();
    let mut r: Vec<u8> = Vec::new();
    let mut i: usize = 0;
    while i < n
        invariant
            i <= n,
            n == src@.len(),
            r@.len() == i,
            forall|k: int| 0 <= k < i ==> r@[k] == src@[k],
        decreases n - i,
    {
        r.push(src[i]);
        i += 1;
    }
    proof {
        assert(r@ =~= src@);
    }
    r
}

} // verus!
