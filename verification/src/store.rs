//! The batched idempotent committer and its mathematical model.
//!
//! A relation is modelled as the sequence of rows it holds, in insertion
//! order. A write uses insert-or-ignore semantics: a row whose primary key is
//! already present is skipped, not an error, and never overwrites what is
//! there. The committer partitions a batch into contiguous chunks so that no
//! single write binds more parameters than the store's wire protocol allows,
//! and returns how many rows were genuinely new.

use vstd::prelude::*;

use crate::rows::TableRow;

verus! {

/// The parameter ceiling of the target store's wire protocol: the most
/// bound values one write statement may carry. A configuration value, not a
/// law of the logic; the committer accepts any ceiling at least as large as
/// one row.
pub const DEFAULT_PARAM_CEILING: usize = 65535;

/// Whether some row of `t` carries primary key `k`.
pub open spec fn has_key<R: TableRow>(t: Seq<R>, k: R::Key) -> bool {
    exists|i: int| 0 <= i < t.len() && t[i].key() == k
}

/// Insert-or-ignore of a single row: a no-op on a key collision, an append
/// otherwise.
pub open spec fn insert_row<R: TableRow>(t: Seq<R>, r: R) -> Seq<R> {
    if has_key(t, r.key()) {
        t
    } else {
        t.push(r)
    }
}

/// Insert-or-ignore of a sequence of rows, in order.
pub open spec fn insert_rows<R: TableRow>(t: Seq<R>, rows: Seq<R>) -> Seq<R>
    decreases rows.len(),
{
    if rows.len() == 0 {
        t
    } else {
        insert_rows(insert_row(t, rows.first()), rows.drop_first())
    }
}

/// How many rows of `rows` are genuinely new when inserted into `t` in order:
/// the affected-row count the store reports for an insert-or-ignore write.
pub open spec fn added_count<R: TableRow>(t: Seq<R>, rows: Seq<R>) -> nat
    decreases rows.len(),
{
    if rows.len() == 0 {
        0
    } else {
        (if has_key(t, rows.first().key()) {
            0nat
        } else {
            1nat
        }) + added_count(insert_row(t, rows.first()), rows.drop_first())
    }
}

/// Whether no two rows of `rows` collide on their primary key.
pub open spec fn distinct_keys<R: TableRow>(rows: Seq<R>) -> bool {
    forall|i: int, j: int| 0 <= i < j < rows.len() ==> rows[i].key() != rows[j].key()
}

/// An in-memory relation with insert-or-ignore writes, keyed by each row's
/// primary key. Its view is the sequence of stored rows in insertion order.
pub struct Table<R> {
    rows: Vec<R>,
}

impl<R: TableRow> View for Table<R> {
    type V = Seq<R>;

    closed spec fn view(&self) -> Seq<R> {
        self.rows@
    }
}

impl<R: TableRow> Table<R> {
    pub fn new() -> (t: Self)
        ensures
            t@ == Seq::<R>::empty(),
    {
        Table { rows: Vec::new() }
    }

    pub fn len(&self) -> (n: usize)
        ensures
            n == self@.len(),
    {
        self.rows.len()
    }

    /// The stored rows, in insertion order.
    pub fn contents(&self) -> (r: &Vec<R>)
        ensures
            r@ == self@,
    {
        &self.rows
    }

    /// One insert-or-ignore write of a single row. Returns whether the row
    /// was new.
    pub fn insert_ignore(&mut self, row: R) -> (inserted: bool)
        ensures
            final(self)@ == insert_row(old(self)@, row),
            inserted == !has_key(old(self)@, row.key()),
    {
        let n = self.rows.len();
        let mut i: usize = 0;
        while i < n
            invariant
                i <= n,
                n == self.rows.len(),
                self.rows@ == old(self).rows@,
                forall|j: int| 0 <= j < i ==> self.rows@[j].key() != row.key(),
            decreases n - i,
        {
            if self.rows[i].same_key(&row) {
                proof {
                    assert(has_key(self.rows@, row.key()));
                }
                return false;
            }
            i += 1;
        }
        proof {
            assert(!has_key(self.rows@, row.key()));
        }
        self.rows.push(row);
        true
    }

    /// One write statement of the model: inserts every row of `rows` in
    /// order with insert-or-ignore semantics, returning the affected-row
    /// count.
    pub fn insert_all(&mut self, rows: Vec<R>) -> (n: usize)
        ensures
            final(self)@ == insert_rows(old(self)@, rows@),
            n as nat == added_count(old(self)@, rows@),
            n <= rows@.len(),
    {
        let total = rows.len();
        let mut rest = rows;
        let mut n: usize = 0;
        let ghost t0 = self@;
        let ghost orig = rest@;
        while rest.len() > 0
            invariant
                insert_rows(self@, rest@) == insert_rows(t0, orig),
                n as nat + added_count(self@, rest@) == added_count(t0, orig),
                rest@.len() <= total,
                n as nat <= total - rest@.len(),
                total == orig.len(),
            decreases rest@.len(),
        {
            let ghost rs_cur = rest@;
            let r = rest.remove(0);
            proof {
                assert(rest@ =~= rs_cur.drop_first());
                assert(r == rs_cur.first());
            }
            let inserted = self.insert_ignore(r);
            if inserted {
                n += 1;
            }
        }
        proof {
            assert(rest@.len() == 0);
        }
        n
    }

    /// The batched idempotent commit: partitions `batch` into contiguous
    /// chunks of at most `param_ceiling / columns-per-row` rows, issues one
    /// insert-or-ignore write per chunk, and returns the summed affected-row
    /// count. Rows already present by primary key are skipped, not counted,
    /// and never overwritten.
    pub fn commit_chunked(&mut self, batch: Vec<R>, param_ceiling: usize) -> (n: usize)
        requires
            1 <= R::spec_field_count() <= param_ceiling as nat,
        ensures
            final(self)@ == insert_rows(old(self)@, batch@),
            n as nat == added_count(old(self)@, batch@),
    {
        let fields = R::field_count();
        let max_rows = max_rows_per_statement(param_ceiling, fields);
        let total = batch.len();
        let mut rest = batch;
        let mut n: usize = 0;
        let ghost t0 = self@;
        let ghost orig = rest@;
        while rest.len() > 0
            invariant
                max_rows >= 1,
                insert_rows(self@, rest@) == insert_rows(t0, orig),
                n as nat + added_count(self@, rest@) == added_count(t0, orig),
                rest@.len() <= total,
                n as nat <= total - rest@.len(),
                total == orig.len(),
            decreases rest@.len(),
        {
            let ghost t_cur = self@;
            let ghost rs_cur = rest@;
            let chunk_len = if rest.len() > max_rows {
                max_rows
            } else {
                rest.len()
            };
            let tail = rest.split_off(chunk_len);
            let chunk = rest;
            proof {
                assert(rs_cur =~= chunk@ + tail@);
                lemma_insert_rows_concat(t_cur, chunk@, tail@);
            }
            let inserted = self.insert_all(chunk);
            n += inserted;
            rest = tail;
        }
        n
    }
}

/// The largest number of rows one write statement may carry so that the
/// bound parameter count `rows * fields_per_row` stays within the store's
/// ceiling.
pub fn max_rows_per_statement(param_ceiling: usize, fields_per_row: usize) -> (n: usize)
    requires
        1 <= fields_per_row <= param_ceiling,
    ensures
        n == param_ceiling as int / fields_per_row as int,
        n * fields_per_row <= param_ceiling,
        n >= 1,
{
    let n = param_ceiling / fields_per_row;
    proof {
        assert(n * fields_per_row <= param_ceiling && n >= 1) by (nonlinear_arith)
            requires
                n == param_ceiling as int / fields_per_row as int,
                1 <= fields_per_row as int <= param_ceiling as int,
        ;
    }
    n
}

/// The contiguous chunk boundaries the committer uses: half-open index
/// ranges over a batch of `len` rows, in order, each of at most `max_rows`
/// rows, every one but the last exactly full.
pub fn chunk_bounds(len: usize, max_rows: usize) -> (r: Vec<(usize, usize)>)
    requires
        max_rows >= 1,
    ensures
        (r@.len() == 0) <==> (len == 0),
        len > 0 ==> r@[0].0 == 0 && r@[r@.len() - 1].1 == len,
        forall|i: int| 0 <= i < r@.len() ==> (#[trigger] r@[i]).0 < r@[i].1 <= len,
        forall|i: int| 0 <= i < r@.len() ==> (#[trigger] r@[i]).1 - r@[i].0 <= max_rows,
        forall|i: int| 0 <= i < r@.len() - 1 ==> (#[trigger] r@[i]).1 == r@[i + 1].0,
        forall|i: int| 0 <= i < r@.len() - 1 ==> (#[trigger] r@[i]).1 - r@[i].0 == max_rows,
{
    let mut r: Vec<(usize, usize)> = Vec::new();
    let mut start: usize = 0;
    while start < len
        invariant
            max_rows >= 1,
            start <= len,
            (r@.len() == 0) <==> (start == 0),
            start > 0 ==> r@[0].0 == 0 && r@[r@.len() - 1].1 == start,
            forall|i: int| 0 <= i < r@.len() ==> (#[trigger] r@[i]).0 < r@[i].1 <= len,
            forall|i: int| 0 <= i < r@.len() ==> (#[trigger] r@[i]).1 - r@[i].0 <= max_rows,
            forall|i: int| 0 <= i < r@.len() - 1 ==> (#[trigger] r@[i]).1 == r@[i + 1].0,
            forall|i: int| 0 <= i < r@.len() - 1 ==> (#[trigger] r@[i]).1 - r@[i].0 == max_rows,
            r@.len() > 0 ==> r@[r@.len() - 1].1 == start,
            start < len && r@.len() > 0 ==> r@[r@.len() - 1].1 - r@[r@.len() - 1].0 == max_rows,
        decreases len - start,
    {
        let end = if len - start > max_rows {
            start + max_rows
        } else {
            len
        };
        r.push((start, end));
        start = end;
    }
    r
}

/// Committing a batch of key-distinct rows to an empty store inserts every
/// row, and committing the very same batch again inserts none and changes
/// nothing: the store ends up holding exactly the batch, once.
pub proof fn lemma_empty_store_recommit<R: TableRow>(rows: Seq<R>)
    requires
        distinct_keys(rows),
    ensures
        added_count(Seq::<R>::empty(), rows) == rows.len(),
        insert_rows(Seq::<R>::empty(), rows) == rows,
        added_count(insert_rows(Seq::<R>::empty(), rows), rows) == 0,
        insert_rows(insert_rows(Seq::<R>::empty(), rows), rows) == insert_rows(
            Seq::<R>::empty(),
            rows,
        ),
{
    assert(forall|j: int|
        0 <= j < rows.len() ==> !has_key(Seq::<R>::empty(), (#[trigger] rows[j]).key()));
    lemma_fresh_batch_count(Seq::<R>::empty(), rows);
    assert(Seq::<R>::empty() + rows =~= rows);
    lemma_commit_idempotent(Seq::<R>::empty(), rows);
}

/// A single insert-or-ignore adds exactly the inserted row's key to the
/// keys present.
pub proof fn lemma_has_key_insert_row<R: TableRow>(t: Seq<R>, r: R, k: R::Key)
    ensures
        has_key(insert_row(t, r), k) <==> (has_key(t, k) || r.key() == k),
{
    if has_key(t, r.key()) {
    } else {
        if has_key(t, k) {
            let i = choose|i: int| 0 <= i < t.len() && t[i].key() == k;
            assert(t.push(r)[i].key() == k);
        }
        if r.key() == k {
            assert(t.push(r)[t.len() as int].key() == k);
        }
        if has_key(t.push(r), k) {
            let i = choose|i: int| 0 <= i < t.push(r).len() && t.push(r)[i].key() == k;
            if i < t.len() {
                assert(t[i].key() == k);
            }
        }
    }
}

/// The keys present after a batch insert are the keys present before plus
/// the keys of the batch.
pub proof fn lemma_has_key_insert_rows<R: TableRow>(t: Seq<R>, rows: Seq<R>, k: R::Key)
    ensures
        has_key(insert_rows(t, rows), k) <==> (has_key(t, k) || exists|j: int|
            0 <= j < rows.len() && rows[j].key() == k),
    decreases rows.len(),
{
    if rows.len() == 0 {
    } else {
        lemma_has_key_insert_row(t, rows.first(), k);
        lemma_has_key_insert_rows(insert_row(t, rows.first()), rows.drop_first(), k);
        if exists|j: int| 0 <= j < rows.len() && rows[j].key() == k {
            let j = choose|j: int| 0 <= j < rows.len() && rows[j].key() == k;
            if j > 0 {
                assert(rows.drop_first()[j - 1].key() == k);
            }
        }
        if exists|j: int| 0 <= j < rows.drop_first().len() && rows.drop_first()[j].key() == k {
            let j = choose|j: int|
                0 <= j < rows.drop_first().len() && rows.drop_first()[j].key() == k;
            assert(rows[j + 1].key() == k);
        }
    }
}

/// Inserting rows whose keys are all already present changes nothing and
/// counts nothing.
pub proof fn lemma_all_present_noop<R: TableRow>(t: Seq<R>, rows: Seq<R>)
    requires
        forall|j: int| 0 <= j < rows.len() ==> has_key(t, (#[trigger] rows[j]).key()),
    ensures
        insert_rows(t, rows) == t,
        added_count(t, rows) == 0,
    decreases rows.len(),
{
    if rows.len() == 0 {
    } else {
        assert(rows[0] == rows.first());
        assert(has_key(t, rows.first().key()));
        assert(insert_row(t, rows.first()) == t);
        assert(forall|j: int|
            0 <= j < rows.drop_first().len() ==> rows.drop_first()[j] == rows[j + 1]);
        lemma_all_present_noop(t, rows.drop_first());
    }
}

/// Idempotence of the commit: re-inserting a batch that was already
/// inserted is a no-op and reports zero newly inserted rows, whatever the
/// store held before.
pub proof fn lemma_commit_idempotent<R: TableRow>(t: Seq<R>, rows: Seq<R>)
    ensures
        insert_rows(insert_rows(t, rows), rows) == insert_rows(t, rows),
        added_count(insert_rows(t, rows), rows) == 0,
{
    let t1 = insert_rows(t, rows);
    assert forall|j: int| 0 <= j < rows.len() implies has_key(t1, (#[trigger] rows[j]).key()) by {
        lemma_has_key_insert_rows(t, rows, rows[j].key());
    }
    lemma_all_present_noop(t1, rows);
}

/// Committing a batch of key-distinct rows none of which the store holds
/// inserts every row: the reported count is the batch's full length.
pub proof fn lemma_fresh_batch_count<R: TableRow>(t: Seq<R>, rows: Seq<R>)
    requires
        distinct_keys(rows),
        forall|j: int| 0 <= j < rows.len() ==> !has_key(t, (#[trigger] rows[j]).key()),
    ensures
        added_count(t, rows) == rows.len(),
        insert_rows(t, rows) == t + rows,
    decreases rows.len(),
{
    if rows.len() == 0 {
        assert(t + rows =~= t);
    } else {
        let r0 = rows.first();
        assert(rows[0] == r0);
        assert(!has_key(t, r0.key()));
        let t1 = t.push(r0);
        assert(insert_row(t, r0) == t1);
        assert(forall|j: int|
            0 <= j < rows.drop_first().len() ==> rows.drop_first()[j] == rows[j + 1]);
        assert forall|j: int|
            0 <= j < rows.drop_first().len() implies !has_key(
            t1,
            (#[trigger] rows.drop_first()[j]).key(),
        ) by {
            lemma_has_key_insert_row(t, r0, rows.drop_first()[j].key());
            assert(rows.drop_first()[j].key() != r0.key());
        }
        lemma_fresh_batch_count(t1, rows.drop_first());
        assert(t1 + rows.drop_first() =~= t + rows);
    }
}

/// The store grows by exactly the reported count: its row count after a
/// commit is what it held plus the number of genuinely new rows.
pub proof fn lemma_store_growth<R: TableRow>(t: Seq<R>, rows: Seq<R>)
    ensures
        insert_rows(t, rows).len() == t.len() + added_count(t, rows),
    decreases rows.len(),
{
    if rows.len() == 0 {
    } else {
        lemma_store_growth(insert_row(t, rows.first()), rows.drop_first());
    }
}

/// First-writer-wins: a commit never overwrites what the store already
/// holds; the prior contents stay, unchanged and in place.
pub proof fn lemma_first_writer_wins<R: TableRow>(t: Seq<R>, rows: Seq<R>)
    ensures
        t.is_prefix_of(insert_rows(t, rows)),
    decreases rows.len(),
{
    if rows.len() == 0 {
        assert(t.is_prefix_of(t));
    } else {
        let t1 = insert_row(t, rows.first());
        lemma_first_writer_wins(t1, rows.drop_first());
        assert(t.is_prefix_of(t1));
        let t2 = insert_rows(t1, rows.drop_first());
        assert(t1.is_prefix_of(t2));
        assert(t.len() <= t1.len());
        assert forall|i: int| 0 <= i < t.len() implies t[i] == t2[i] by {
            assert(t1[i] == t[i]);
            assert(t2[i] == t1[i]);
        }
        assert(t =~= t2.subrange(0, t.len() as int));
    }
}

/// Inserting a concatenation is inserting the parts one after the other,
/// and the affected-row counts add up. This is why committing chunk by
/// chunk persists exactly the whole batch, with the chunk counts summing to
/// the batch's count of genuinely new rows.
pub proof fn lemma_insert_rows_concat<R: TableRow>(t: Seq<R>, a: Seq<R>, b: Seq<R>)
    ensures
        insert_rows(t, a + b) == insert_rows(insert_rows(t, a), b),
        added_count(t, a + b) == added_count(t, a) + added_count(insert_rows(t, a), b),
    decreases a.len(),
{
    if a.len() == 0 {
        assert(a + b =~= b);
    } else {
        assert((a + b).first() == a.first());
        assert((a + b).drop_first() =~= a.drop_first() + b);
        lemma_insert_rows_concat(insert_row(t, a.first()), a.drop_first(), b);
    }
}

} // verus!
