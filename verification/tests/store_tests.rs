use indexer::handlers::ObjectDataHandler;
use indexer::handlers::TransactionDigestHandler;
use indexer::rows::StoredObjectData;
use indexer::rows::StoredTransactionDigest;
use indexer::store::DEFAULT_PARAM_CEILING;
use indexer::store::Table;
use indexer::store::chunk_bounds;
use indexer::store::max_rows_per_statement;

fn digest_row(digest: &str, seq: i64) -> StoredTransactionDigest {
    StoredTransactionDigest {
        tx_digest: digest.to_string(),
        checkpoint_sequence_number: seq,
    }
}

fn digest_batch() -> Vec<StoredTransactionDigest> {
    vec![digest_row("a", 1), digest_row("b", 1), digest_row("c", 2)]
}

fn object_row(id: &str, version: i64) -> StoredObjectData {
    StoredObjectData {
        object_id: id.to_string(),
        object_version: version,
        object_digest: format!("digest-of-{id}"),
        checkpoint_sequence_number: 10,
        owner_type: Some("shared".to_string()),
        owner_id: None,
        object_type: None,
        object_bcs: Some(vec![0]),
    }
}

#[test]
fn committing_twice_inserts_then_skips() {
    let handler = TransactionDigestHandler;
    let mut table = Table::new();

    let first = handler.commit(digest_batch(), &mut table, DEFAULT_PARAM_CEILING);
    assert_eq!(first, 3);
    assert_eq!(table.len(), 3);

    let second = handler.commit(digest_batch(), &mut table, DEFAULT_PARAM_CEILING);
    assert_eq!(second, 0);
    assert_eq!(table.len(), 3);
}

#[test]
fn committing_object_rows_twice_inserts_then_skips() {
    let handler = ObjectDataHandler;
    let mut table = Table::new();
    let batch = || vec![object_row("0x1", 5), object_row("0x1", 6), object_row("0x2", 5)];

    assert_eq!(handler.commit(batch(), &mut table, DEFAULT_PARAM_CEILING), 3);
    assert_eq!(handler.commit(batch(), &mut table, DEFAULT_PARAM_CEILING), 0);
    assert_eq!(table.len(), 3);
}

#[test]
fn key_collision_is_skipped_not_overwritten() {
    let handler = TransactionDigestHandler;
    let mut table = Table::new();

    assert_eq!(handler.commit(vec![digest_row("a", 1)], &mut table, 16), 1);
    // Re-delivery of the same key with another payload: skipped, not counted,
    // and the first write survives.
    assert_eq!(handler.commit(vec![digest_row("a", 99)], &mut table, 16), 0);

    let rows = table.contents();
    assert_eq!(rows.len(), 1);
    assert_eq!(rows[0].checkpoint_sequence_number, 1);
}

#[test]
fn duplicate_keys_within_one_batch_count_once() {
    let handler = TransactionDigestHandler;
    let mut table = Table::new();

    let batch = vec![digest_row("a", 1), digest_row("a", 2), digest_row("b", 1)];
    assert_eq!(handler.commit(batch, &mut table, DEFAULT_PARAM_CEILING), 2);
    assert_eq!(table.len(), 2);
}

#[test]
fn max_rows_is_computed_from_the_column_count() {
    // 2-column rows: 65535 / 2 statements of 32767 rows bind 65534 values.
    assert_eq!(max_rows_per_statement(65535, 2), 32767);
    // 8-column rows.
    assert_eq!(max_rows_per_statement(65535, 8), 8191);
    // A ceiling of exactly one row.
    assert_eq!(max_rows_per_statement(8, 8), 1);
}

#[test]
fn chunk_bounds_partition_in_order_within_the_cap() {
    assert_eq!(chunk_bounds(7, 3), vec![(0, 3), (3, 6), (6, 7)]);
    assert_eq!(chunk_bounds(6, 3), vec![(0, 3), (3, 6)]);
    assert_eq!(chunk_bounds(2, 3), vec![(0, 2)]);
    assert_eq!(chunk_bounds(0, 3), Vec::<(usize, usize)>::new());
}

#[test]
fn oversized_batch_is_split_and_counts_sum_to_new_rows() {
    let handler = TransactionDigestHandler;
    let mut table = Table::new();

    // Ceiling 6 with 2 columns per row: at most 3 rows per write, so 7 rows
    // take 3 writes. One key repeats, so only 6 rows are genuinely new.
    let mut batch = Vec::new();
    for i in 0..6i64 {
        batch.push(digest_row(&format!("key-{i}"), i));
    }
    batch.push(digest_row("key-0", 40));

    let bounds = chunk_bounds(batch.len(), max_rows_per_statement(6, 2));
    assert_eq!(bounds.len(), 3);
    for (start, end) in &bounds {
        assert!((end - start) * 2 <= 6);
    }

    assert_eq!(handler.commit(batch, &mut table, 6), 6);
    assert_eq!(table.len(), 6);
}

#[test]
fn insert_ignore_reports_newness() {
    let mut table = Table::new();
    assert!(table.insert_ignore(digest_row("a", 1)));
    assert!(!table.insert_ignore(digest_row("a", 2)));
    assert!(table.insert_ignore(digest_row("b", 1)));
    assert_eq!(table.len(), 2);
}
