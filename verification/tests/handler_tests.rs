use indexer::checkpoint::Checkpoint;
use indexer::checkpoint::CheckpointTransaction;
use indexer::checkpoint::ObjectData;
use indexer::checkpoint::Owner;
use indexer::checkpoint::owner_parts;
use indexer::handlers::ObjectDataHandler;
use indexer::handlers::TransactionDigestHandler;
use indexer::handlers::TransformError;

fn object(id: &str, version: u64, owner: Owner) -> ObjectData {
    ObjectData {
        id: id.to_string(),
        version,
        digest: format!("digest-of-{id}"),
        type_desc: None,
        owner,
        bcs_encoding: Some(vec![1, 2, 3]),
    }
}

fn tx(digest: &str, objects: Vec<ObjectData>) -> CheckpointTransaction {
    CheckpointTransaction {
        digest: digest.to_string(),
        output_objects: objects,
    }
}

#[test]
fn digest_transform_preserves_transaction_order() {
    let checkpoint = Checkpoint {
        sequence_number: 9,
        transactions: vec![tx("t1", vec![]), tx("t2", vec![]), tx("t3", vec![])],
    };

    let rows = TransactionDigestHandler.process(&checkpoint);

    let digests: Vec<&str> = rows.iter().map(|r| r.tx_digest.as_str()).collect();
    assert_eq!(digests, vec!["t1", "t2", "t3"]);
    assert!(rows.iter().all(|r| r.checkpoint_sequence_number == 9));
}

#[test]
fn digest_transform_does_not_deduplicate() {
    let checkpoint = Checkpoint {
        sequence_number: 1,
        transactions: vec![tx("same", vec![]), tx("same", vec![])],
    };

    let rows = TransactionDigestHandler.process(&checkpoint);

    assert_eq!(rows.len(), 2);
    assert_eq!(rows[0].tx_digest, "same");
    assert_eq!(rows[1].tx_digest, "same");
}

#[test]
fn empty_checkpoint_yields_no_rows() {
    let checkpoint = Checkpoint {
        sequence_number: 5,
        transactions: vec![],
    };

    assert!(TransactionDigestHandler.process(&checkpoint).is_empty());
    assert!(ObjectDataHandler.process(&checkpoint).unwrap().is_empty());
}

#[test]
fn owner_variants_map_to_type_and_id_columns() {
    let (t, id) = owner_parts(&Owner::AddressOwner("0xdead".to_string()));
    assert_eq!(t, "address");
    assert_eq!(id, Some("0xdead".to_string()));

    let (t, id) = owner_parts(&Owner::ObjectOwner("0xbeef".to_string()));
    assert_eq!(t, "object");
    assert_eq!(id, Some("0xbeef".to_string()));

    let (t, id) = owner_parts(&Owner::Shared);
    assert_eq!(t, "shared");
    assert_eq!(id, None);

    let (t, id) = owner_parts(&Owner::Immutable);
    assert_eq!(t, "immutable");
    assert_eq!(id, None);

    let (t, id) = owner_parts(&Owner::ConsensusAddressOwner("0xcafe".to_string()));
    assert_eq!(t, "consensus_address");
    assert_eq!(id, Some("0xcafe".to_string()));
}

#[test]
fn object_transform_maps_owners_per_variant() {
    let checkpoint = Checkpoint {
        sequence_number: 3,
        transactions: vec![tx(
            "t1",
            vec![
                object("0x1", 1, Owner::AddressOwner("0xdead".to_string())),
                object("0x2", 1, Owner::Shared),
                object("0x3", 1, Owner::Immutable),
            ],
        )],
    };

    let rows = ObjectDataHandler.process(&checkpoint).unwrap();

    assert_eq!(rows.len(), 3);
    assert_eq!(rows[0].owner_type, Some("address".to_string()));
    assert_eq!(rows[0].owner_id, Some("0xdead".to_string()));
    assert_eq!(rows[1].owner_type, Some("shared".to_string()));
    assert_eq!(rows[1].owner_id, None);
    assert_eq!(rows[2].owner_type, Some("immutable".to_string()));
    assert_eq!(rows[2].owner_id, None);
}

#[test]
fn object_transform_keeps_flattened_output_order() {
    let checkpoint = Checkpoint {
        sequence_number: 12,
        transactions: vec![
            tx("t1", vec![object("0xa", 1, Owner::Immutable), object("0xb", 2, Owner::Shared)]),
            tx("t2", vec![object("0xc", 7, Owner::AddressOwner("0x9".to_string()))]),
        ],
    };

    let rows = ObjectDataHandler.process(&checkpoint).unwrap();

    let ids: Vec<&str> = rows.iter().map(|r| r.object_id.as_str()).collect();
    assert_eq!(ids, vec!["0xa", "0xb", "0xc"]);
    assert_eq!(rows[1].object_version, 2);
    assert_eq!(rows[2].object_version, 7);
    assert!(rows.iter().all(|r| r.checkpoint_sequence_number == 12));
}

#[test]
fn encoding_failure_aborts_the_whole_object_transform() {
    let mut bad = object("0xbad", 4, Owner::Shared);
    bad.bcs_encoding = None;
    let checkpoint = Checkpoint {
        sequence_number: 2,
        transactions: vec![
            tx("t1", vec![object("0xgood", 1, Owner::Immutable)]),
            tx("t2", vec![bad, object("0xlater", 1, Owner::Immutable)]),
        ],
    };

    let err = ObjectDataHandler.process(&checkpoint).unwrap_err();

    let TransformError::Serialization { object_id } = err;
    assert_eq!(object_id, "0xbad");
}

#[test]
fn object_rows_carry_type_and_encoding() {
    let mut obj = object("0x7", 11, Owner::AddressOwner("0x8".to_string()));
    obj.type_desc = Some("0x2::coin::Coin".to_string());
    obj.bcs_encoding = Some(vec![9, 8, 7]);
    let checkpoint = Checkpoint {
        sequence_number: 6,
        transactions: vec![tx("t1", vec![obj])],
    };

    let rows = ObjectDataHandler.process(&checkpoint).unwrap();

    assert_eq!(rows.len(), 1);
    assert_eq!(rows[0].object_id, "0x7");
    assert_eq!(rows[0].object_version, 11);
    assert_eq!(rows[0].object_digest, "digest-of-0x7");
    assert_eq!(rows[0].object_type, Some("0x2::coin::Coin".to_string()));
    assert_eq!(rows[0].object_bcs, Some(vec![9, 8, 7]));
}

#[test]
fn sequence_numbers_beyond_int8_wrap_like_a_cast() {
    // The store column is a signed 64-bit integer; a sequence number past
    // its range lands as the two's-complement reading of the same bits.
    let checkpoint = Checkpoint {
        sequence_number: u64::MAX,
        transactions: vec![tx("t", vec![])],
    };

    let rows = TransactionDigestHandler.process(&checkpoint);

    assert_eq!(rows[0].checkpoint_sequence_number, -1);
}

#[test]
fn batch_step_appends_in_order() {
    let checkpoint_a = Checkpoint {
        sequence_number: 1,
        transactions: vec![tx("a", vec![])],
    };
    let checkpoint_b = Checkpoint {
        sequence_number: 2,
        transactions: vec![tx("b", vec![])],
    };

    let handler = TransactionDigestHandler;
    let mut batch = Vec::new();
    handler.batch(&mut batch, handler.process(&checkpoint_a));
    handler.batch(&mut batch, handler.process(&checkpoint_b));

    assert_eq!(batch.len(), 2);
    assert_eq!(batch[0].tx_digest, "a");
    assert_eq!(batch[1].tx_digest, "b");
    assert_eq!(batch[1].checkpoint_sequence_number, 2);
}
