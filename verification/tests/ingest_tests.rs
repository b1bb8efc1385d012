use chain_cache::Block;
use chain_cache::BlockBody;
use chain_cache::BlockHeader;
use chain_cache::Authenticator;
use chain_cache::RawTxn;
use chain_cache::Transaction;
use chain_cache::TransactionStub;
use chain_cache::UserTransaction;
use chain_cache::fetch::AttemptOutcome;
use chain_cache::fetch::FetchError;
use chain_cache::fetch::run_fetch;
use chain_cache::ingest::AbortCause;
use chain_cache::ingest::Ingestion;
use chain_cache::query::QueryError;
use chain_cache::query::get_block_handler;
use chain_cache::query::get_transaction_handler;

fn block_at(number: u64, stub_hashes: &[&str]) -> Block {
    Block {
        header: BlockHeader {
            author: "0x1".to_string(),
            author_auth_key: None,
            block_hash: format!("0xblock{}", number),
            body_hash: "0xbody".to_string(),
            chain_id: 1,
            nonce: 0,
            timestamp: 1000 + number,
            difficulty: "1".to_string(),
            extra: "".to_string(),
            gas_used: 0,
            number,
            parent_hash: "0xparent".to_string(),
            state_root: "0xroot".to_string(),
            txn_accumulator_root: "0xacc".to_string(),
        },
        body: BlockBody {
            full: stub_hashes
                .iter()
                .map(|h| TransactionStub { transaction_hash: h.to_string() })
                .collect(),
        },
    }
}

fn txn_with_hash(hash: &str) -> Transaction {
    Transaction {
        _id: None,
        block_hash: "0xabc".to_string(),
        block_number: "1".to_string(),
        event_root_hash: "0xev".to_string(),
        events: vec![],
        gas_used: "0".to_string(),
        state_root_hash: "0xroot".to_string(),
        status: "Executed".to_string(),
        timestamp: 1,
        transaction_global_index: 0,
        transaction_hash: hash.to_string(),
        transaction_index: 0,
        transaction_type: "UserTransaction".to_string(),
        user_transaction: UserTransaction {
            transaction_hash: hash.to_string(),
            authenticator: Authenticator { ed25519: None },
            raw_txn: RawTxn {
                chain_id: 1,
                decoded_payload: "".to_string(),
                expiration_timestamp_secs: "0".to_string(),
                gas_token_code: "STC".to_string(),
                gas_unit_price: "1".to_string(),
                max_gas_amount: "1".to_string(),
                payload: "".to_string(),
                sender: "0xsender".to_string(),
                sequence_number: "0".to_string(),
                transaction_hash: hash.to_string(),
            },
        },
    }
}

#[test]
fn successful_height_links_every_stub() {
    let mut run = Ingestion::new(1, 2);
    let block = block_at(1, &["0xaaa", "0xbbb"]);
    let mut txns = vec![txn_with_hash("0xaaa"), txn_with_hash("0xbbb")];
    assert_eq!(run.ingest_height(block, &mut txns), Ok(()));
    assert!(!run.is_running());
    let store = run.into_store();
    let stored = get_block_handler(&store, 1).expect("height 1 is cached");
    assert_eq!(stored, block_at(1, &["0xaaa", "0xbbb"]));
    for stub in &stored.body.full {
        let txn = get_transaction_handler(&store, &stub.transaction_hash)
            .expect("every stub of a cached block resolves");
        assert_eq!(txn.transaction_hash, stub.transaction_hash);
        assert_eq!(txn, txn_with_hash(&stub.transaction_hash));
    }
}

#[test]
fn report_counts_blocks_and_transactions() {
    let mut run = Ingestion::new(1, 3);
    let mut txns1 = vec![txn_with_hash("0xaaa")];
    assert_eq!(run.ingest_height(block_at(1, &["0xaaa"]), &mut txns1), Ok(()));
    let mut txns2 = vec![txn_with_hash("0xbbb"), txn_with_hash("0xccc")];
    assert_eq!(run.ingest_height(block_at(2, &["0xbbb", "0xccc"]), &mut txns2), Ok(()));
    let report = run.report();
    assert_eq!(report.blocks_cached, 2);
    assert_eq!(report.transactions_cached, 3);
    assert_eq!(report.aborted, None);
}

#[test]
fn duplicate_stub_hash_is_stored_once() {
    let mut run = Ingestion::new(1, 3);
    let mut txns1 = vec![txn_with_hash("0xsame")];
    assert_eq!(run.ingest_height(block_at(1, &["0xsame"]), &mut txns1), Ok(()));
    let mut txns2 = vec![txn_with_hash("0xsame")];
    assert_eq!(run.ingest_height(block_at(2, &["0xsame"]), &mut txns2), Ok(()));
    let report = run.report();
    assert_eq!(report.blocks_cached, 2);
    assert_eq!(report.transactions_cached, 1);
}

#[test]
fn block_number_mismatch_aborts_with_store_untouched() {
    let mut run = Ingestion::new(5, 10);
    let mut txns = vec![];
    let r = run.ingest_height(block_at(7, &[]), &mut txns);
    assert_eq!(r, Err(AbortCause::BlockNumberMismatch));
    assert!(!run.is_running());
    let report = run.report();
    assert_eq!(report.blocks_cached, 0);
    assert_eq!(report.aborted, Some((5, AbortCause::BlockNumberMismatch)));
    let store = run.into_store();
    assert_eq!(get_block_handler(&store, 7), Err(QueryError::NotFound));
}

#[test]
fn transaction_count_mismatch_aborts() {
    let mut run = Ingestion::new(1, 2);
    let mut txns = vec![];
    let r = run.ingest_height(block_at(1, &["0xaaa"]), &mut txns);
    assert_eq!(r, Err(AbortCause::TransactionCountMismatch));
    assert_eq!(run.report().aborted, Some((1, AbortCause::TransactionCountMismatch)));
}

#[test]
fn transaction_hash_mismatch_aborts_naming_the_stub() {
    let mut run = Ingestion::new(1, 2);
    let mut txns = vec![txn_with_hash("0xother")];
    let r = run.ingest_height(block_at(1, &["0xwanted"]), &mut txns);
    assert_eq!(
        r,
        Err(AbortCause::TransactionHashMismatch { transaction_hash: "0xwanted".to_string() })
    );
    let store = run.into_store();
    assert_eq!(get_block_handler(&store, 1), Err(QueryError::NotFound));
    assert_eq!(get_transaction_handler(&store, "0xother"), Err(QueryError::NotFound));
}

#[test]
fn retry_succeeds_within_bound() {
    let mut outcomes: Vec<AttemptOutcome<u64>> = vec![AttemptOutcome::Success(7)];
    assert_eq!(run_fetch(&mut outcomes), Ok(7));

    let mut outcomes: Vec<AttemptOutcome<u64>> = vec![
        AttemptOutcome::TransientFailure,
        AttemptOutcome::TransientFailure,
        AttemptOutcome::TransientFailure,
        AttemptOutcome::Success(7),
    ];
    assert_eq!(run_fetch(&mut outcomes), Ok(7));

    let mut outcomes: Vec<AttemptOutcome<u64>> = vec![AttemptOutcome::TransientFailure; 8];
    outcomes.push(AttemptOutcome::Success(7));
    assert_eq!(run_fetch(&mut outcomes), Ok(7));
}

#[test]
fn retry_bound_reached_reports_exhausted() {
    let mut outcomes: Vec<AttemptOutcome<u64>> = vec![AttemptOutcome::TransientFailure; 9];
    assert_eq!(run_fetch(&mut outcomes), Err(FetchError::Exhausted));

    let mut outcomes: Vec<AttemptOutcome<u64>> = vec![AttemptOutcome::TransientFailure; 9];
    outcomes.push(AttemptOutcome::Success(7));
    assert_eq!(run_fetch(&mut outcomes), Err(FetchError::Exhausted));
}

#[test]
fn scenario_single_height_served_after_ingestion() {
    let mut block_attempts = vec![AttemptOutcome::Success(block_at(100, &["0x123"]))];
    let block = run_fetch(&mut block_attempts).expect("first attempt succeeds");
    let mut txn_attempts = vec![AttemptOutcome::Success(txn_with_hash("0x123"))];
    let txn = run_fetch(&mut txn_attempts).expect("first attempt succeeds");

    let mut run = Ingestion::new(100, 101);
    let mut txns = vec![txn];
    assert_eq!(run.ingest_height(block, &mut txns), Ok(()));
    let store = run.into_store();

    let served = get_block_handler(&store, 100).expect("block 100 is served");
    assert_eq!(served.header.number, 100);
    let served_txn = get_transaction_handler(&store, "0x123").expect("0x123 is served");
    assert_eq!(served_txn.transaction_hash, "0x123");
    assert_eq!(get_block_handler(&store, 999), Err(QueryError::NotFound));
    assert_eq!(get_transaction_handler(&store, "0xdead"), Err(QueryError::NotFound));
}

#[test]
fn scenario_abort_leaves_strict_prefix() {
    let mut run = Ingestion::new(49, 60);
    let mut txns = vec![txn_with_hash("0x49a")];
    assert_eq!(run.ingest_height(block_at(49, &["0x49a"]), &mut txns), Ok(()));

    let mut attempts: Vec<AttemptOutcome<Block>> = vec![AttemptOutcome::TransientFailure; 10];
    assert_eq!(run_fetch(&mut attempts), Err(FetchError::Exhausted));
    run.record_abort(AbortCause::BlockFetchExhausted);

    let report = run.report();
    assert_eq!(report.aborted, Some((50, AbortCause::BlockFetchExhausted)));
    assert_eq!(report.blocks_cached, 1);

    let store = run.into_store();
    assert!(get_block_handler(&store, 49).is_ok());
    assert_eq!(get_block_handler(&store, 50), Err(QueryError::NotFound));
    assert_eq!(get_block_handler(&store, 51), Err(QueryError::NotFound));
    assert_eq!(get_block_handler(&store, 59), Err(QueryError::NotFound));
}

#[test]
fn abort_during_transactions_never_exposes_the_block() {
    let mut run = Ingestion::new(1, 3);
    let mut txns = vec![txn_with_hash("0xaaa")];
    assert_eq!(run.ingest_height(block_at(1, &["0xaaa"]), &mut txns), Ok(()));

    let mut attempts: Vec<AttemptOutcome<Transaction>> =
        vec![AttemptOutcome::TransientFailure; 9];
    assert_eq!(run_fetch(&mut attempts), Err(FetchError::Exhausted));
    run.record_abort(AbortCause::TransactionFetchExhausted {
        transaction_hash: "0xbbb".to_string(),
    });

    let report = run.report();
    assert_eq!(
        report.aborted,
        Some((2, AbortCause::TransactionFetchExhausted { transaction_hash: "0xbbb".to_string() }))
    );
    let store = run.into_store();
    assert!(get_block_handler(&store, 1).is_ok());
    assert_eq!(get_block_handler(&store, 2), Err(QueryError::NotFound));
}
