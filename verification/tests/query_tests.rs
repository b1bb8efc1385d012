use chain_cache::Block;
use chain_cache::BlockBody;
use chain_cache::BlockHeader;
use chain_cache::Authenticator;
use chain_cache::Ed25519;
use chain_cache::RawTxn;
use chain_cache::Transaction;
use chain_cache::TransactionStub;
use chain_cache::UserTransaction;
use chain_cache::query::QueryError;
use chain_cache::query::get_block_handler;
use chain_cache::query::get_transaction_handler;
use chain_cache::query::lookup_status;
use chain_cache::query::parse_height;
use chain_cache::store::CacheStore;

fn mock_block() -> Block {
    Block {
        header: BlockHeader {
            author: "0x1".to_string(),
            author_auth_key: None,
            block_hash: "0xabc".to_string(),
            body_hash: "0xdef".to_string(),
            chain_id: 1,
            nonce: 123,
            timestamp: 1234567890,
            difficulty: "100".to_string(),
            extra: "".to_string(),
            gas_used: 1000,
            number: 100,
            parent_hash: "0xparent".to_string(),
            state_root: "0xstateroot".to_string(),
            txn_accumulator_root: "0xtxnroot".to_string(),
        },
        body: BlockBody {
            full: vec![TransactionStub { transaction_hash: "0x123".to_string() }],
        },
    }
}

fn mock_transaction() -> Transaction {
    Transaction {
        _id: None,
        block_hash: "0xabc".to_string(),
        block_number: "100".to_string(),
        event_root_hash: "0xeventroot".to_string(),
        events: vec![],
        gas_used: "500".to_string(),
        state_root_hash: "0xstateroot".to_string(),
        status: "Executed".to_string(),
        timestamp: 1234567890,
        transaction_global_index: 1,
        transaction_hash: "0x123".to_string(),
        transaction_index: 0,
        transaction_type: "UserTransaction".to_string(),
        user_transaction: UserTransaction {
            transaction_hash: "0x123".to_string(),
            authenticator: Authenticator {
                ed25519: Some(Ed25519 {
                    public_key: "0xpubkey".to_string(),
                    signature: "0xsig".to_string(),
                }),
            },
            raw_txn: RawTxn {
                chain_id: 1,
                decoded_payload: "".to_string(),
                expiration_timestamp_secs: "1234567890".to_string(),
                gas_token_code: "STC".to_string(),
                gas_unit_price: "1".to_string(),
                max_gas_amount: "10000".to_string(),
                payload: "".to_string(),
                sender: "0xsender".to_string(),
                sequence_number: "1".to_string(),
                transaction_hash: "0x123".to_string(),
            },
        },
    }
}

fn create_test_store() -> CacheStore {
    let mut store = CacheStore::new();
    store.put_transaction("0x123".to_string(), mock_transaction());
    store.put_block(100, mock_block());
    store
}

#[test]
fn test_get_block_handler_found() {
    let store = create_test_store();
    let response = get_block_handler(&store, 100);
    assert_eq!(lookup_status(&response), 200);
}

#[test]
fn test_get_block_handler_not_found() {
    let store = create_test_store();
    let response = get_block_handler(&store, 999);
    assert_eq!(lookup_status(&response), 404);
}

#[test]
fn test_get_transaction_handler_found() {
    let store = create_test_store();
    let response = get_transaction_handler(&store, "0x123");
    assert_eq!(lookup_status(&response), 200);
}

#[test]
fn test_get_transaction_handler_not_found() {
    let store = create_test_store();
    let response = get_transaction_handler(&store, "0xnonexistent");
    assert_eq!(lookup_status(&response), 404);
}

#[test]
fn repeated_lookups_are_bit_identical() {
    let store = create_test_store();
    let first = get_block_handler(&store, 100);
    let second = get_block_handler(&store, 100);
    assert_eq!(first, second);
    let t1 = get_transaction_handler(&store, "0x123");
    let t2 = get_transaction_handler(&store, "0x123");
    assert_eq!(t1, t2);
}

#[test]
fn lookup_returns_entry_with_matching_key() {
    let store = create_test_store();
    let block = get_block_handler(&store, 100).expect("block 100 is cached");
    assert_eq!(block.header.number, 100);
    let txn = get_transaction_handler(&store, "0x123").expect("0x123 is cached");
    assert_eq!(txn.transaction_hash, "0x123");
}

#[test]
fn absent_keys_report_not_found() {
    let store = CacheStore::new();
    assert_eq!(get_block_handler(&store, 1), Err(QueryError::NotFound));
    assert_eq!(get_block_handler(&store, 0), Err(QueryError::NotFound));
    assert_eq!(
        get_transaction_handler(&store, ""),
        Err(QueryError::NotFound)
    );
    assert_eq!(
        get_transaction_handler(&store, "0xdead"),
        Err(QueryError::NotFound)
    );
}

#[test]
fn stored_entries_come_back_unchanged() {
    let store = create_test_store();
    let block = get_block_handler(&store, 100).expect("block 100 is cached");
    assert_eq!(block, mock_block());
    let txn = get_transaction_handler(&store, "0x123").expect("0x123 is cached");
    assert_eq!(txn, mock_transaction());
}

#[test]
fn parse_height_accepts_plain_decimals() {
    assert_eq!(parse_height("0"), Some(0));
    assert_eq!(parse_height("100"), Some(100));
    assert_eq!(parse_height("20000"), Some(20000));
    assert_eq!(parse_height("18446744073709551615"), Some(u64::MAX));
}

#[test]
fn parse_height_rejects_everything_else() {
    assert_eq!(parse_height(""), None);
    assert_eq!(parse_height("12a"), None);
    assert_eq!(parse_height("0x123"), None);
    assert_eq!(parse_height("-1"), None);
    assert_eq!(parse_height(" 5"), None);
    assert_eq!(parse_height("18446744073709551616"), None);
}
