use num_bigint::BigInt;
use subgraph_status::block::{block_pointer, BlockPointer};
use subgraph_status::detail::{statuses_from_details, Detail, Info};
use subgraph_status::error::{BlockField, StoreError, Violation};
use subgraph_status::health::{parse_health, SubgraphHealth};
use subgraph_status::numeric::Numeric;
use subgraph_status::query::DetailFilter;
use subgraph_status::version::VersionPointer;

fn numeric(unscaled: i128, scale: u16) -> Numeric {
    Numeric { unscaled: BigInt::from(unscaled).to_signed_bytes_le(), scale }
}

fn hash(b: u8) -> Vec<u8> {
    vec![b; 32]
}

fn detail(id: &str, health: &str) -> Detail {
    Detail {
        vid: 1,
        id: id.to_string(),
        manifest: "QmManifest".to_string(),
        failed: false,
        health: health.to_string(),
        synced: true,
        fatal_error: Some("fatal".to_string()),
        non_fatal_errors: vec!["minor".to_string()],
        earliest_ethereum_block_hash: None,
        earliest_ethereum_block_number: None,
        latest_ethereum_block_hash: None,
        latest_ethereum_block_number: None,
        entity_count: numeric(12, 0),
        graft_base: None,
        graft_block_hash: None,
        graft_block_number: None,
        ethereum_head_block_hash: Some(hash(7)),
        ethereum_head_block_number: Some(numeric(100, 0)),
        network: "mainnet".to_string(),
        node_id: Some("index_node_0".to_string()),
    }
}

fn pointer(r: Result<Option<BlockPointer>, StoreError>) -> Option<BlockPointer> {
    match r {
        Ok(p) => p,
        Err(e) => panic!("unexpected error {:?}", e),
    }
}

fn id() -> String {
    "QmDeployment".to_string()
}

#[test]
fn block_pointer_with_hash_and_number() {
    let p = pointer(block_pointer(&id(), BlockField::ChainHead, Some(hash(3)), Some(numeric(42, 0))));
    let p = p.unwrap();
    assert_eq!(p.hash, hash(3));
    assert_eq!(p.number, 42);
}

#[test]
fn block_pointer_without_hash_and_number() {
    assert!(pointer(block_pointer(&id(), BlockField::Latest, None, None)).is_none());
}

#[test]
fn block_pointer_with_hash_only() {
    let r = block_pointer(&id(), BlockField::Earliest, Some(hash(1)), None);
    match r {
        Err(StoreError::ConstraintViolation(Violation::IncompletePointer {
            deployment,
            field,
            hash: h,
            number,
        })) => {
            assert_eq!(deployment, id());
            assert_eq!(field, BlockField::Earliest);
            assert_eq!(h, Some(hash(1)));
            assert!(number.is_none());
        }
        other => panic!("unexpected {:?}", other),
    }
}

#[test]
fn block_pointer_with_number_only() {
    let r = block_pointer(&id(), BlockField::Latest, None, Some(numeric(5, 0)));
    match r {
        Err(StoreError::ConstraintViolation(Violation::IncompletePointer { field, hash, number, .. })) => {
            assert_eq!(field, BlockField::Latest);
            assert!(hash.is_none());
            assert_eq!(number.unwrap().unscaled, vec![5]);
        }
        other => panic!("unexpected {:?}", other),
    }
}

#[test]
fn block_number_largest_u64() {
    let p = pointer(block_pointer(
        &id(),
        BlockField::ChainHead,
        Some(hash(2)),
        Some(numeric(u64::MAX as i128, 0)),
    ));
    assert_eq!(p.unwrap().number, u64::MAX);
}

#[test]
fn block_number_beyond_u64() {
    let r = block_pointer(&id(), BlockField::ChainHead, Some(hash(2)), Some(numeric(1i128 << 64, 0)));
    match r {
        Err(StoreError::ConstraintViolation(Violation::UnrepresentableNumber { deployment, field, number })) => {
            assert_eq!(deployment, id());
            assert_eq!(field, BlockField::ChainHead);
            assert_eq!(number.unscaled, BigInt::from(1i128 << 64).to_signed_bytes_le());
        }
        other => panic!("unexpected {:?}", other),
    }
}

#[test]
fn block_number_negative() {
    let r = block_pointer(&id(), BlockField::ChainHead, Some(hash(2)), Some(numeric(-1, 0)));
    assert!(matches!(
        r,
        Err(StoreError::ConstraintViolation(Violation::UnrepresentableNumber { .. }))
    ));
}

#[test]
fn block_number_with_scale() {
    // 123.000 is the block number 123
    let p = pointer(block_pointer(&id(), BlockField::ChainHead, Some(hash(2)), Some(numeric(123000, 3))));
    assert_eq!(p.unwrap().number, 123);
    // 2^64 written with a scale is still out of range
    let r = block_pointer(
        &id(),
        BlockField::ChainHead,
        Some(hash(2)),
        Some(numeric((1i128 << 64) * 10, 1)),
    );
    assert!(r.is_err());
}

#[test]
fn block_number_fractional() {
    let r = block_pointer(&id(), BlockField::ChainHead, Some(hash(2)), Some(numeric(15, 1)));
    match r {
        Err(StoreError::ConstraintViolation(Violation::UnrepresentableNumber { field, number, .. })) => {
            assert_eq!(field, BlockField::ChainHead);
            assert_eq!(number.scale, 1);
        }
        other => panic!("unexpected {:?}", other),
    }
    // u64::MAX + 0.5 lies below 2^64 but is no integer
    let r = block_pointer(
        &id(),
        BlockField::Latest,
        Some(hash(2)),
        Some(numeric(u64::MAX as i128 * 10 + 5, 1)),
    );
    assert!(matches!(
        r,
        Err(StoreError::ConstraintViolation(Violation::UnrepresentableNumber { .. }))
    ));
}

#[test]
fn map_row_with_fractional_head_number() {
    let mut d = detail("QmF", "healthy");
    d.ethereum_head_block_number = Some(numeric(15, 1));
    assert!(matches!(
        Info::try_from_detail(d),
        Err(StoreError::ConstraintViolation(Violation::UnrepresentableNumber { .. }))
    ));
}

#[test]
fn block_number_zero() {
    let p = pointer(block_pointer(&id(), BlockField::ChainHead, Some(hash(0)), Some(numeric(0, 0))));
    assert_eq!(p.unwrap().number, 0);
}

#[test]
fn health_values() {
    assert_eq!(parse_health("healthy".to_string()).unwrap(), SubgraphHealth::Healthy);
    assert_eq!(parse_health("unhealthy".to_string()).unwrap(), SubgraphHealth::Unhealthy);
    assert_eq!(parse_health("failed".to_string()).unwrap(), SubgraphHealth::Failed);
    match parse_health("Healthy".to_string()) {
        Err(StoreError::ConstraintViolation(Violation::UnknownHealth { value })) => {
            assert_eq!(value, "Healthy")
        }
        other => panic!("unexpected {:?}", other),
    }
}

#[test]
fn map_healthy_row_with_chain_head() {
    let info: Info = Info::try_from_detail(detail("QmA", "healthy")).unwrap();
    assert_eq!(info.subgraph, "QmA");
    assert!(info.synced);
    assert_eq!(info.health, SubgraphHealth::Healthy);
    assert!(info.fatal_error.is_none());
    assert!(info.non_fatal_errors.is_empty());
    assert_eq!(info.node, Some("index_node_0".to_string()));
    assert_eq!(info.chains.len(), 1);
    let chain = &info.chains[0];
    assert_eq!(chain.network, "mainnet");
    let head = chain.chain_head_block.as_ref().unwrap();
    assert_eq!(head.hash, hash(7));
    assert_eq!(head.number, 100);
    assert!(chain.earliest_block.is_none());
    assert!(chain.latest_block.is_none());
}

#[test]
fn map_row_with_all_pointers() {
    let mut d = detail("QmB", "failed");
    d.earliest_ethereum_block_hash = Some(hash(1));
    d.earliest_ethereum_block_number = Some(numeric(10, 0));
    d.latest_ethereum_block_hash = Some(hash(9));
    d.latest_ethereum_block_number = Some(numeric(90, 0));
    let info = Info::try_from_detail(d).unwrap();
    assert_eq!(info.health, SubgraphHealth::Failed);
    let chain = &info.chains[0];
    assert_eq!(chain.earliest_block.as_ref().unwrap().number, 10);
    assert_eq!(chain.latest_block.as_ref().unwrap().number, 90);
    assert_eq!(chain.latest_block.as_ref().unwrap().hash, hash(9));
}

#[test]
fn map_row_with_unknown_health() {
    match Info::try_from_detail(detail("QmC", "sick")) {
        Err(StoreError::ConstraintViolation(Violation::UnknownHealth { value })) => {
            assert_eq!(value, "sick")
        }
        other => panic!("unexpected {:?}", other),
    }
}

#[test]
fn map_row_reports_chain_head_first() {
    let mut d = detail("QmD", "sick");
    d.ethereum_head_block_number = None;
    d.latest_ethereum_block_hash = Some(hash(4));
    match Info::try_from_detail(d) {
        Err(StoreError::ConstraintViolation(Violation::IncompletePointer { deployment, field, .. })) => {
            assert_eq!(deployment, "QmD");
            assert_eq!(field, BlockField::ChainHead);
        }
        other => panic!("unexpected {:?}", other),
    }
}

#[test]
fn map_row_with_incomplete_latest() {
    let mut d = detail("QmE", "healthy");
    d.latest_ethereum_block_number = Some(numeric(3, 0));
    match Info::try_from_detail(d) {
        Err(StoreError::ConstraintViolation(Violation::IncompletePointer { field, .. })) => {
            assert_eq!(field, BlockField::Latest);
        }
        other => panic!("unexpected {:?}", other),
    }
}

#[test]
fn statuses_of_no_rows() {
    assert!(statuses_from_details(vec![]).unwrap().is_empty());
}

#[test]
fn statuses_keep_row_order() {
    let infos = statuses_from_details(vec![
        detail("Qm1", "healthy"),
        detail("Qm2", "unhealthy"),
        detail("Qm3", "failed"),
    ])
    .unwrap();
    let ids: Vec<&str> = infos.iter().map(|i| i.subgraph.as_str()).collect();
    assert_eq!(ids, vec!["Qm1", "Qm2", "Qm3"]);
    assert_eq!(infos[1].health, SubgraphHealth::Unhealthy);
}

#[test]
fn statuses_abort_on_first_violation() {
    let r = statuses_from_details(vec![
        detail("Qm1", "healthy"),
        detail("Qm2", "bad"),
        detail("Qm3", "worse"),
    ]);
    match r {
        Err(StoreError::ConstraintViolation(Violation::UnknownHealth { value })) => {
            assert_eq!(value, "bad")
        }
        other => panic!("unexpected {:?}", other),
    }
}

#[test]
fn empty_id_list_means_all() {
    assert!(matches!(DetailFilter::from_ids(vec![]), DetailFilter::All));
    match DetailFilter::from_ids(vec!["QmA".to_string()]) {
        DetailFilter::Ids(ids) => assert_eq!(ids, vec!["QmA".to_string()]),
        DetailFilter::All => panic!("a non-empty list is not all"),
    }
}

#[test]
fn version_pointer_from_flag() {
    assert_eq!(VersionPointer::from_use_current(true), VersionPointer::Current);
    assert_eq!(VersionPointer::from_use_current(false), VersionPointer::Pending);
}

#[test]
fn block_field_names() {
    assert_eq!(BlockField::ChainHead.name(), "ethereum_head_block");
    assert_eq!(BlockField::Earliest.name(), "earliest_ethereum_block");
    assert_eq!(BlockField::Latest.name(), "latest_ethereum_block");
}
