//! The raw rows of the deployment detail view and the status records built
//! from them.
use crate::block::{block_pointer, block_pointer_spec, hash_ok, BlockPointer};
use crate::error::{BlockField, StoreError, Violation};
use crate::health::{health_of, parse_health, SubgraphHealth};
use crate::numeric::Numeric;
use vstd::prelude::*;

verus! {

/// One row of the read-only view that describes a deployment.
#[derive(Debug)]
pub struct Detail {
    pub vid: i64,
    pub id: String,
    pub manifest: String,
    pub failed: bool,
    pub health: String,
    pub synced: bool,
    pub fatal_error: Option<String>,
    pub non_fatal_errors: Vec<String>,
    pub earliest_ethereum_block_hash: Option<Vec<u8>>,
    pub earliest_ethereum_block_number: Option<Numeric>,
    pub latest_ethereum_block_hash: Option<Vec<u8>>,
    pub latest_ethereum_block_number: Option<Numeric>,
    pub entity_count: Numeric,
    pub graft_base: Option<String>,
    pub graft_block_hash: Option<Vec<u8>>,
    pub graft_block_number: Option<Numeric>,
    pub ethereum_head_block_hash: Option<Vec<u8>>,
    pub ethereum_head_block_number: Option<Numeric>,
    pub network: String,
    pub node_id: Option<String>,
}

/// The state of a deployment on one chain.
#[derive(Debug)]
pub struct ChainInfo {
    pub network: String,
    pub chain_head_block: Option<BlockPointer>,
    pub earliest_block: Option<BlockPointer>,
    pub latest_block: Option<BlockPointer>,
}

/// The indexing status of a deployment.
#[derive(Debug)]
pub struct Info {
    pub subgraph: String,
    pub synced: bool,
    pub health: SubgraphHealth,
    pub fatal_error: Option<String>,
    pub non_fatal_errors: Vec<String>,
    pub chains: Vec<ChainInfo>,
    pub node: Option<String>,
}

impl Detail {
    /// Every complete block pointer that the status reads has a hash of the
    /// length of a block hash.
    pub open spec fn wf(&self) -> bool {
        &&& hash_ok(self.ethereum_head_block_hash, self.ethereum_head_block_number)
        &&& hash_ok(self.earliest_ethereum_block_hash, self.earliest_ethereum_block_number)
        &&& hash_ok(self.latest_ethereum_block_hash, self.latest_ethereum_block_number)
    }

    pub open spec fn chain_head_spec(&self) -> Result<Option<BlockPointer>, StoreError> {
        block_pointer_spec(
            self.id,
            BlockField::ChainHead,
            self.ethereum_head_block_hash,
            self.ethereum_head_block_number,
        )
    }

    pub open spec fn earliest_spec(&self) -> Result<Option<BlockPointer>, StoreError> {
        block_pointer_spec(
            self.id,
            BlockField::Earliest,
            self.earliest_ethereum_block_hash,
            self.earliest_ethereum_block_number,
        )
    }

    pub open spec fn latest_spec(&self) -> Result<Option<BlockPointer>, StoreError> {
        block_pointer_spec(
            self.id,
            BlockField::Latest,
            self.latest_ethereum_block_hash,
            self.latest_ethereum_block_number,
        )
    }

    /// The first violation in the row, checking the chain head, the earliest
    /// block, the latest block and the health in this order.
    pub open spec fn violation(&self) -> Option<StoreError> {
        if self.chain_head_spec() is Err {
            Some(self.chain_head_spec()->Err_0)
        } else if self.earliest_spec() is Err {
            Some(self.earliest_spec()->Err_0)
        } else if self.latest_spec() is Err {
            Some(self.latest_spec()->Err_0)
        } else if health_of(self.health@) is None {
            Some(
                StoreError::ConstraintViolation(Violation::UnknownHealth { value: self.health }),
            )
        } else {
            None
        }
    }

    /// `info` is the status of this row, which has no violation.
    pub open spec fn describes(&self, info: Info) -> bool {
        &&& info.subgraph == self.id
        &&& info.synced == self.synced
        &&& health_of(self.health@) == Some(info.health)
        &&& info.fatal_error is None
        &&& info.non_fatal_errors@.len() == 0
        &&& info.node == self.node_id
        &&& info.chains@.len() == 1
        &&& info.chains@[0].network == self.network
        &&& self.chain_head_spec() == Ok::<Option<BlockPointer>, StoreError>(info.chains@[0].chain_head_block)
        &&& self.earliest_spec() == Ok::<Option<BlockPointer>, StoreError>(info.chains@[0].earliest_block)
        &&& self.latest_spec() == Ok::<Option<BlockPointer>, StoreError>(info.chains@[0].latest_block)
    }
}

impl Info {
    /// Builds the status of a deployment from its row. A violation in the
    /// row fails the whole row; the first one found is returned. Error
    /// details of the row are not carried over.
    pub fn try_from_detail(detail: Detail) -> (r: Result<Info, StoreError>)
        requires
            detail.wf(),
        ensures
            match detail.violation() {
                Some(e) => r == Err::<Info, StoreError>(e),
                None => r matches Ok(info) && detail.describes(info),
            },
    {
        let ghost d = detail;
        let Detail {
            vid: _,
            id,
            manifest: _,
            failed: _,
            health,
            synced,
            fatal_error: _,
            non_fatal_errors: _,
            earliest_ethereum_block_hash,
            earliest_ethereum_block_number,
            latest_ethereum_block_hash,
            latest_ethereum_block_number,
            entity_count: _,
            graft_base: _,
            graft_block_hash: _,
            graft_block_number: _,
            ethereum_head_block_hash,
            ethereum_head_block_number,
            network,
            node_id,
        } = detail;
        let chain_head_block = match block_pointer(
            &id,
            BlockField::ChainHead,
            ethereum_head_block_hash,
            ethereum_head_block_number,
        ) {
            Ok(p) => p,
            Err(e) => return Err(e),
        };
        let earliest_block = match block_pointer(
            &id,
            BlockField::Earliest,
            earliest_ethereum_block_hash,
            earliest_ethereum_block_number,
        ) {
            Ok(p) => p,
            Err(e) => return Err(e),
        };
        let latest_block = match block_pointer(
            &id,
            BlockField::Latest,
            latest_ethereum_block_hash,
            latest_ethereum_block_number,
        ) {
            Ok(p) => p,
            Err(e) => return Err(e),
        };
        let health = match parse_health(health) {
            Ok(h) => h,
            Err(e) => return Err(e),
        };
        let chain = ChainInfo { network, chain_head_block, earliest_block, latest_block };
        let chains = vec![chain];
        Ok(Info {
            subgraph: id,
            synced,
            health,
            fatal_error: None,
            non_fatal_errors: Vec::new(),
            chains,
            node: node_id,
        })
    }
}

/// The statuses of the rows `details`, in their order. The first row with a
/// violation aborts the whole batch with that violation.
pub fn statuses_from_details(details: Vec<Detail>) -> (r: Result<Vec<Info>, StoreError>)
    requires
        forall|i: int| 0 <= i < details@.len() ==> #[trigger] details@[i].wf(),
    ensures
        r is Ok <==> forall|i: int| 0 <= i < details@.len() ==> (#[trigger] details@[i].violation()) is None,
        r matches Ok(infos) ==> infos@.len() == details@.len() && forall|i: int|
            0 <= i < details@.len() ==> #[trigger] details@[i].describes(infos@[i]),
        r matches Err(e) ==> exists|i: int|
            0 <= i < details@.len() && #[trigger] details@[i].violation() == Some(e) && forall|j: int|
                0 <= j < i ==> (#[trigger] details@[j].violation()) is None,
{
    let ghost d = details@;
    let n = details.len();
    let mut rest = details;
    let mut stack: Vec<Detail> = Vec::new();
    while rest.len() > 0
        invariant
            rest@.len() + stack@.len() == n,
            n == d.len(),
            rest@ == d.subrange(0, rest@.len() as int),
            forall|j: int| 0 <= j < stack@.len() ==> stack@[j] == d[n - 1 - j],
        decreases rest@.len(),
    {
        let row = rest.pop().unwrap();
        stack.push(row);
    }
    let mut infos: Vec<Info> = Vec::new();
    while stack.len() > 0
        invariant
            n == d.len(),
            d == details@,
            infos@.len() + stack@.len() == n,
            forall|j: int| 0 <= j < stack@.len() ==> stack@[j] == d[n - 1 - j],
            forall|j: int| 0 <= j < d.len() ==> #[trigger] d[j].wf(),
            forall|j: int|
                #![trigger d[j]]
                0 <= j < infos@.len() ==> {
                    &&& (#[trigger] d[j].violation()) is None
                    &&& d[j].describes(infos@[j])
                },
        decreases stack@.len(),
    {
        let ghost i = infos@.len() as int;
        let row = stack.pop().unwrap();
        match Info::try_from_detail(row) {
            Ok(info) => infos.push(info),
            Err(e) => {
                assert(d[i].violation() == Some(e));
                assert(exists|k: int|
                    0 <= k < d.len() && #[trigger] d[k].violation() == Some(e) && forall|j: int|
                        0 <= j < k ==> (#[trigger] d[j].violation()) is None);
                return Err(e);
            },
        }
    }
    assert(forall|j: int| 0 <= j < d.len() ==> #[trigger] d[j].describes(infos@[j]));
    Ok(infos)
}

} // verus!
