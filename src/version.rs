//! Named subgraphs and their versions: the two tables that link a name to
//! deployments, modelled as sequences of records, and what the queries over
//! them return.
use vstd::prelude::*;

verus! {

/// A row of the table of named subgraphs.
pub struct SubgraphRecord {
    pub id: Seq<char>,
    pub name: Seq<char>,
    /// The id of the version that currently backs the name, if any.
    pub current_version: Option<Seq<char>>,
    /// The id of the version that will back the name next, if any.
    pub pending_version: Option<Seq<char>>,
}

/// A row of the table of subgraph versions.
pub struct VersionRecord {
    pub id: Seq<char>,
    /// The id of the subgraph that the version belongs to.
    pub subgraph: Seq<char>,
    pub deployment: Seq<char>,
    pub created_at: int,
}

/// Which version of a named subgraph to resolve.
#[derive(Debug, Clone, Copy, PartialEq, Eq, Structural)]
pub enum VersionPointer {
    Current,
    Pending,
}

impl VersionPointer {
    pub fn from_use_current(use_current: bool) -> (r: VersionPointer)
        ensures
            r == (if use_current {
                VersionPointer::Current
            } else {
                VersionPointer::Pending
            }),
    {
        if use_current {
            VersionPointer::Current
        } else {
            VersionPointer::Pending
        }
    }

    /// The version id that this pointer reads from the subgraph `s`.
    pub open spec fn target(self, s: SubgraphRecord) -> Option<Seq<char>> {
        match self {
            VersionPointer::Current => s.current_version,
            VersionPointer::Pending => s.pending_version,
        }
    }
}

/// The join row of subgraph `s` and version `v`: `s` is named `name` and
/// its pointer `p` designates `v`.
pub open spec fn designates(
    s: SubgraphRecord,
    v: VersionRecord,
    name: Seq<char>,
    p: VersionPointer,
) -> bool {
    s.name == name && p.target(s) == Some(v.id)
}

/// `r` is what resolving `name` through pointer `p` may return: the
/// deployment of some row of the join, or nothing when the join is empty.
pub open spec fn resolves(
    subgraphs: Seq<SubgraphRecord>,
    versions: Seq<VersionRecord>,
    name: Seq<char>,
    p: VersionPointer,
    r: Option<Seq<char>>,
) -> bool {
    match r {
        None => forall|i: int, j: int|
            0 <= i < subgraphs.len() && 0 <= j < versions.len() ==> !designates(
                #[trigger] subgraphs[i],
                #[trigger] versions[j],
                name,
                p,
            ),
        Some(d) => exists|i: int, j: int|
            0 <= i < subgraphs.len() && 0 <= j < versions.len() && designates(
                #[trigger] subgraphs[i],
                #[trigger] versions[j],
                name,
                p,
            ) && versions[j].deployment == d,
    }
}

/// Names and ids of subgraphs are unique, and so are ids of versions.
pub open spec fn tables_keyed(subgraphs: Seq<SubgraphRecord>, versions: Seq<VersionRecord>) -> bool {
    &&& forall|i: int, j: int|
        0 <= i < subgraphs.len() && 0 <= j < subgraphs.len() && (#[trigger] subgraphs[i]).name == (
        #[trigger] subgraphs[j]).name ==> i == j
    &&& forall|i: int, j: int|
        0 <= i < subgraphs.len() && 0 <= j < subgraphs.len() && (#[trigger] subgraphs[i]).id == (
        #[trigger] subgraphs[j]).id ==> i == j
    &&& forall|i: int, j: int|
        0 <= i < versions.len() && 0 <= j < versions.len() && (#[trigger] versions[i]).id == (
        #[trigger] versions[j]).id ==> i == j
}

/// Resolving a name gives nothing when no subgraph has that name or when
/// its selected pointer is unset, and the deployment of the designated
/// version otherwise. Only the selected pointer is read: a pending lookup
/// is never answered through the current pointer, nor the reverse.
pub proof fn lemma_resolve_version(
    subgraphs: Seq<SubgraphRecord>,
    versions: Seq<VersionRecord>,
    name: Seq<char>,
    p: VersionPointer,
    r: Option<Seq<char>>,
)
    requires
        tables_keyed(subgraphs, versions),
        resolves(subgraphs, versions, name, p, r),
    ensures
        (forall|i: int| 0 <= i < subgraphs.len() ==> (#[trigger] subgraphs[i]).name != name) ==> r is None,
        forall|i: int|
            0 <= i < subgraphs.len() && (#[trigger] subgraphs[i]).name == name && p.target(subgraphs[i]) is None
                ==> r is None,
        forall|i: int, j: int|
            0 <= i < subgraphs.len() && 0 <= j < versions.len() && (#[trigger] subgraphs[i]).name == name
                && p.target(subgraphs[i]) == Some((#[trigger] versions[j]).id) ==> r == Some(
                versions[j].deployment,
            ),
        r matches Some(d) ==> exists|i: int, j: int|
            0 <= i < subgraphs.len() && 0 <= j < versions.len() && (#[trigger] subgraphs[i]).name == name
                && p.target(subgraphs[i]) == Some((#[trigger] versions[j]).id)
                && versions[j].deployment == d,
{
    if r is Some {
        let (i, j) = choose|i: int, j: int|
            0 <= i < subgraphs.len() && 0 <= j < versions.len() && designates(
                #[trigger] subgraphs[i],
                #[trigger] versions[j],
                name,
                p,
            ) && versions[j].deployment == r->Some_0;
        assert forall|i2: int, j2: int|
            0 <= i2 < subgraphs.len() && 0 <= j2 < versions.len() && (#[trigger] subgraphs[i2]).name == name
                && p.target(subgraphs[i2]) == Some((#[trigger] versions[j2]).id) implies r == Some(
            versions[j2].deployment,
        ) by {
            assert(subgraphs[i].name == subgraphs[i2].name);
            assert(i == i2);
            assert(versions[j].id == versions[j2].id);
        }
    }
}

/// The version `v` belongs to a subgraph named `name`.
pub open spec fn belongs_to_name(subgraphs: Seq<SubgraphRecord>, v: VersionRecord, name: Seq<char>) -> bool {
    exists|i: int|
        0 <= i < subgraphs.len() && (#[trigger] subgraphs[i]).id == v.subgraph && subgraphs[i].name == name
}

/// `order` lists each version of the subgraph named `name` once, by
/// ascending creation time.
pub open spec fn listing_order(
    subgraphs: Seq<SubgraphRecord>,
    versions: Seq<VersionRecord>,
    name: Seq<char>,
    order: Seq<int>,
) -> bool {
    &&& forall|k: int|
        0 <= k < order.len() ==> 0 <= #[trigger] order[k] < versions.len() && belongs_to_name(
            subgraphs,
            versions[order[k]],
            name,
        )
    &&& forall|k1: int, k2: int|
        0 <= k1 < k2 < order.len() ==> #[trigger] order[k1] != #[trigger] order[k2]
            && versions[order[k1]].created_at <= versions[order[k2]].created_at
    &&& forall|j: int|
        0 <= j < versions.len() && belongs_to_name(subgraphs, #[trigger] versions[j], name)
            ==> order.contains(j)
}

/// `r` is what listing the deployments of `name` may return: the
/// deployments of its versions in a listing order.
pub open spec fn lists(
    subgraphs: Seq<SubgraphRecord>,
    versions: Seq<VersionRecord>,
    name: Seq<char>,
    r: Seq<Seq<char>>,
) -> bool {
    exists|order: Seq<int>|
        #[trigger] listing_order(subgraphs, versions, name, order) && r.len() == order.len()
            && forall|k: int| 0 <= k < r.len() ==> #[trigger] r[k] == versions[order[k]].deployment
}

/// The deployments of a name come by ascending creation time of their
/// versions, and a name without versions has none.
pub proof fn lemma_deployments_for_name(
    subgraphs: Seq<SubgraphRecord>,
    versions: Seq<VersionRecord>,
    name: Seq<char>,
    r: Seq<Seq<char>>,
)
    requires
        lists(subgraphs, versions, name, r),
    ensures
        exists|created: Seq<int>|
            created.len() == r.len() && (forall|k1: int, k2: int|
                0 <= k1 < k2 < r.len() ==> #[trigger] created[k1] <= #[trigger] created[k2]) && (
            forall|k: int|
                0 <= k < r.len() ==> exists|j: int|
                    0 <= j < versions.len() && belongs_to_name(subgraphs, #[trigger] versions[j], name)
                        && versions[j].deployment == #[trigger] r[k] && versions[j].created_at
                        == created[k]),
        (forall|j: int|
            0 <= j < versions.len() ==> !belongs_to_name(subgraphs, #[trigger] versions[j], name))
            ==> r.len() == 0,
{
    let order = choose|order: Seq<int>|
        #[trigger] listing_order(subgraphs, versions, name, order) && r.len() == order.len()
            && forall|k: int| 0 <= k < r.len() ==> #[trigger] r[k] == versions[order[k]].deployment;
    let created = order.map_values(|j: int| versions[j].created_at);
    assert forall|k: int| 0 <= k < r.len() implies exists|j: int|
        0 <= j < versions.len() && belongs_to_name(subgraphs, #[trigger] versions[j], name)
            && versions[j].deployment == #[trigger] r[k] && versions[j].created_at == created[k] by {
        let j = order[k];
        assert(versions[j].deployment == r[k]);
    }
    assert forall|k1: int, k2: int| 0 <= k1 < k2 < r.len() implies #[trigger] created[k1]
        <= #[trigger] created[k2] by {
        assert(order[k1] != order[k2]);
    }
    assert(created.len() == r.len());
    if r.len() > 0 {
        assert(belongs_to_name(subgraphs, versions[order[0]], name));
    }
}

} // verus!
