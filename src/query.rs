//! What the queries against the store select: the filter of the detail
//! load, the version pointer that names a deployment, and the tables that
//! the queries read, modelled as sequences of records.
use crate::detail::{Detail, Info};
use vstd::prelude::*;

verus! {

/// Which rows of the detail view to load.
#[derive(Debug)]
pub enum DetailFilter {
    /// Every deployment in the view.
    All,
    /// The deployments with one of these ids.
    Ids(Vec<String>),
}

/// The filter that a list of ids stands for: an empty list means every
/// deployment, not none.
pub open spec fn filter_of(ids: Vec<String>) -> DetailFilter {
    if ids@.len() == 0 {
        DetailFilter::All
    } else {
        DetailFilter::Ids(ids)
    }
}

impl DetailFilter {
    pub fn from_ids(ids: Vec<String>) -> (r: DetailFilter)
        ensures
            r == filter_of(ids),
    {
        if ids.len() == 0 {
            DetailFilter::All
        } else {
            DetailFilter::Ids(ids)
        }
    }

    /// The filter lets the deployment `id` through.
    pub open spec fn admits(&self, id: Seq<char>) -> bool {
        match *self {
            DetailFilter::All => true,
            DetailFilter::Ids(ids) => exists|j: int| 0 <= j < ids.len() && (#[trigger] ids@[j])@ == id,
        }
    }
}

/// Deployment ids are a key of the view.
pub open spec fn ids_unique(rows: Seq<Detail>) -> bool {
    forall|i: int, j: int|
        0 <= i < rows.len() && 0 <= j < rows.len() && (#[trigger] rows[i]).id@ == (#[trigger] rows[j]).id@
            ==> i == j
}

/// `rows` is what loading the view `view` under `filter` may return: each
/// admitted row once, in any order.
pub open spec fn is_load(view: Seq<Detail>, filter: DetailFilter, rows: Seq<Detail>) -> bool {
    &&& ids_unique(rows)
    &&& forall|i: int|
        0 <= i < rows.len() ==> view.contains(#[trigger] rows[i]) && filter.admits(rows[i].id@)
    &&& forall|i: int|
        0 <= i < view.len() && filter.admits((#[trigger] view[i]).id@) ==> rows.contains(view[i])
}

/// `infos` is the successful result of mapping `rows` to statuses.
pub open spec fn are_statuses(rows: Seq<Detail>, infos: Seq<Info>) -> bool {
    &&& infos.len() == rows.len()
    &&& forall|i: int| 0 <= i < rows.len() ==> #[trigger] rows[i].describes(infos[i])
}

/// The deployments whose statuses `infos` are.
pub open spec fn status_ids(infos: Seq<Info>) -> Set<Seq<char>> {
    Set::new(|s: Seq<char>| exists|i: int| 0 <= i < infos.len() && (#[trigger] infos[i]).subgraph@ == s)
}

/// The deployments of the rows `rows`.
pub open spec fn row_ids(rows: Seq<Detail>) -> Set<Seq<char>> {
    Set::new(|s: Seq<char>| exists|i: int| 0 <= i < rows.len() && (#[trigger] rows[i]).id@ == s)
}

/// Loading with an empty list of ids gives the statuses of every deployment
/// in the view; loading with the id of one deployment gives exactly its
/// status; loading with an id that the view lacks gives no row, and so no
/// status and no error.
pub proof fn lemma_statuses_of_load(
    view: Seq<Detail>,
    ids: Vec<String>,
    rows: Seq<Detail>,
    infos: Seq<Info>,
)
    requires
        ids_unique(view),
        is_load(view, filter_of(ids), rows),
        are_statuses(rows, infos),
    ensures
        ids@.len() == 0 ==> status_ids(infos) == row_ids(view),
        ids@.len() == 1 && row_ids(view).contains(ids@[0]@) ==> infos.len() == 1
            && infos[0].subgraph@ == ids@[0]@,
        ids@.len() == 1 && !row_ids(view).contains(ids@[0]@) ==> rows.len() == 0,
{
    let filter = filter_of(ids);
    if ids@.len() == 0 {
        assert forall|s: Seq<char>| status_ids(infos).contains(s) implies row_ids(view).contains(s) by {
            let i = choose|i: int| 0 <= i < infos.len() && (#[trigger] infos[i]).subgraph@ == s;
            assert(rows[i].describes(infos[i]));
            assert(view.contains(rows[i]));
            let k = choose|k: int| 0 <= k < view.len() && view[k] == rows[i];
            assert(view[k].id@ == s);
        }
        assert forall|s: Seq<char>| row_ids(view).contains(s) implies status_ids(infos).contains(s) by {
            let k = choose|k: int| 0 <= k < view.len() && (#[trigger] view[k]).id@ == s;
            assert(filter.admits(view[k].id@));
            assert(rows.contains(view[k]));
            let i = choose|i: int| 0 <= i < rows.len() && rows[i] == view[k];
            assert(rows[i].describes(infos[i]));
            assert(infos[i].subgraph@ == s);
        }
        assert(status_ids(infos) =~= row_ids(view));
    } else if ids@.len() == 1 {
        let x = ids@[0]@;
        assert(filter matches DetailFilter::Ids(v) && v == ids);
        assert forall|i: int| 0 <= i < rows.len() implies (#[trigger] rows[i]).id@ == x by {
            assert(filter.admits(rows[i].id@));
        }
        if row_ids(view).contains(x) {
            let k = choose|k: int| 0 <= k < view.len() && (#[trigger] view[k]).id@ == x;
            assert(ids@[0]@ == view[k].id@);
            assert(rows.contains(view[k]));
            if rows.len() > 1 {
                assert(rows[0].id@ == rows[1].id@);
            }
            assert(rows[0].describes(infos[0]));
        } else {
            if rows.len() > 0 {
                assert(view.contains(rows[0]));
                let k = choose|k: int| 0 <= k < view.len() && view[k] == rows[0];
                assert(view[k].id@ == x);
            }
        }
    }
}

} // verus!
