//! The HTTP requests that ask for blocks to be proved.

use vstd::prelude::*;

verus! {

/// Path of the request that proves a range of blocks.
pub const HTTP_PROVE_BLOCK_BY_NUMBER_PATH: &'static str = "/prove_block_by_number";

/// Path of the request that proves the next blocks to appear.
pub const HTTP_PROVE_LATEST_BLOCK_PATH: &'static str = "/prove_latest_block";

/// Path of the request that proves a range of blocks again from stored inputs.
pub const HTTP_REPRODUCE_BLOCK_BY_NUMBER_PATH: &'static str = "/reproduce_block_by_number";

/// Name of the query parameter that holds the first block number.
pub const PARAM_START_BLOCK_NUM: &'static str = "start_block_num";

/// Name of the query parameter that holds the number of blocks.
pub const PARAM_COUNT: &'static str = "count";

/// Parameters of `prove_block_by_number`.
#[derive(Clone, Copy, Debug, PartialEq, Eq)]
pub struct ProveBlockByNumberParams {
    /// First block to prove.
    pub start_block_num: u64,
    /// Number of blocks to prove, if given.
    pub count: Option<u64>,
}

/// Parameters of `prove_latest_block`.
#[derive(Clone, Copy, Debug, PartialEq, Eq)]
pub struct ProveLatestBlockParams {
    /// Number of latest blocks to prove, if given.
    pub count: Option<u64>,
}

/// Parameters of `reproduce_block_by_number`.
#[derive(Clone, Copy, Debug, PartialEq, Eq)]
pub struct ReproduceBlockByNumberParams {
    /// First block to prove again.
    pub start_block_num: u64,
    /// Number of blocks to prove again, if given.
    pub count: Option<u64>,
}

/// The query pairs of a request that names a first block and, optionally, a
/// count: the first block always, the count only when it is given.
pub open spec fn range_query(start_block_num: u64, count: Option<u64>) -> Seq<(Seq<char>, u64)> {
    match count {
        Some(n) => seq![(PARAM_START_BLOCK_NUM@, start_block_num), (PARAM_COUNT@, n)],
        None => seq![(PARAM_START_BLOCK_NUM@, start_block_num)],
    }
}

/// The query pairs of a request that holds nothing but an optional count.
pub open spec fn count_query(count: Option<u64>) -> Seq<(Seq<char>, u64)> {
    match count {
        Some(n) => seq![(PARAM_COUNT@, n)],
        None => seq![],
    }
}

/// No name occurs twice among the pairs.
pub open spec fn names_occur_once(pairs: Seq<(Seq<char>, u64)>) -> bool {
    forall|i: int, j: int| 0 <= i < j < pairs.len() ==> pairs[i].0 != pairs[j].0
}

/// The names and values of a list of query pairs.
pub open spec fn query_view(pairs: Seq<(&'static str, u64)>) -> Seq<(Seq<char>, u64)> {
    pairs.map_values(|p: (&'static str, u64)| (p.0@, p.1))
}

fn range_pairs(start_block_num: u64, count: Option<u64>) -> (pairs: Vec<(&'static str, u64)>)
    ensures
        query_view(pairs@) == range_query(start_block_num, count),
        names_occur_once(query_view(pairs@)),
{
    proof {
        lemma_names_occur_once(start_block_num, count);
    }
    let mut pairs: Vec<(&'static str, u64)> = Vec::new();
    pairs.push((PARAM_START_BLOCK_NUM, start_block_num));
    if let Some(n) = count {
        pairs.push((PARAM_COUNT, n));
    }
    assert(query_view(pairs@) =~= range_query(start_block_num, count));
    pairs
}

impl ProveBlockByNumberParams {
    pub fn new(start_block_num: u64, count: Option<u64>) -> (params: Self)
        ensures
            params == (ProveBlockByNumberParams { start_block_num, count }),
    {
        ProveBlockByNumberParams { start_block_num, count }
    }

    /// The query pairs to send, each name once, in the order of the fields.
    pub fn to_hash_map(&self) -> (pairs: Vec<(&'static str, u64)>)
        ensures
            query_view(pairs@) == range_query(self.start_block_num, self.count),
            names_occur_once(query_view(pairs@)),
    {
        range_pairs(self.start_block_num, self.count)
    }
}

impl ProveLatestBlockParams {
    pub fn new(count: Option<u64>) -> (params: Self)
        ensures
            params == (ProveLatestBlockParams { count }),
    {
        ProveLatestBlockParams { count }
    }

    /// The query pairs to send: the count, when it is given.
    pub fn to_hash_map(&self) -> (pairs: Vec<(&'static str, u64)>)
        ensures
            query_view(pairs@) == count_query(self.count),
            names_occur_once(query_view(pairs@)),
    {
        let mut pairs: Vec<(&'static str, u64)> = Vec::new();
        if let Some(n) = self.count {
            pairs.push((PARAM_COUNT, n));
        }
        assert(query_view(pairs@) =~= count_query(self.count));
        pairs
    }
}

impl ReproduceBlockByNumberParams {
    pub fn new(start_block_num: u64, count: Option<u64>) -> (params: Self)
        ensures
            params == (ReproduceBlockByNumberParams { start_block_num, count }),
    {
        ReproduceBlockByNumberParams { start_block_num, count }
    }

    /// The query pairs to send, each name once, in the order of the fields.
    pub fn to_hash_map(&self) -> (pairs: Vec<(&'static str, u64)>)
        ensures
            query_view(pairs@) == range_query(self.start_block_num, self.count),
            names_occur_once(query_view(pairs@)),
    {
        range_pairs(self.start_block_num, self.count)
    }
}

/// No name occurs twice among the query pairs of a request.
pub proof fn lemma_names_occur_once(start_block_num: u64, count: Option<u64>)
    ensures
        PARAM_START_BLOCK_NUM@ != PARAM_COUNT@,
        names_occur_once(range_query(start_block_num, count)),
        names_occur_once(count_query(count)),
{
    reveal_strlit("start_block_num");
    reveal_strlit("count");
    assert(PARAM_START_BLOCK_NUM@.len() == 15);
    assert(PARAM_COUNT@.len() == 5);
}

} // verus!
