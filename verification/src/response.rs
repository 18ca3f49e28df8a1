//! The shapes a query answer takes: result metadata, the data matrix of
//! nullable cell strings, partition bookkeeping, and the status payloads
//! for statements that are still running or have failed.

use vstd::prelude::*;

verus! {

/// One column of the projected result set.
#[derive(Clone, Debug)]
pub struct RowType {
    pub name: String,
    pub database: String,
    pub schema: String,
    pub table: String,
    pub precision: Option<u32>,
    pub byte_length: Option<usize>,
    pub data_type: String,
    pub scale: Option<i32>,
    pub nullable: bool,
}

/// Per-partition bookkeeping: how many rows the partition holds and its
/// uncompressed size in bytes.
#[derive(Clone, Copy, Debug)]
pub struct PartitionInfo {
    pub row_count: usize,
    pub uncompressed_size: usize,
}

/// Result-set metadata: total row count, wire format name, one descriptor
/// per projected column, and one entry per partition.
#[derive(Clone, Debug)]
pub struct MetaData {
    pub num_rows: usize,
    pub format: String,
    pub row_type: Vec<RowType>,
    pub partition_info: Vec<PartitionInfo>,
}

/// The opaque identifier the service issues for one submitted statement.
#[derive(Clone, Debug)]
pub struct StatementHandle {
    handle: String,
}

impl StatementHandle {
    pub closed spec fn spec_handle(self) -> Seq<char> {
        self.handle@
    }

    pub fn new(handle: String) -> (r: StatementHandle)
        ensures
            r.spec_handle() == handle@,
    {
        StatementHandle { handle }
    }

    pub fn handle(&self) -> (r: &str)
        ensures
            r@ == self.spec_handle(),
    {
        self.handle.as_str()
    }

    /// A second value carrying the same handle string.
    pub fn duplicate(&self) -> (r: StatementHandle)
        ensures
            r == *self,
    {
        StatementHandle { handle: self.handle.clone() }
    }
}

/// The sum of the declared per-partition row counts.
pub open spec fn spec_partition_rows_sum(parts: Seq<PartitionInfo>) -> int
    decreases parts.len(),
{
    if parts.len() == 0 {
        0
    } else {
        spec_partition_rows_sum(parts.drop_last()) + parts.last().row_count
    }
}

/// A complete (HTTP 200) answer to one statement: metadata, the first
/// partition's rows, and the service's diagnostic fields.
#[derive(Clone, Debug)]
pub struct SnowflakeSqlResponse {
    pub result_set_meta_data: MetaData,
    pub data: Vec<Vec<Option<String>>>,
    pub code: String,
    pub statement_status_url: String,
    pub request_id: String,
    pub sql_state: String,
    pub message: String,
    pub statement_handle: String,
}

impl SnowflakeSqlResponse {
    /// The documented shape of a fresh response: at least one partition,
    /// the first partition's rows embedded, and the partition row counts
    /// summing to the declared total.
    pub open spec fn well_formed(self) -> bool {
        &&& self.result_set_meta_data.partition_info@.len() >= 1
        &&& self.data@.len() == self.result_set_meta_data.partition_info@[0].row_count
        &&& spec_partition_rows_sum(self.result_set_meta_data.partition_info@)
            == self.result_set_meta_data.num_rows
    }

    /// Whether rows beyond the embedded first partition must be fetched.
    pub fn has_partitions(&self) -> (r: bool)
        ensures
            r == (self.result_set_meta_data.partition_info@.len() > 1),
    {
        self.result_set_meta_data.partition_info.len() > 1
    }

    /// The indices of the partitions that are not embedded in this
    /// response and must be fetched separately, in fetch order.
    pub fn partition_indices(&self) -> (r: Vec<usize>)
        ensures
            r@.len() + 1 == self.result_set_meta_data.partition_info@.len()
                || (self.result_set_meta_data.partition_info@.len() == 0 && r@.len() == 0),
            forall|i: int| 0 <= i < r@.len() ==> r@[i] == i + 1,
    {
        let mut out: Vec<usize> = Vec::new();
        let n = self.result_set_meta_data.partition_info.len();
        let mut i: usize = 1;
        while i < n
            invariant
                1 <= i <= n || (n == 0 && i == 1),
                out@.len() + 1 == i,
                forall|j: int| 0 <= j < out@.len() ==> out@[j] == j + 1,
            decreases n - i,
        {
            out.push(i);
            i += 1;
        }
        out
    }

    /// Appends one fetched partition's rows after the rows already held,
    /// preserving the order of both; no other field changes.
    pub fn merge_partition(&mut self, rows: Vec<Vec<Option<String>>>)
        ensures
            final(self).data@ == old(self).data@ + rows@,
            final(self).result_set_meta_data == old(self).result_set_meta_data,
            final(self).code == old(self).code,
            final(self).statement_status_url == old(self).statement_status_url,
            final(self).request_id == old(self).request_id,
            final(self).sql_state == old(self).sql_state,
            final(self).message == old(self).message,
            final(self).statement_handle == old(self).statement_handle,
    {
        let mut rows = rows;
        self.data.append(&mut rows);
    }
}

/// The row segments concatenated in order.
pub open spec fn spec_concat_rows(segs: Seq<Seq<Vec<Option<String>>>>) -> Seq<Vec<Option<String>>>
    decreases segs.len(),
{
    if segs.len() == 0 {
        Seq::empty()
    } else {
        spec_concat_rows(segs.drop_last()) + segs.last()
    }
}

/// Concatenation contributes exactly the segments' summed lengths.
pub proof fn lemma_concat_rows_len(segs: Seq<Seq<Vec<Option<String>>>>)
    ensures
        spec_concat_rows(segs).len() == spec_int_sum(
            segs.map_values(|s: Seq<Vec<Option<String>>>| s.len() as int),
        ),
    decreases segs.len(),
{
    let lens = segs.map_values(|s: Seq<Vec<Option<String>>>| s.len() as int);
    if segs.len() == 0 {
    } else {
        lemma_concat_rows_len(segs.drop_last());
        assert(segs.drop_last().map_values(|s: Seq<Vec<Option<String>>>| s.len() as int)
            =~= lens.drop_last());
        assert(lens.last() == segs.last().len() as int);
    }
}

impl SnowflakeSqlResponse {
    /// Appends every fetched partition's rows, in partition order, each
    /// row segment in its own order. When the response is well formed and
    /// each fetched segment holds exactly its partition's declared row
    /// count, the merged matrix holds exactly `num_rows` rows: the merged
    /// row count equals the sum of the partition row counts.
    pub fn merge_partitions(&mut self, partitions: Vec<Vec<Vec<Option<String>>>>)
        ensures
            final(self).data@ == old(self).data@ + spec_concat_rows(
                partitions@.map_values(|p: Vec<Vec<Option<String>>>| p@),
            ),
            final(self).result_set_meta_data == old(self).result_set_meta_data,
            final(self).code == old(self).code,
            final(self).statement_status_url == old(self).statement_status_url,
            final(self).request_id == old(self).request_id,
            final(self).sql_state == old(self).sql_state,
            final(self).message == old(self).message,
            final(self).statement_handle == old(self).statement_handle,
            (old(self).well_formed() && partitions@.len() + 1
                == old(self).result_set_meta_data.partition_info@.len() && (forall|i: int|
                0 <= i < partitions@.len() ==> (#[trigger] partitions@[i])@.len()
                    == old(self).result_set_meta_data.partition_info@[i + 1].row_count))
                ==> final(self).data@.len() == old(self).result_set_meta_data.num_rows,
    {
        let ghost segs = partitions@.map_values(|p: Vec<Vec<Option<String>>>| p@);
        let ghost orig_parts = partitions@;
        let ghost orig = *self;
        let mut partitions = partitions;
        let n = partitions.len();
        let mut i: usize = 0;
        while i < n
            invariant
                0 <= i <= n,
                partitions@ == orig_parts.subrange(i as int, n as int),
                orig_parts.len() == n,
                segs.len() == n,
                forall|j: int| 0 <= j < n ==> orig_parts[j]@ == segs[j],
                self.data@ == orig.data@ + spec_concat_rows(segs.subrange(0, i as int)),
                self.result_set_meta_data == orig.result_set_meta_data,
                self.code == orig.code,
                self.statement_status_url == orig.statement_status_url,
                self.request_id == orig.request_id,
                self.sql_state == orig.sql_state,
                self.message == orig.message,
                self.statement_handle == orig.statement_handle,
            decreases n - i,
        {
            proof {
                assert(segs.subrange(0, i + 1 as int).drop_last() =~= segs.subrange(0, i as int));
                assert(segs.subrange(0, i + 1 as int).last() == segs[i as int]);
                assert(partitions@[0] == orig_parts[i as int]);
            }
            let rows = partitions.remove(0);
            proof {
                assert(partitions@ =~= orig_parts.subrange(i + 1 as int, n as int));
            }
            self.merge_partition(rows);
            i += 1;
        }
        proof {
            assert(segs.subrange(0, n as int) =~= segs);
            if orig.well_formed() && segs.len() + 1
                == orig.result_set_meta_data.partition_info@.len() && (forall|j: int|
                0 <= j < segs.len() ==> (#[trigger] segs[j]).len()
                    == orig.result_set_meta_data.partition_info@[j + 1].row_count) {
                let lens = segs.map_values(|s: Seq<Vec<Option<String>>>| s.len() as int);
                lemma_concat_rows_len(segs);
                lemma_merged_row_count(orig.result_set_meta_data.partition_info@, lens);
            }
        }
    }
}

/// Fetching every remaining partition, each contributing exactly its
/// declared row count, brings a well-formed response to exactly the
/// declared total: the merged row count equals the sum of the partition
/// row counts.
pub proof fn lemma_merged_row_count(parts: Seq<PartitionInfo>, added: Seq<int>)
    requires
        parts.len() == added.len() + 1,
        forall|i: int| 0 <= i < added.len() ==> added[i] == parts[i + 1].row_count as int,
    ensures
        parts[0].row_count + spec_int_sum(added) == spec_partition_rows_sum(parts),
    decreases added.len(),
{
    if added.len() == 0 {
        assert(parts.drop_last() =~= Seq::<PartitionInfo>::empty());
        assert(spec_partition_rows_sum(Seq::<PartitionInfo>::empty()) == 0);
        assert(spec_partition_rows_sum(parts) == spec_partition_rows_sum(parts.drop_last())
            + parts.last().row_count);
        assert(parts.last() == parts[0]);
    } else {
        assert forall|i: int| 0 <= i < added.drop_last().len() implies added.drop_last()[i]
            == parts.drop_last()[i + 1].row_count as int by {
            assert(added.drop_last()[i] == added[i]);
            assert(parts.drop_last()[i + 1] == parts[i + 1]);
        }
        lemma_merged_row_count(parts.drop_last(), added.drop_last());
        assert(parts.drop_last()[0] == parts[0]);
        assert(added.last() == parts[added.len() as int].row_count as int);
        assert(parts.last() == parts[added.len() as int]);
        assert(spec_int_sum(added) == spec_int_sum(added.drop_last()) + added.last());
        assert(spec_partition_rows_sum(parts) == spec_partition_rows_sum(parts.drop_last())
            + parts.last().row_count);
    }
}

/// The sum of a sequence of integers.
pub open spec fn spec_int_sum(s: Seq<int>) -> int
    decreases s.len(),
{
    if s.len() == 0 {
        0
    } else {
        spec_int_sum(s.drop_last()) + s.last()
    }
}

/// The status payload of a statement that is still running: returned with
/// HTTP 202 or 408.
#[derive(Clone, Debug)]
pub struct QueryStatus {
    pub code: String,
    pub sql_state: String,
    pub message: String,
    pub statement_handle: StatementHandle,
    pub created_on: i64,
    pub statement_status_url: String,
}

impl QueryStatus {
    pub fn code(&self) -> (r: &str)
        ensures
            r@ == self.code@,
    {
        self.code.as_str()
    }

    pub fn sql_state(&self) -> (r: &str)
        ensures
            r@ == self.sql_state@,
    {
        self.sql_state.as_str()
    }

    pub fn message(&self) -> (r: &str)
        ensures
            r@ == self.message@,
    {
        self.message.as_str()
    }

    pub fn statement_handle(&self) -> (r: &StatementHandle)
        ensures
            *r == self.statement_handle,
    {
        &self.statement_handle
    }

    pub fn created_on(&self) -> (r: i64)
        ensures
            r == self.created_on,
    {
        self.created_on
    }

    pub fn statement_status_url(&self) -> (r: &str)
        ensures
            r@ == self.statement_status_url@,
    {
        self.statement_status_url.as_str()
    }
}

/// The terminal failure payload of a statement: returned with HTTP 422.
/// Failure answers may omit the timing and polling-URL fields.
#[derive(Clone, Debug)]
pub struct QueryFailureStatus {
    pub code: String,
    pub sql_state: String,
    pub message: String,
    pub statement_handle: StatementHandle,
    pub created_on: Option<i64>,
    pub statement_status_url: Option<String>,
}

impl QueryFailureStatus {
    pub fn code(&self) -> (r: &str)
        ensures
            r@ == self.code@,
    {
        self.code.as_str()
    }

    pub fn sql_state(&self) -> (r: &str)
        ensures
            r@ == self.sql_state@,
    {
        self.sql_state.as_str()
    }

    pub fn message(&self) -> (r: &str)
        ensures
            r@ == self.message@,
    {
        self.message.as_str()
    }

    pub fn statement_handle(&self) -> (r: &StatementHandle)
        ensures
            *r == self.statement_handle,
    {
        &self.statement_handle
    }

    pub fn created_on(&self) -> (r: Option<i64>)
        ensures
            r == self.created_on,
    {
        self.created_on
    }

    pub fn statement_status_url(&self) -> (r: Option<&str>)
        ensures
            (r matches Some(s) && self.statement_status_url matches Some(t) && s@ == t@)
                || (r is None && self.statement_status_url is None),
    {
        match &self.statement_status_url {
            Some(s) => Some(s.as_str()),
            None => None,
        }
    }
}

/// Row-change counters of a data-manipulation statement.
#[derive(Clone, Copy, Debug)]
pub struct Changes {
    pub rows_inserted: usize,
    pub rows_deleted: usize,
    pub rows_updated: usize,
    pub duplicates: usize,
}

/// The answer to a `DELETE`, `INSERT` or `UPDATE` statement.
#[derive(Clone, Debug)]
pub struct DataManipulationResult {
    pub message: String,
    pub stats: Changes,
}

} // verus!
