//! Lazy row access: the response is kept as a column-name lookup table
//! plus the raw data matrix, and single cells are decoded on demand.

use vstd::prelude::*;

use crate::decode::{spec_cell_view, spec_opt_view, DecodeCause, DeserializeFromStr};
use crate::json::{json_parse_ok, parse_json_str};
use crate::response::MetaData;
use crate::strutil::str_eq;

verus! {

/// The largest column index whose name matches, mirroring a lookup table
/// filled in positional order where a later duplicate wins.
pub open spec fn spec_last_index_of(cols: Seq<Seq<char>>, name: Seq<char>) -> Option<int>
    decreases cols.len(),
{
    if cols.len() == 0 {
        None
    } else if cols.last() == name {
        Some(cols.len() - 1)
    } else {
        spec_last_index_of(cols.drop_last(), name)
    }
}

/// A parsed result kept un-decoded: column names in positional order and
/// the raw rows; every row has one cell per column.
#[derive(Debug)]
pub struct LazyRows {
    pub columns: Vec<String>,
    pub data: Vec<Vec<Option<String>>>,
}

impl LazyRows {
    /// Every row has exactly one cell per column.
    pub open spec fn well_formed(self) -> bool {
        forall|i: int|
            0 <= i < self.data@.len() ==> (#[trigger] self.data@[i])@.len() == self.columns@.len()
    }

    pub open spec fn spec_column_views(self) -> Seq<Seq<char>> {
        self.columns@.map_values(|s: String| s@)
    }

    /// Builds the lookup table from the response metadata: the column
    /// names in positional order.
    pub fn new(metadata: &MetaData, data: Vec<Vec<Option<String>>>) -> (r: LazyRows)
        ensures
            r.columns@.len() == metadata.row_type@.len(),
            forall|i: int|
                0 <= i < r.columns@.len() ==> (#[trigger] r.columns@[i])@
                    == metadata.row_type@[i].name@,
            r.data == data,
    {
        let mut columns: Vec<String> = Vec::new();
        let n = metadata.row_type.len();
        let mut i: usize = 0;
        while i < n
            invariant
                0 <= i <= n,
                n == metadata.row_type@.len(),
                columns@.len() == i,
                forall|j: int|
                    0 <= j < i ==> (#[trigger] columns@[j])@ == metadata.row_type@[j].name@,
            decreases n - i,
        {
            columns.push(metadata.row_type[i].name.clone());
            i += 1;
        }
        LazyRows { columns, data }
    }

    /// The position a column name resolves to; with duplicate names the
    /// last position wins.
    pub fn get_index_of_column(&self, column_name: &str) -> (r: Option<usize>)
        ensures
            ({
                match r {
                    Some(i) => spec_last_index_of(self.spec_column_views(), column_name@) == Some(
                        i as int,
                    ),
                    None => spec_last_index_of(self.spec_column_views(), column_name@) is None,
                }
            }),
    {
        find_last_index(&self.columns, column_name)
    }

    /// The row at `index`, if there is one.
    pub fn at(&self, index: usize) -> (r: Option<LazyRow>)
        ensures
            r is Some <==> index < self.data@.len(),
            r matches Some(row) ==> row.columns@ == self.columns@ && row.data@
                == self.data@[index as int]@,
    {
        if index < self.data.len() {
            Some(LazyRow { columns: &self.columns, data: &self.data[index] })
        } else {
            None
        }
    }
}

/// Scans the names from the end and returns the first match: the largest
/// matching position.
fn find_last_index(columns: &Vec<String>, name: &str) -> (r: Option<usize>)
    ensures
        ({
            let views = columns@.map_values(|s: String| s@);
            match r {
                Some(i) => spec_last_index_of(views, name@) == Some(i as int) && i
                    < columns@.len(),
                None => spec_last_index_of(views, name@) is None,
            }
        }),
{
    let ghost views = columns@.map_values(|s: String| s@);
    let n = columns.len();
    proof {
        assert(views.subrange(0, n as int) =~= views);
    }
    let mut i: usize = n;
    while i > 0
        invariant
            0 <= i <= n,
            n == columns@.len(),
            views == columns@.map_values(|s: String| s@),
            spec_last_index_of(views, name@) == spec_last_index_of(
                views.subrange(0, i as int),
                name@,
            ),
        decreases i,
    {
        proof {
            assert(views.subrange(0, i as int).last() == views[i - 1]);
            assert(views[i - 1] == columns@[i - 1]@);
            assert(views.subrange(0, i as int).drop_last() =~= views.subrange(0, i - 1));
        }
        if str_eq(columns[i - 1].as_str(), name) {
            return Some(i - 1);
        }
        i -= 1;
    }
    proof {
        assert(views.subrange(0, 0) =~= Seq::<Seq<char>>::empty());
    }
    None
}

/// One raw row: a view into the lookup table and that row's cells.
#[derive(Debug)]
pub struct LazyRow<'a> {
    pub columns: &'a Vec<String>,
    pub data: &'a Vec<Option<String>>,
}

/// Why fetching one cell by column name failed.
#[derive(Debug)]
pub enum LazyRowParseError {
    /// No column has this name.
    UnknownName(String),
    /// The cell is null.
    NullCell,
    /// The cell is not well-formed JSON.
    Deserialize(serde_json::Error),
}

/// Why fetching one cell by position failed.
#[derive(Debug)]
pub enum LazyRowIndexParseError {
    /// The position is beyond the row's last cell.
    InvalidIndex(usize),
    /// The cell is null.
    NullCell,
    /// The cell is not well-formed JSON.
    Deserialize(serde_json::Error),
}

impl<'a> LazyRow<'a> {
    pub open spec fn spec_column_views(self) -> Seq<Seq<char>> {
        self.columns@.map_values(|s: String| s@)
    }

    /// One cell per column.
    pub open spec fn well_formed(self) -> bool {
        self.data@.len() == self.columns@.len()
    }

    pub fn get_index_of_column(&self, column_name: &str) -> (r: Option<usize>)
        ensures
            ({
                match r {
                    Some(i) => spec_last_index_of(self.spec_column_views(), column_name@) == Some(
                        i as int,
                    ),
                    None => spec_last_index_of(self.spec_column_views(), column_name@) is None,
                }
            }),
    {
        find_last_index(self.columns, column_name)
    }

    /// The cell under the given column name, parsed as JSON.
    pub fn get(&self, column_name: &str) -> (r: Result<serde_json::Value, LazyRowParseError>)
        requires
            self.well_formed(),
        ensures
            ({
                let idx = spec_last_index_of(self.spec_column_views(), column_name@);
                match r {
                    Ok(_) => idx matches Some(i) && spec_cell_view(self.data@[i]) matches Some(c)
                        && json_parse_ok(c),
                    Err(LazyRowParseError::UnknownName(n)) => idx is None && n@ == column_name@,
                    Err(LazyRowParseError::NullCell) => idx matches Some(i) && self.data@[i]
                        is None,
                    Err(LazyRowParseError::Deserialize(_)) => idx matches Some(i) && (
                    spec_cell_view(self.data@[i]) matches Some(c) && !json_parse_ok(c)),
                }
            }),
    {
        match find_last_index(self.columns, column_name) {
            None => Err(LazyRowParseError::UnknownName(column_name.to_owned())),
            Some(i) => match &self.data[i] {
                None => Err(LazyRowParseError::NullCell),
                Some(cell) => match parse_json_str(cell.as_str()) {
                    Ok(v) => Ok(v),
                    Err(e) => Err(LazyRowParseError::Deserialize(e)),
                },
            },
        }
    }

    /// The cell at the given position, parsed as JSON.
    pub fn get_from_index(&self, column_index: usize) -> (r: Result<
        serde_json::Value,
        LazyRowIndexParseError,
    >)
        ensures
            ({
                match r {
                    Ok(_) => column_index < self.data@.len() && (spec_cell_view(
                        self.data@[column_index as int],
                    ) matches Some(c) && json_parse_ok(c)),
                    Err(LazyRowIndexParseError::InvalidIndex(i)) => i == column_index
                        && column_index >= self.data@.len(),
                    Err(LazyRowIndexParseError::NullCell) => column_index < self.data@.len()
                        && self.data@[column_index as int] is None,
                    Err(LazyRowIndexParseError::Deserialize(_)) => column_index < self.data@.len()
                        && (spec_cell_view(self.data@[column_index as int]) matches Some(c)
                        && !json_parse_ok(c)),
                }
            }),
    {
        if column_index >= self.data.len() {
            return Err(LazyRowIndexParseError::InvalidIndex(column_index));
        }
        match &self.data[column_index] {
            None => Err(LazyRowIndexParseError::NullCell),
            Some(cell) => match parse_json_str(cell.as_str()) {
                Ok(v) => Ok(v),
                Err(e) => Err(LazyRowIndexParseError::Deserialize(e)),
            },
        }
    }

    /// The cell under the given column name, decoded as a scalar.
    pub fn get_scalar<T: DeserializeFromStr>(&self, column_name: &str) -> (r: Result<
        T,
        LazyRowScalarError,
    >)
        requires
            self.well_formed(),
        ensures
            ({
                let idx = spec_last_index_of(self.spec_column_views(), column_name@);
                match r {
                    Ok(v) => idx matches Some(i) && T::decode_ok(spec_cell_view(self.data@[i]))
                        && T::decode_rel(spec_cell_view(self.data@[i]), v),
                    Err(LazyRowScalarError::UnknownName(n)) => idx is None && n@ == column_name@,
                    Err(LazyRowScalarError::Decode(c)) => idx matches Some(i) && !T::decode_ok(
                        spec_cell_view(self.data@[i]),
                    ) && c == T::fail_cause(spec_cell_view(self.data@[i])),
                }
            }),
    {
        match find_last_index(self.columns, column_name) {
            None => Err(LazyRowScalarError::UnknownName(column_name.to_owned())),
            Some(i) => {
                let cell: Option<&str> = match &self.data[i] {
                    Some(s) => Some(s.as_str()),
                    None => None,
                };
                proof {
                    assert(spec_opt_view(cell) == spec_cell_view(self.data@[i as int]));
                }
                match T::deserialize_from_str(cell) {
                    Ok(v) => Ok(v),
                    Err(c) => Err(LazyRowScalarError::Decode(c)),
                }
            },
        }
    }
}

/// Why decoding one cell as a scalar failed.
#[derive(Clone, Debug)]
pub enum LazyRowScalarError {
    /// No column has this name.
    UnknownName(String),
    /// The cell does not decode as the requested type.
    Decode(DecodeCause),
}

} // verus!
