use vstd::prelude::*;

use crate::errors::ExtractError;
use crate::scanner::store_tail;

verus! {

#[verifier::external_type_specification]
#[verifier::external_body]
pub struct ExConnection(rusqlite::Connection);

/// Relies on rusqlite::Connection::open: opens the file at `path` as an
/// independent, self-contained relational store.
#[verifier::external_body]
fn store_open(path: &String) -> (r: Result<rusqlite::Connection, String>) {
    match rusqlite::Connection::open(path.as_str()) {
        Ok(c) => Ok(c),
        Err(e) => Err(format!("{}", e)),
    }
}

/// Relies on rusqlite's Connection::prepare, Statement::query, Rows::next
/// and Row::get: runs the given single-row query and reads each column of
/// the first result row as an optional binary value. None when the table
/// is missing, the query fails, or it returns no row; a column holding
/// anything but binary data reads as None.
#[verifier::external_body]
fn fetch_first_row(conn: &rusqlite::Connection, query: &str) -> (r: Option<Vec<Option<Vec<u8>>>>) {
    let mut stmt = match conn.prepare(query) {
        Ok(s) => s,
        Err(_) => return None,
    };
    let count = stmt.column_count();
    let mut rows = match stmt.query([]) {
        Ok(r) => r,
        Err(_) => return None,
    };
    match rows.next() {
        Ok(Some(row)) => Some((0..count).map(|i| row.get::<_, Vec<u8>>(i).ok()).collect()),
        _ => None,
    }
}

/// The fixed, ordered list of candidate tables, as single-row queries:
/// CanvasPreview first, then Thumbnail, then PreviewImage. A store version
/// may hold zero, one or several of these tables.
pub open spec fn candidate_query_spec(i: int) -> Seq<char> {
    if i == 0 {
        "SELECT * FROM CanvasPreview LIMIT 1"@
    } else if i == 1 {
        "SELECT * FROM Thumbnail LIMIT 1"@
    } else {
        "SELECT * FROM PreviewImage LIMIT 1"@
    }
}

fn candidate_query(i: usize) -> (r: &'static str)
    requires
        i < 3,
    ensures
        r@ == candidate_query_spec(i as int),
{
    if i == 0 {
        "SELECT * FROM CanvasPreview LIMIT 1"
    } else if i == 1 {
        "SELECT * FROM Thumbnail LIMIT 1"
    } else {
        "SELECT * FROM PreviewImage LIMIT 1"
    }
}

/// A column value qualifies as the preview when it is binary and longer
/// than the 100-byte threshold: a short binary field is metadata, not
/// image content.
pub open spec fn qualifies(c: Option<Seq<u8>>) -> bool {
    c matches Some(b) && b.len() > 100
}

/// The value view of one row's columns.
pub open spec fn cols_view(s: Seq<Option<Vec<u8>>>) -> Seq<Option<Seq<u8>>> {
    s.map_values(
        |o: Option<Vec<u8>>|
            match o {
                Some(v) => Some(v@),
                None => None,
            },
    )
}

/// The first qualifying column of a row, in column order.
pub open spec fn first_qualifying_spec(cols: Seq<Option<Seq<u8>>>) -> Option<Seq<u8>>
    decreases cols.len(),
{
    if cols.len() == 0 {
        None
    } else if qualifies(cols[0]) {
        cols[0]
    } else {
        first_qualifying_spec(cols.drop_first())
    }
}

proof fn lemma_first_qualifying_at(s: Seq<Option<Seq<u8>>>, i: int)
    requires
        0 <= i < s.len(),
        qualifies(s[i]),
        forall|j: int| 0 <= j < i ==> !qualifies(s[j]),
    ensures
        first_qualifying_spec(s) == s[i],
    decreases i,
{
    if i == 0 {
    } else {
        assert(!qualifies(s[0]));
        assert(s.drop_first()[i - 1] == s[i]);
        assert(forall|j: int| 0 <= j < i - 1 ==> s.drop_first()[j] == s[j + 1]);
        lemma_first_qualifying_at(s.drop_first(), i - 1);
    }
}

proof fn lemma_first_qualifying_none(s: Seq<Option<Seq<u8>>>)
    requires
        forall|j: int| 0 <= j < s.len() ==> !qualifies(s[j]),
    ensures
        first_qualifying_spec(s) is None,
    decreases s.len(),
{
    if s.len() != 0 {
        assert(forall|j: int| 0 <= j < s.len() - 1 ==> s.drop_first()[j] == s[j + 1]);
        lemma_first_qualifying_none(s.drop_first());
    }
}

/// The whole of a qualifying result is longer than the threshold.
pub proof fn lemma_first_qualifying_qualifies(s: Seq<Option<Seq<u8>>>)
    ensures
        first_qualifying_spec(s) matches Some(b) ==> b.len() > 100,
    decreases s.len(),
{
    if s.len() != 0 && !qualifies(s[0]) {
        lemma_first_qualifying_qualifies(s.drop_first());
    }
}

/// Finds the first column of the row holding a binary value above the
/// threshold, in column order; search order is the heuristic's contract.
pub fn first_qualifying(cols: &Vec<Option<Vec<u8>>>) -> (r: Option<Vec<u8>>)
    ensures
        r matches Some(b) ==> first_qualifying_spec(cols_view(cols@)) == Some(b@),
        r is None ==> first_qualifying_spec(cols_view(cols@)) is None,
{
    let n = cols.len();
    let mut i: usize = 0;
    while i < n
        invariant
            i <= n,
            n == cols@.len(),
            forall|j: int| 0 <= j < i ==> !qualifies(cols_view(cols@)[j]),
        decreases n - i,
    {
        match &cols[i] {
            Some(b) => {
                if b.len() > 100 {
                    proof {
                        assert(qualifies(cols_view(cols@)[i as int]));
                        lemma_first_qualifying_at(cols_view(cols@), i as int);
                    }
                    let out = store_tail(b, 0);
                    proof {
                        assert(out@ =~= b@);
                    }
                    return Some(out);
                }
            },
            None => {},
        }
        proof {
            assert(!qualifies(cols_view(cols@)[i as int]));
        }
        i += 1;
    }
    proof {
        lemma_first_qualifying_none(cols_view(cols@));
    }
    None
}

/// The value view of the candidate tables' first rows: one entry per
/// candidate, holding that table's first row when it has one.
pub open spec fn tables_view(s: Seq<Option<Vec<Option<Vec<u8>>>>>) -> Seq<
    Option<Seq<Option<Seq<u8>>>>,
> {
    s.map_values(
        |t: Option<Vec<Option<Vec<u8>>>>|
            match t {
                Some(row) => Some(cols_view(row@)),
                None => None,
            },
    )
}

/// The heuristic's stopping rule over plain values: the first qualifying
/// column of the first candidate table that has one, in candidate-table
/// order then column order.
pub open spec fn select_spec(tables: Seq<Option<Seq<Option<Seq<u8>>>>>) -> Option<Seq<u8>>
    decreases tables.len(),
{
    if tables.len() == 0 {
        None
    } else if tables[0] matches Some(row) && first_qualifying_spec(row) is Some {
        first_qualifying_spec(tables[0]->0)
    } else {
        select_spec(tables.drop_first())
    }
}

proof fn lemma_select_spec_at(s: Seq<Option<Seq<Option<Seq<u8>>>>>, i: int)
    requires
        0 <= i < s.len(),
        s[i] matches Some(row) && first_qualifying_spec(row) is Some,
        forall|j: int|
            0 <= j < i ==> !((#[trigger] s[j]) matches Some(row) && first_qualifying_spec(row) is Some),
    ensures
        select_spec(s) == first_qualifying_spec(s[i]->0),
    decreases i,
{
    if i == 0 {
    } else {
        assert(s.drop_first()[i - 1] == s[i]);
        assert(forall|j: int| 0 <= j < i - 1 ==> s.drop_first()[j] == s[j + 1]);
        lemma_select_spec_at(s.drop_first(), i - 1);
    }
}

proof fn lemma_select_spec_none(s: Seq<Option<Seq<Option<Seq<u8>>>>>)
    requires
        forall|j: int|
            0 <= j < s.len() ==> !((#[trigger] s[j]) matches Some(row) && first_qualifying_spec(row) is Some),
    ensures
        select_spec(s) is None,
    decreases s.len(),
{
    if s.len() != 0 {
        assert(forall|j: int| 0 <= j < s.len() - 1 ==> s.drop_first()[j] == s[j + 1]);
        lemma_select_spec_none(s.drop_first());
    }
}

/// Selects the preview blob from the candidate tables' first rows, given
/// as plain values: the first qualifying value in candidate-table order
/// then column order, or `NoPreviewFound` when no table yields one.
pub fn select_preview_blob(tables: &Vec<Option<Vec<Option<Vec<u8>>>>>) -> (r: Result<
    Vec<u8>,
    ExtractError,
>)
    ensures
        r matches Ok(b) ==> select_spec(tables_view(tables@)) == Some(b@),
        r matches Err(e) ==> e is NoPreviewFound && select_spec(tables_view(tables@)) is None,
{
    let n = tables.len();
    let mut i: usize = 0;
    while i < n
        invariant
            i <= n,
            n == tables@.len(),
            forall|j: int|
                0 <= j < i ==> !((#[trigger] tables_view(tables@)[j]) matches Some(row)
                    && first_qualifying_spec(row) is Some),
        decreases n - i,
    {
        match &tables[i] {
            Some(row) => {
                match first_qualifying(row) {
                    Some(b) => {
                        proof {
                            lemma_select_spec_at(tables_view(tables@), i as int);
                        }
                        return Ok(b);
                    },
                    None => {},
                }
            },
            None => {},
        }
        proof {
            assert(!(tables_view(tables@)[i as int] matches Some(row) && first_qualifying_spec(
                row,
            ) is Some));
        }
        i += 1;
    }
    proof {
        lemma_select_spec_none(tables_view(tables@));
    }
    Err(ExtractError::NoPreviewFound)
}

/// Mines the isolated store for the preview blob: iterates the candidate
/// tables in order against the open store, stopping at the first
/// qualifying binary column. Tables that are absent, fail to query, or
/// have no rows are skipped, never fatal. Whatever rows the store holds,
/// a returned blob is longer than the threshold.
pub fn select_preview_from_store(conn: &rusqlite::Connection) -> (r: Result<Vec<u8>, ExtractError>)
    ensures
        r matches Ok(b) ==> b@.len() > 100,
        r matches Err(e) ==> e is NoPreviewFound,
{
    let mut i: usize = 0;
    while i < 3
        invariant
            i <= 3,
        decreases 3 - i,
    {
        match fetch_first_row(conn, candidate_query(i)) {
            Some(row) => {
                match first_qualifying(&row) {
                    Some(b) => {
                        proof {
                            lemma_first_qualifying_qualifies(cols_view(row@));
                        }
                        return Ok(b);
                    },
                    None => {},
                }
            },
            None => {},
        }
        i += 1;
    }
    Err(ExtractError::NoPreviewFound)
}

/// Opens the disposable store copy and mines it for the preview blob.
pub fn mine_store(store_path: &String) -> (r: Result<Vec<u8>, ExtractError>)
    ensures
        r matches Ok(b) ==> b@.len() > 100,
        r matches Err(e) ==> e is NoPreviewFound || e is StoreOpenError,
{
    let conn = match store_open(store_path) {
        Ok(c) => c,
        Err(m) => {
            return Err(ExtractError::StoreOpenError(m));
        },
    };
    select_preview_from_store(&conn)
}

} // verus!
