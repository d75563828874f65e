//! Comparison of a table with what a live database's catalog reports of it.
//! Querying the catalog is left to the caller; this module decides, from the
//! values read, on which fields the two disagree.
use vstd::prelude::*;
use vstd::view::View as _;

use crate::table::Table;

verus! {

/// What the catalog of a database lists for one table.
#[derive(Debug, Clone, PartialEq, Eq)]
pub struct CatalogTable {
    pub name: String,
    pub ncol: usize,
    pub without_rowid: bool,
    pub strict: bool,
}

/// A field on which a table and its catalog entry disagree.
#[derive(Debug, Clone, Copy, PartialEq, Eq, Structural)]
pub enum Discrepancy {
    Name,
    WithoutRowid,
    Strict,
    ColumnCount,
}

/// The discrepancies between `tbl` and `row`, in the order name,
/// without-rowid flag, strict flag, number of columns.
pub open spec fn discrepancies(tbl: Table, row: CatalogTable) -> Seq<Discrepancy> {
    (if tbl.name@ != row.name@ {
        seq![Discrepancy::Name]
    } else {
        Seq::empty()
    }) + (if tbl.without_rowid != row.without_rowid {
        seq![Discrepancy::WithoutRowid]
    } else {
        Seq::empty()
    }) + (if tbl.strict != row.strict {
        seq![Discrepancy::Strict]
    } else {
        Seq::empty()
    }) + (if tbl.columns@.len() != row.ncol {
        seq![Discrepancy::ColumnCount]
    } else {
        Seq::empty()
    })
}

/// Compares `tbl` with the catalog's entry for it; an empty result means
/// that they agree.
pub fn check_table(tbl: &Table, row: &CatalogTable) -> (r: Vec<Discrepancy>)
    ensures
        r@ == discrepancies(*tbl, *row),
{
    let mut ret: Vec<Discrepancy> = Vec::new();
    if tbl.name != row.name {
        ret.push(Discrepancy::Name);
    }
    if tbl.without_rowid != row.without_rowid {
        ret.push(Discrepancy::WithoutRowid);
    }
    if tbl.strict != row.strict {
        ret.push(Discrepancy::Strict);
    }
    if tbl.columns.len() != row.ncol {
        ret.push(Discrepancy::ColumnCount);
    }
    assert(ret@ =~= discrepancies(*tbl, *row));
    ret
}

} // verus!
