use vstd::prelude::*;
use vstd::string::{StrSliceExecFns, StringExecFns};

use crate::column::Column;
use crate::error::Error;
use crate::text::{
    emitted, first_error, join, lemma_first_error_prefix, lemma_first_error_step,
    lemma_join_prefix_len, lemma_join_step, length_result, opt_text,
};

verus! {

/// Number of columns of `cols` that carry a primary key.
pub open spec fn pk_count(cols: Seq<Column>) -> nat
    decreases cols.len(),
{
    if cols.len() == 0 {
        0
    } else {
        pk_count(cols.drop_last()) + if cols.last().pk is Some {
            1nat
        } else {
            0nat
        }
    }
}

pub open spec fn column_validity() -> spec_fn(Column) -> Result<(), Error> {
    |c: Column| c.validate()
}

/// The rendered definitions of `cols`, in order.
pub open spec fn column_sqls(cols: Seq<Column>) -> Seq<Seq<char>> {
    cols.map_values(|c: Column| c.sql())
}

/// The guard that keeps a `CREATE` from failing on an existing object.
pub open spec fn guard_sql(if_exists: bool) -> Seq<char> {
    opt_text(if_exists, "IF NOT EXISTS "@)
}

proof fn lemma_pk_count_prefix(cols: Seq<Column>, i: int, j: int)
    requires
        0 <= i <= j <= cols.len(),
    ensures
        pk_count(cols.subrange(0, i)) <= pk_count(cols.subrange(0, j)),
    decreases j - i,
{
    if j > i {
        lemma_pk_count_prefix(cols, i, j - 1);
        assert(cols.subrange(0, j).drop_last() =~= cols.subrange(0, j - 1));
    }
}

/// A table:
/// `CREATE TABLE [IF NOT EXISTS ]<name> (<col>,<col>...)[ WITHOUT ROWID][,][ STRICT]`.
#[derive(Debug, Clone, Eq)]
pub struct Table {
    pub name: String,
    pub columns: Vec<Column>,
    pub without_rowid: bool,
    pub strict: bool,
}

impl Table {
    /// The first rule that the table breaks, if any: several primary keys,
    /// then an empty name, then no columns, then a table without rowid and
    /// without primary key, then the first column that breaks its own rules.
    pub open spec fn validate(&self) -> Result<(), Error> {
        let cols = self.columns@;
        if pk_count(cols) > 1 {
            Err(Error::MultiplePrimaryKeys)
        } else if self.name@.len() == 0 {
            Err(Error::EmptyTableName)
        } else if cols.len() == 0 {
            Err(Error::NoColumns)
        } else if self.without_rowid && pk_count(cols) == 0 {
            Err(Error::WithoutRowidNoPrimaryKey)
        } else {
            first_error(cols, column_validity())
        }
    }

    pub open spec fn columns_sql(&self) -> Seq<char> {
        join(column_sqls(self.columns@), ","@)
    }

    pub open spec fn sql(&self, if_exists: bool) -> Seq<char> {
        "CREATE TABLE "@ + guard_sql(if_exists) + self.name@ + " ("@ + self.columns_sql() + ")"@
            + opt_text(self.without_rowid, " WITHOUT ROWID"@) + opt_text(
            self.without_rowid && self.strict,
            ","@,
        ) + opt_text(self.strict, " STRICT"@)
    }

    pub fn check(&self) -> (r: Result<(), Error>)
        ensures
            r == self.validate(),
    {
        let ghost cols = self.columns@;
        let mut has_pk: bool = false;
        let mut i: usize = 0;
        while i < self.columns.len()
            invariant
                i <= cols.len(),
                cols == self.columns@,
                pk_count(cols.subrange(0, i as int)) == if has_pk {
                    1nat
                } else {
                    0nat
                },
            decreases cols.len() - i,
        {
            assert(cols.subrange(0, i + 1).drop_last() =~= cols.subrange(0, i as int));
            if self.columns[i].pk.is_some() {
                if has_pk {
                    proof {
                        lemma_pk_count_prefix(cols, i + 1, cols.len() as int);
                        assert(cols.subrange(0, cols.len() as int) =~= cols);
                    }
                    return Err(Error::MultiplePrimaryKeys);
                }
                has_pk = true;
            }
            i += 1;
        }
        assert(cols.subrange(0, cols.len() as int) =~= cols);
        if self.name.as_str().is_empty() {
            return Err(Error::EmptyTableName);
        }
        if self.columns.len() == 0 {
            return Err(Error::NoColumns);
        }
        if self.without_rowid && !has_pk {
            return Err(Error::WithoutRowidNoPrimaryKey);
        }
        assert(self.validate() == first_error(cols, column_validity()));
        let mut j: usize = 0;
        while j < self.columns.len()
            invariant
                j <= cols.len(),
                cols == self.columns@,
                self.validate() == first_error(cols, column_validity()),
                first_error(cols.subrange(0, j as int), column_validity()) is Ok,
            decreases cols.len() - j,
        {
            proof {
                lemma_first_error_step(cols, column_validity(), j as int);
            }
            match self.columns[j].check() {
                Err(e) => {
                    proof {
                        lemma_first_error_prefix(cols, column_validity(), j + 1, cols.len() as int);
                        assert(cols.subrange(0, cols.len() as int) =~= cols);
                    }
                    return Err(e);
                },
                Ok(()) => {},
            }
            j += 1;
        }
        assert(cols.subrange(0, cols.len() as int) =~= cols);
        Ok(())
    }

    pub fn new(name: String, columns: Vec<Column>, without_rowid: bool, strict: bool) -> (r: Self)
        ensures
            r == (Table { name, columns, without_rowid, strict }),
    {
        Table { name, columns, without_rowid, strict }
    }

    /// A table without columns, with rowid and without strict typing.
    pub fn new_default(name: String) -> (r: Self)
        ensures
            r.name == name,
            r.columns@ == Seq::<Column>::empty(),
            !r.without_rowid,
            !r.strict,
    {
        Table { name, columns: Vec::new(), without_rowid: false, strict: false }
    }

    pub fn set_name(self, name: String) -> (r: Self)
        ensures
            r == (Table { name, ..self }),
    {
        Table { name, ..self }
    }

    /// Appends `col` after the existing columns.
    pub fn add_column(self, col: Column) -> (r: Self)
        ensures
            r.name == self.name,
            r.columns@ == self.columns@.push(col),
            r.without_rowid == self.without_rowid,
            r.strict == self.strict,
    {
        let mut columns = self.columns;
        columns.push(col);
        Table { columns, ..self }
    }

    pub fn set_without_rowid(self, without_rowid: bool) -> (r: Self)
        ensures
            r == (Table { without_rowid, ..self }),
    {
        Table { without_rowid, ..self }
    }

    pub fn set_strict(self, strict: bool) -> (r: Self)
        ensures
            r == (Table { strict, ..self }),
    {
        Table { strict, ..self }
    }

    /// Validates, then returns the number of characters that `part_str`
    /// appends with the same guard.
    pub fn part_len(&self, if_exists: bool) -> (r: Result<usize, Error>)
        requires
            self.sql(if_exists).len() <= usize::MAX,
        ensures
            r == length_result(self.validate(), self.sql(if_exists)),
    {
        match self.check() {
            Err(e) => Err(e),
            Ok(()) => Ok(self.sql_len(if_exists)),
        }
    }

    /// Validates, then appends the statement (without its terminator) to
    /// `sql`; appends nothing on an error.
    pub fn part_str(&self, if_exists: bool, sql: &mut String) -> (r: Result<(), Error>)
        ensures
            r == self.validate(),
            final(sql)@ == old(sql)@ + emitted(self.validate(), self.sql(if_exists)),
    {
        match self.check() {
            Err(e) => {
                assert(sql@ =~= old(sql)@ + emitted(self.validate(), self.sql(if_exists)));
                Err(e)
            },
            Ok(()) => {
                self.write_sql(if_exists, sql);
                Ok(())
            },
        }
    }

    fn columns_len(&self) -> (r: usize)
        requires
            self.columns_sql().len() <= usize::MAX,
        ensures
            r == self.columns_sql().len(),
    {
        let ghost parts = column_sqls(self.columns@);
        let mut total: usize = 0;
        let mut i: usize = 0;
        proof {
            reveal_strlit(",");
            assert(parts.subrange(0, 0) =~= Seq::<Seq<char>>::empty());
        }
        while i < self.columns.len()
            invariant
                i <= self.columns@.len(),
                parts == column_sqls(self.columns@),
                parts.len() == self.columns@.len(),
                join(parts, ","@).len() <= usize::MAX,
                total == join(parts.subrange(0, i as int), ","@).len(),
            decreases self.columns@.len() - i,
        {
            proof {
                reveal_strlit(",");
                lemma_join_step(parts, ","@, i as int);
                lemma_join_prefix_len(parts, ","@, i + 1);
                assert(parts[i as int] == self.columns@[i as int].sql());
            }
            let col_len: usize = self.columns[i].sql_len();
            if i > 0 {
                total = total + 1;
            }
            total = total + col_len;
            i += 1;
        }
        assert(parts.subrange(0, i as int) =~= parts);
        total
    }

    pub(crate) fn sql_len(&self, if_exists: bool) -> (r: usize)
        requires
            self.sql(if_exists).len() <= usize::MAX,
        ensures
            r == self.sql(if_exists).len(),
    {
        proof {
            reveal_strlit("CREATE TABLE ");
            reveal_strlit("IF NOT EXISTS ");
            reveal_strlit(" (");
            reveal_strlit(")");
            reveal_strlit(" WITHOUT ROWID");
            reveal_strlit(",");
            reveal_strlit(" STRICT");
        }
        let guard_len: usize = if if_exists { 14 } else { 0 };
        let name_len: usize = self.name.as_str().unicode_len();
        let cols_len: usize = self.columns_len();
        let rowid_len: usize = if self.without_rowid { 14 } else { 0 };
        let comma_len: usize = if self.without_rowid && self.strict { 1 } else { 0 };
        let strict_len: usize = if self.strict { 7 } else { 0 };
        13 + guard_len + name_len + 2 + cols_len + 1 + rowid_len + comma_len + strict_len
    }

    fn write_columns(&self, sql: &mut String)
        ensures
            final(sql)@ == old(sql)@ + self.columns_sql(),
    {
        let ghost parts = column_sqls(self.columns@);
        let mut i: usize = 0;
        assert(parts.subrange(0, 0) =~= Seq::<Seq<char>>::empty());
        while i < self.columns.len()
            invariant
                i <= self.columns@.len(),
                parts == column_sqls(self.columns@),
                parts.len() == self.columns@.len(),
                sql@ == old(sql)@ + join(parts.subrange(0, i as int), ","@),
            decreases self.columns@.len() - i,
        {
            proof {
                lemma_join_step(parts, ","@, i as int);
            }
            if i > 0 {
                sql.append(",");
            }
            self.columns[i].write_sql(sql);
            assert(sql@ =~= old(sql)@ + join(parts.subrange(0, i + 1), ","@));
            i += 1;
        }
        assert(parts.subrange(0, i as int) =~= parts);
    }

    pub(crate) fn write_sql(&self, if_exists: bool, sql: &mut String)
        ensures
            final(sql)@ == old(sql)@ + self.sql(if_exists),
    {
        sql.append("CREATE TABLE ");
        if if_exists {
            sql.append("IF NOT EXISTS ");
        }
        sql.append(self.name.as_str());
        sql.append(" (");
        self.write_columns(sql);
        sql.append(")");
        if self.without_rowid {
            sql.append(" WITHOUT ROWID");
        }
        if self.without_rowid && self.strict {
            sql.append(",");
        }
        if self.strict {
            sql.append(" STRICT");
        }
        assert(sql@ =~= old(sql)@ + self.sql(if_exists));
    }
}

impl Table {
    /// Field-by-field equality, columns compared in order.
    pub open spec fn same(&self, o: &Table) -> bool {
        &&& self.name@ == o.name@
        &&& self.without_rowid == o.without_rowid
        &&& self.strict == o.strict
        &&& self.columns@.len() == o.columns@.len()
        &&& forall|i: int|
            0 <= i < self.columns@.len() ==> #[trigger] self.columns@[i].same(&o.columns@[i])
    }
}

impl PartialEq for Table {
    fn eq(&self, o: &Table) -> (r: bool) {
        if self.name != o.name || self.without_rowid != o.without_rowid || self.strict != o.strict {
            return false;
        }
        if self.columns.len() != o.columns.len() {
            return false;
        }
        let mut i: usize = 0;
        while i < self.columns.len()
            invariant
                i <= self.columns@.len(),
                self.columns@.len() == o.columns@.len(),
                forall|k: int| 0 <= k < i ==> #[trigger] self.columns@[k].same(&o.columns@[k]),
            decreases self.columns@.len() - i,
        {
            if !(self.columns[i] == o.columns[i]) {
                return false;
            }
            i += 1;
        }
        true
    }
}

impl vstd::std_specs::cmp::PartialEqSpecImpl for Table {
    open spec fn obeys_eq_spec() -> bool {
        true
    }

    open spec fn eq_spec(&self, o: &Table) -> bool {
        self.same(o)
    }
}

} // verus!
