//! Properties that hold of every configuration, stated over the same spec
//! functions that the length and emit operations' contracts use.
use vstd::prelude::*;
use vstd::view::View as _;

use crate::column::Column;
use crate::constraints::{ForeignKey, Generated};
use crate::error::Error;
use crate::schema::Schema;
use crate::statement::{build_result, wrapped, SQLStatement};
use crate::table::{pk_count, Table};
use crate::text::{emitted, length_result};
use crate::view::View;

verus! {

/// For a valid foreign key, `part_len` returns exactly the number of
/// characters that `part_str` appends; for an invalid one both fail with the
/// same error and nothing is appended.
pub proof fn law_foreign_key_two_phases(fk: ForeignKey)
    requires
        fk.sql().len() <= usize::MAX,
    ensures
        fk.validate() is Ok ==> length_result(fk.validate(), fk.sql()) == Ok::<usize, Error>(
            emitted(fk.validate(), fk.sql()).len() as usize,
        ),
        fk.validate() is Err ==> length_result(fk.validate(), fk.sql()) == Err::<usize, Error>(
            fk.validate()->Err_0,
        ) && emitted(fk.validate(), fk.sql()) == Seq::<char>::empty(),
{
}

/// For a valid generated clause, `part_len` returns exactly the number of
/// characters that `part_str` appends; for an invalid one both fail with the
/// same error and nothing is appended.
pub proof fn law_generated_two_phases(g: Generated)
    requires
        g.sql().len() <= usize::MAX,
    ensures
        g.validate() is Ok ==> length_result(g.validate(), g.sql()) == Ok::<usize, Error>(
            emitted(g.validate(), g.sql()).len() as usize,
        ),
        g.validate() is Err ==> length_result(g.validate(), g.sql()) == Err::<usize, Error>(
            g.validate()->Err_0,
        ) && emitted(g.validate(), g.sql()) == Seq::<char>::empty(),
{
}

/// For a valid column, `part_len` returns exactly the number of characters
/// that `part_str` appends.
pub proof fn law_column_length_invariant(c: Column)
    requires
        c.validate() is Ok,
        c.sql().len() <= usize::MAX,
    ensures
        length_result(c.validate(), c.sql()) == Ok::<usize, Error>(
            emitted(c.validate(), c.sql()).len() as usize,
        ),
{
}

/// For an invalid column, `part_len` and `part_str` fail with the same error,
/// and `part_str` appends nothing.
pub proof fn law_column_validation_parity(c: Column)
    requires
        c.validate() is Err,
    ensures
        length_result(c.validate(), c.sql()) == Err::<usize, Error>(c.validate()->Err_0),
        emitted(c.validate(), c.sql()) == Seq::<char>::empty(),
{
}

/// For a valid table and either guard, `part_len` returns exactly the number
/// of characters that `part_str` appends.
pub proof fn law_table_length_invariant(t: Table, if_exists: bool)
    requires
        t.validate() is Ok,
        t.sql(if_exists).len() <= usize::MAX,
    ensures
        length_result(t.validate(), t.sql(if_exists)) == Ok::<usize, Error>(
            emitted(t.validate(), t.sql(if_exists)).len() as usize,
        ),
{
}

/// For an invalid table, `part_len` and `part_str` fail with the same error,
/// and `part_str` appends nothing.
pub proof fn law_table_validation_parity(t: Table, if_exists: bool)
    requires
        t.validate() is Err,
    ensures
        length_result(t.validate(), t.sql(if_exists)) == Err::<usize, Error>(t.validate()->Err_0),
        emitted(t.validate(), t.sql(if_exists)) == Seq::<char>::empty(),
{
}

/// For a valid view and either guard, `part_len` returns exactly the number
/// of characters that `part_str` appends.
pub proof fn law_view_length_invariant(v: View, if_exists: bool)
    requires
        v.validate() is Ok,
        v.sql(if_exists).len() <= usize::MAX,
    ensures
        length_result(v.validate(), v.sql(if_exists)) == Ok::<usize, Error>(
            emitted(v.validate(), v.sql(if_exists)).len() as usize,
        ),
{
}

/// For an invalid view, `part_len` and `part_str` fail with the same error,
/// and `part_str` appends nothing.
pub proof fn law_view_validation_parity(v: View, if_exists: bool)
    requires
        v.validate() is Err,
    ensures
        length_result(v.validate(), v.sql(if_exists)) == Err::<usize, Error>(v.validate()->Err_0),
        emitted(v.validate(), v.sql(if_exists)) == Seq::<char>::empty(),
{
}

/// For a valid statement (table, view or schema) and any flags, every text
/// that `build` can return has exactly the length that `len` returns.
pub proof fn law_statement_length_invariant<S: SQLStatement>(s: &S, transaction: bool, if_exists: bool)
    requires
        s.statement_validity() is Ok,
        wrapped(s.statement_sql(if_exists), transaction).len() <= usize::MAX,
    ensures
        forall|r: Result<String, Error>|
            build_result(
                s.statement_validity(),
                wrapped(s.statement_sql(if_exists), transaction),
                r,
            ) ==> r is Ok && length_result(
                s.statement_validity(),
                wrapped(s.statement_sql(if_exists), transaction),
            ) == Ok::<usize, Error>(r->Ok_0@.len() as usize),
{
}

/// For an invalid statement and any flags, `len` and `build` fail with the
/// same error.
pub proof fn law_statement_validation_parity<S: SQLStatement>(s: &S, transaction: bool, if_exists: bool)
    requires
        s.statement_validity() is Err,
    ensures
        length_result(s.statement_validity(), wrapped(s.statement_sql(if_exists), transaction))
            == Err::<usize, Error>(s.statement_validity()->Err_0),
        forall|r: Result<String, Error>|
            build_result(
                s.statement_validity(),
                wrapped(s.statement_sql(if_exists), transaction),
                r,
            ) ==> r == Err::<String, Error>(s.statement_validity()->Err_0),
{
}

/// Every combination of clauses on a column yields its designated result:
/// an empty name first, then a primary key beside a foreign key, then a
/// primary key beside a unique clause, then the foreign key's own error;
/// every other combination renders.
pub proof fn law_column_combinations(c: Column)
    ensures
        c.name@.len() == 0 ==> c.validate() == Err::<(), Error>(Error::EmptyColumnName),
        c.name@.len() > 0 && c.pk is Some && c.fk is Some ==> c.validate() == Err::<(), Error>(
            Error::PrimaryKeyAndForeignKey,
        ),
        c.name@.len() > 0 && c.pk is Some && c.fk is None && c.unique is Some ==> c.validate()
            == Err::<(), Error>(Error::PrimaryKeyAndUnique),
        c.name@.len() > 0 && c.pk is None && c.fk is Some ==> c.validate() == c.fk->Some_0.validate(),
        c.name@.len() > 0 && c.fk is None && !(c.pk is Some && c.unique is Some) ==> c.validate()
            is Ok,
{
}

/// Every combination of a foreign key's names yields its designated result.
pub proof fn law_foreign_key_combinations(fk: ForeignKey)
    ensures
        fk.foreign_table@.len() == 0 ==> fk.validate() == Err::<(), Error>(Error::EmptyForeignTableName),
        fk.foreign_table@.len() > 0 && fk.foreign_column@.len() == 0 ==> fk.validate() == Err::<
            (),
            Error,
        >(Error::EmptyForeignColumnName),
        fk.foreign_table@.len() > 0 && fk.foreign_column@.len() > 0 ==> fk.validate() is Ok,
{
}

/// A generated clause is valid exactly when its expression is non-empty.
pub proof fn law_generated_combinations(g: Generated)
    ensures
        g.expr@.len() == 0 ==> g.validate() == Err::<(), Error>(Error::EmptyGeneratorExpr),
        g.expr@.len() > 0 ==> g.validate() is Ok,
{
}

/// Every illegal table shape yields its designated error: several primary
/// keys whatever else holds, then an empty name, then no columns whatever
/// the flags, then a table without rowid and without primary key.
pub proof fn law_table_combinations(t: Table)
    ensures
        pk_count(t.columns@) > 1 ==> t.validate() == Err::<(), Error>(Error::MultiplePrimaryKeys),
        pk_count(t.columns@) <= 1 && t.name@.len() == 0 ==> t.validate() == Err::<(), Error>(
            Error::EmptyTableName,
        ),
        t.name@.len() > 0 && t.columns@.len() == 0 ==> t.validate() == Err::<(), Error>(
            Error::NoColumns,
        ),
        pk_count(t.columns@) <= 1 && t.name@.len() > 0 && t.columns@.len() > 0 && t.without_rowid
            && pk_count(t.columns@) == 0 ==> t.validate() == Err::<(), Error>(
            Error::WithoutRowidNoPrimaryKey,
        ),
{
    if t.columns@.len() == 0 {
        assert(pk_count(t.columns@) == 0);
    }
}

/// Every illegal view shape yields its designated error, and a view without
/// an output-column list is not one of them.
pub proof fn law_view_combinations(v: View)
    ensures
        v.name@.len() == 0 ==> v.validate() == Err::<(), Error>(Error::EmptyViewName),
        v.name@.len() > 0 && v.select@.len() == 0 ==> v.validate() == Err::<(), Error>(
            Error::EmptyViewSelect,
        ),
        v.name@.len() > 0 && v.select@.len() > 0 && v.columns is Some && v.columns->Some_0@.len()
            == 0 ==> v.validate() == Err::<(), Error>(Error::NoColumns),
        v.name@.len() > 0 && v.select@.len() > 0 && v.columns is None ==> v.validate() is Ok,
{
}

/// A schema without tables fails with the empty-schema error, whatever views
/// it holds.
pub proof fn law_schema_needs_a_table(s: Schema)
    ensures
        s.tables@.len() == 0 ==> s.validate() == Err::<(), Error>(Error::EmptySchema),
{
}

} // verus!
