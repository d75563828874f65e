use vstd::prelude::*;
use vstd::string::{StrSliceExecFns, StringExecFns};

use crate::error::Error;
use crate::text::{emitted, length_result, opt_text, spaced};
use crate::vocab::{FKOnAction, GeneratedAs, OnConflict, Order};

verus! {

/// Marks a column as the primary key of its table:
/// `PRIMARY KEY <order> <conflict policy>[ AUTOINCREMENT]`.
#[derive(Debug, Clone, Copy, PartialEq, Eq, Structural)]
pub struct PrimaryKey {
    pub sort_order: Order,
    pub on_conflict: OnConflict,
    pub autoincrement: bool,
}

impl Default for PrimaryKey {
    /// Ascending, aborting on conflict, without autoincrement.
    fn default() -> (r: Self)
        ensures
            r == (PrimaryKey {
                sort_order: Order::Ascending,
                on_conflict: OnConflict::Abort,
                autoincrement: false,
            }),
    {
        PrimaryKey { sort_order: Order::Ascending, on_conflict: OnConflict::Abort, autoincrement: false }
    }
}

impl PrimaryKey {
    pub open spec fn sql(self) -> Seq<char> {
        "PRIMARY KEY "@ + self.sort_order.sql() + " "@ + self.on_conflict.sql() + opt_text(
            self.autoincrement,
            " AUTOINCREMENT"@,
        )
    }

    pub fn new(sort_order: Order, on_conflict: OnConflict, autoincrement: bool) -> (r: Self)
        ensures
            r == (PrimaryKey { sort_order, on_conflict, autoincrement }),
    {
        PrimaryKey { sort_order, on_conflict, autoincrement }
    }

    pub fn set_sort_order(self, ord: Order) -> (r: Self)
        ensures
            r == (PrimaryKey { sort_order: ord, ..self }),
    {
        PrimaryKey { sort_order: ord, ..self }
    }

    pub fn set_on_conflict(self, on_conf: OnConflict) -> (r: Self)
        ensures
            r == (PrimaryKey { on_conflict: on_conf, ..self }),
    {
        PrimaryKey { on_conflict: on_conf, ..self }
    }

    pub fn set_autoincrement(self, auto_inc: bool) -> (r: Self)
        ensures
            r == (PrimaryKey { autoincrement: auto_inc, ..self }),
    {
        PrimaryKey { autoincrement: auto_inc, ..self }
    }

    /// Number of characters that `part_str` appends; a primary key is always valid.
    pub fn part_len(&self) -> (r: Result<usize, Error>)
        ensures
            r == Ok::<usize, Error>(self.sql().len() as usize),
    {
        Ok(self.sql_len())
    }

    pub fn part_str(&self, sql: &mut String) -> (r: Result<(), Error>)
        ensures
            r == Ok::<(), Error>(()),
            final(sql)@ == old(sql)@ + self.sql(),
    {
        self.write_sql(sql);
        Ok(())
    }

    pub(crate) fn sql_len(&self) -> (r: usize)
        ensures
            r == self.sql().len(),
    {
        proof {
            reveal_strlit("PRIMARY KEY ");
            reveal_strlit(" ");
            reveal_strlit(" AUTOINCREMENT");
        }
        let auto_inc: usize = if self.autoincrement { 14 } else { 0 };
        12 + self.sort_order.sql_len() + 1 + self.on_conflict.sql_len() + auto_inc
    }

    pub(crate) fn write_sql(&self, sql: &mut String)
        ensures
            final(sql)@ == old(sql)@ + self.sql(),
    {
        sql.append("PRIMARY KEY ");
        self.sort_order.write_sql(sql);
        sql.append(" ");
        self.on_conflict.write_sql(sql);
        if self.autoincrement {
            sql.append(" AUTOINCREMENT");
        }
        assert(sql@ =~= old(sql)@ + self.sql());
    }
}

/// Forbids `NULL` values in a column: `NOT NULL <conflict policy>`.
#[derive(Debug, Clone, Copy, PartialEq, Eq, Structural)]
pub struct NotNull {
    pub on_conflict: OnConflict,
}

impl Default for NotNull {
    /// Aborting on conflict.
    fn default() -> (r: Self)
        ensures
            r == (NotNull { on_conflict: OnConflict::Abort }),
    {
        NotNull { on_conflict: OnConflict::Abort }
    }
}

impl NotNull {
    pub open spec fn sql(self) -> Seq<char> {
        "NOT NULL "@ + self.on_conflict.sql()
    }

    pub fn new(on_conflict: OnConflict) -> (r: Self)
        ensures
            r == (NotNull { on_conflict }),
    {
        NotNull { on_conflict }
    }

    pub fn set_on_conflict(self, on_conf: OnConflict) -> (r: Self)
        ensures
            r == (NotNull { on_conflict: on_conf }),
    {
        NotNull { on_conflict: on_conf }
    }

    /// Number of characters that `part_str` appends; a not-null clause is always valid.
    pub fn part_len(&self) -> (r: Result<usize, Error>)
        ensures
            r == Ok::<usize, Error>(self.sql().len() as usize),
    {
        proof {
            reveal_strlit("NOT NULL ");
        }
        Ok(9 + self.on_conflict.sql_len())
    }

    pub fn part_str(&self, sql: &mut String) -> (r: Result<(), Error>)
        ensures
            r == Ok::<(), Error>(()),
            final(sql)@ == old(sql)@ + self.sql(),
    {
        sql.append("NOT NULL ");
        self.on_conflict.write_sql(sql);
        assert(sql@ =~= old(sql)@ + self.sql());
        Ok(())
    }
}

/// Forbids repeated values in a column: `UNIQUE <conflict policy>`.
#[derive(Debug, Clone, Copy, PartialEq, Eq, Structural)]
pub struct Unique {
    pub on_conflict: OnConflict,
}

impl Default for Unique {
    /// Aborting on conflict.
    fn default() -> (r: Self)
        ensures
            r == (Unique { on_conflict: OnConflict::Abort }),
    {
        Unique { on_conflict: OnConflict::Abort }
    }
}

impl Unique {
    pub open spec fn sql(self) -> Seq<char> {
        "UNIQUE "@ + self.on_conflict.sql()
    }

    pub fn new(on_conflict: OnConflict) -> (r: Self)
        ensures
            r == (Unique { on_conflict }),
    {
        Unique { on_conflict }
    }

    pub fn set_on_conflict(self, on_conf: OnConflict) -> (r: Self)
        ensures
            r == (Unique { on_conflict: on_conf }),
    {
        Unique { on_conflict: on_conf }
    }

    /// Number of characters that `part_str` appends; a unique clause is always valid.
    pub fn part_len(&self) -> (r: Result<usize, Error>)
        ensures
            r == Ok::<usize, Error>(self.sql().len() as usize),
    {
        Ok(self.sql_len())
    }

    pub fn part_str(&self, sql: &mut String) -> (r: Result<(), Error>)
        ensures
            r == Ok::<(), Error>(()),
            final(sql)@ == old(sql)@ + self.sql(),
    {
        self.write_sql(sql);
        Ok(())
    }

    pub(crate) fn sql_len(&self) -> (r: usize)
        ensures
            r == self.sql().len(),
    {
        proof {
            reveal_strlit("UNIQUE ");
        }
        7 + self.on_conflict.sql_len()
    }

    pub(crate) fn write_sql(&self, sql: &mut String)
        ensures
            final(sql)@ == old(sql)@ + self.sql(),
    {
        sql.append("UNIQUE ");
        self.on_conflict.write_sql(sql);
        assert(sql@ =~= old(sql)@ + self.sql());
    }
}

/// ` <action>` for a present action, nothing for an absent one.
pub open spec fn action_sql(action: Option<FKOnAction>) -> Seq<char> {
    match action {
        Some(a) => spaced(a.sql()),
        None => Seq::empty(),
    }
}

/// ` <mode>` for a present materialization mode, nothing for an absent one.
pub open spec fn mode_sql(mode: Option<GeneratedAs>) -> Seq<char> {
    match mode {
        Some(m) => spaced(m.sql()),
        None => Seq::empty(),
    }
}

fn action_len(action: Option<FKOnAction>) -> (r: usize)
    ensures
        r == action_sql(action).len(),
        r <= 21,
{
    proof {
        reveal_strlit(" ");
    }
    match action {
        Some(a) => 1 + a.sql_len(),
        None => 0,
    }
}

fn write_action(action: Option<FKOnAction>, sql: &mut String)
    ensures
        final(sql)@ == old(sql)@ + action_sql(action),
{
    match action {
        Some(a) => {
            sql.append(" ");
            a.write_sql(sql);
        },
        None => {},
    }
    assert(sql@ =~= old(sql)@ + action_sql(action));
}

/// References a column of another table:
/// `REFERENCES <table> (<column>)[ <on delete>][ <on update>][ DEFERRABLE INITIALLY DEFERRED]`.
/// Both names must be non-empty.
#[derive(Debug, Clone, Eq)]
pub struct ForeignKey {
    pub foreign_table: String,
    pub foreign_column: String,
    pub on_delete: Option<FKOnAction>,
    pub on_update: Option<FKOnAction>,
    pub deferrable: bool,
}

impl ForeignKey {
    /// The first rule that the clause breaks, if any.
    pub open spec fn validate(&self) -> Result<(), Error> {
        if self.foreign_table@.len() == 0 {
            Err(Error::EmptyForeignTableName)
        } else if self.foreign_column@.len() == 0 {
            Err(Error::EmptyForeignColumnName)
        } else {
            Ok(())
        }
    }

    pub open spec fn sql(&self) -> Seq<char> {
        "REFERENCES "@ + self.foreign_table@ + " ("@ + self.foreign_column@ + ")"@ + action_sql(
            self.on_delete,
        ) + action_sql(self.on_update) + opt_text(
            self.deferrable,
            " DEFERRABLE INITIALLY DEFERRED"@,
        )
    }

    pub fn check(&self) -> (r: Result<(), Error>)
        ensures
            r == self.validate(),
    {
        if self.foreign_table.as_str().is_empty() {
            return Err(Error::EmptyForeignTableName);
        }
        if self.foreign_column.as_str().is_empty() {
            return Err(Error::EmptyForeignColumnName);
        }
        Ok(())
    }

    pub fn new(
        foreign_table: String,
        foreign_column: String,
        on_delete: Option<FKOnAction>,
        on_update: Option<FKOnAction>,
        deferrable: bool,
    ) -> (r: Self)
        ensures
            r == (ForeignKey { foreign_table, foreign_column, on_delete, on_update, deferrable }),
    {
        ForeignKey { foreign_table, foreign_column, on_delete, on_update, deferrable }
    }

    /// A reference without actions, not deferrable.
    pub fn new_default(foreign_table: String, foreign_column: String) -> (r: Self)
        ensures
            r == (ForeignKey {
                foreign_table,
                foreign_column,
                on_delete: None,
                on_update: None,
                deferrable: false,
            }),
    {
        ForeignKey { foreign_table, foreign_column, on_delete: None, on_update: None, deferrable: false }
    }

    pub fn set_foreign_table(self, foreign_table: String) -> (r: Self)
        ensures
            r == (ForeignKey { foreign_table, ..self }),
    {
        ForeignKey { foreign_table, ..self }
    }

    pub fn set_foreign_column(self, foreign_column: String) -> (r: Self)
        ensures
            r == (ForeignKey { foreign_column, ..self }),
    {
        ForeignKey { foreign_column, ..self }
    }

    pub fn set_on_delete(self, on_delete: Option<FKOnAction>) -> (r: Self)
        ensures
            r == (ForeignKey { on_delete, ..self }),
    {
        ForeignKey { on_delete, ..self }
    }

    pub fn set_on_update(self, on_update: Option<FKOnAction>) -> (r: Self)
        ensures
            r == (ForeignKey { on_update, ..self }),
    {
        ForeignKey { on_update, ..self }
    }

    pub fn set_deferrable(self, deferrable: bool) -> (r: Self)
        ensures
            r == (ForeignKey { deferrable, ..self }),
    {
        ForeignKey { deferrable, ..self }
    }

    /// Validates, then returns the number of characters that `part_str` appends.
    pub fn part_len(&self) -> (r: Result<usize, Error>)
        requires
            self.sql().len() <= usize::MAX,
        ensures
            r == length_result(self.validate(), self.sql()),
    {
        match self.check() {
            Err(e) => Err(e),
            Ok(()) => Ok(self.sql_len()),
        }
    }

    /// Validates, then appends the clause to `sql`; appends nothing on an error.
    pub fn part_str(&self, sql: &mut String) -> (r: Result<(), Error>)
        ensures
            r == self.validate(),
            final(sql)@ == old(sql)@ + emitted(self.validate(), self.sql()),
    {
        match self.check() {
            Err(e) => {
                assert(sql@ =~= old(sql)@ + emitted(self.validate(), self.sql()));
                Err(e)
            },
            Ok(()) => {
                self.write_sql(sql);
                Ok(())
            },
        }
    }

    pub(crate) fn sql_len(&self) -> (r: usize)
        requires
            self.sql().len() <= usize::MAX,
        ensures
            r == self.sql().len(),
    {
        proof {
            reveal_strlit("REFERENCES ");
            reveal_strlit(" (");
            reveal_strlit(")");
            reveal_strlit(" DEFERRABLE INITIALLY DEFERRED");
        }
        let table_len: usize = self.foreign_table.as_str().unicode_len();
        let column_len: usize = self.foreign_column.as_str().unicode_len();
        let deferrable_len: usize = if self.deferrable { 30 } else { 0 };
        11 + table_len + 2 + column_len + 1 + action_len(self.on_delete) + action_len(self.on_update)
            + deferrable_len
    }

    pub(crate) fn write_sql(&self, sql: &mut String)
        ensures
            final(sql)@ == old(sql)@ + self.sql(),
    {
        sql.append("REFERENCES ");
        sql.append(self.foreign_table.as_str());
        sql.append(" (");
        sql.append(self.foreign_column.as_str());
        sql.append(")");
        write_action(self.on_delete, sql);
        write_action(self.on_update, sql);
        if self.deferrable {
            sql.append(" DEFERRABLE INITIALLY DEFERRED");
        }
        assert(sql@ =~= old(sql)@ + self.sql());
    }
}

/// Makes a column generated from an expression:
/// `GENERATED ALWAYS AS (<expr>)[ <mode>]`. The expression is opaque text and
/// must be non-empty.
#[derive(Debug, Clone, Eq)]
pub struct Generated {
    pub expr: String,
    pub generated_as: Option<GeneratedAs>,
}

impl Generated {
    /// The first rule that the clause breaks, if any.
    pub open spec fn validate(&self) -> Result<(), Error> {
        if self.expr@.len() == 0 {
            Err(Error::EmptyGeneratorExpr)
        } else {
            Ok(())
        }
    }

    pub open spec fn sql(&self) -> Seq<char> {
        "GENERATED ALWAYS AS ("@ + self.expr@ + ")"@ + mode_sql(self.generated_as)
    }

    pub fn check(&self) -> (r: Result<(), Error>)
        ensures
            r == self.validate(),
    {
        if self.expr.as_str().is_empty() {
            return Err(Error::EmptyGeneratorExpr);
        }
        Ok(())
    }

    pub fn new(expr: String, generated_as: Option<GeneratedAs>) -> (r: Self)
        ensures
            r == (Generated { expr, generated_as }),
    {
        Generated { expr, generated_as }
    }

    /// A generated column without an explicit mode.
    pub fn new_default(expr: String) -> (r: Self)
        ensures
            r == (Generated { expr, generated_as: None }),
    {
        Generated { expr, generated_as: None }
    }

    pub fn set_expr(self, expr: String) -> (r: Self)
        ensures
            r == (Generated { expr, ..self }),
    {
        Generated { expr, ..self }
    }

    pub fn set_generated_as(self, generated_as: Option<GeneratedAs>) -> (r: Self)
        ensures
            r == (Generated { generated_as, ..self }),
    {
        Generated { generated_as, ..self }
    }

    /// Validates, then returns the number of characters that `part_str` appends.
    pub fn part_len(&self) -> (r: Result<usize, Error>)
        requires
            self.sql().len() <= usize::MAX,
        ensures
            r == length_result(self.validate(), self.sql()),
    {
        match self.check() {
            Err(e) => Err(e),
            Ok(()) => {
                proof {
                    reveal_strlit("GENERATED ALWAYS AS (");
                    reveal_strlit(")");
                    reveal_strlit(" ");
                }
                let expr_len: usize = self.expr.as_str().unicode_len();
                let mode_len: usize = match self.generated_as {
                    Some(m) => 1 + m.sql_len(),
                    None => 0,
                };
                Ok(21 + expr_len + 1 + mode_len)
            },
        }
    }

    /// Validates, then appends the clause to `sql`; appends nothing on an error.
    pub fn part_str(&self, sql: &mut String) -> (r: Result<(), Error>)
        ensures
            r == self.validate(),
            final(sql)@ == old(sql)@ + emitted(self.validate(), self.sql()),
    {
        match self.check() {
            Err(e) => {
                assert(sql@ =~= old(sql)@ + emitted(self.validate(), self.sql()));
                Err(e)
            },
            Ok(()) => {
                sql.append("GENERATED ALWAYS AS (");
                sql.append(self.expr.as_str());
                sql.append(")");
                match self.generated_as {
                    Some(m) => {
                        sql.append(" ");
                        m.write_sql(sql);
                    },
                    None => {},
                }
                assert(sql@ =~= old(sql)@ + emitted(self.validate(), self.sql()));
                Ok(())
            },
        }
    }
}

impl ForeignKey {
    /// Field-by-field equality, the names compared as text.
    pub open spec fn same(&self, o: &ForeignKey) -> bool {
        &&& self.foreign_table@ == o.foreign_table@
        &&& self.foreign_column@ == o.foreign_column@
        &&& self.on_delete == o.on_delete
        &&& self.on_update == o.on_update
        &&& self.deferrable == o.deferrable
    }
}

fn same_action(a: Option<FKOnAction>, b: Option<FKOnAction>) -> (r: bool)
    ensures
        r == (a == b),
{
    match (a, b) {
        (Some(x), Some(y)) => x == y,
        (None, None) => true,
        _ => false,
    }
}

impl PartialEq for ForeignKey {
    fn eq(&self, o: &ForeignKey) -> (r: bool) {
        self.foreign_table == o.foreign_table && self.foreign_column == o.foreign_column
            && same_action(self.on_delete, o.on_delete) && same_action(self.on_update, o.on_update)
            && self.deferrable == o.deferrable
    }
}

impl vstd::std_specs::cmp::PartialEqSpecImpl for ForeignKey {
    open spec fn obeys_eq_spec() -> bool {
        true
    }

    open spec fn eq_spec(&self, o: &ForeignKey) -> bool {
        self.same(o)
    }
}

impl Generated {
    /// Field-by-field equality, the expression compared as text.
    pub open spec fn same(&self, o: &Generated) -> bool {
        self.expr@ == o.expr@ && self.generated_as == o.generated_as
    }
}

impl PartialEq for Generated {
    fn eq(&self, o: &Generated) -> (r: bool) {
        let same_mode: bool = match (self.generated_as, o.generated_as) {
            (Some(x), Some(y)) => x == y,
            (None, None) => true,
            _ => false,
        };
        self.expr == o.expr && same_mode
    }
}

impl vstd::std_specs::cmp::PartialEqSpecImpl for Generated {
    open spec fn obeys_eq_spec() -> bool {
        true
    }

    open spec fn eq_spec(&self, o: &Generated) -> bool {
        self.same(o)
    }
}

} // verus!
