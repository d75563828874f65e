use vstd::prelude::*;

verus! {

/// The configuration errors of every schema element, one per violated rule.
#[derive(Debug, Clone, Copy, PartialEq, Eq, Structural)]
pub enum Error {
    /// A foreign key names an empty target table.
    EmptyForeignTableName,
    /// A foreign key names an empty target column.
    EmptyForeignColumnName,
    /// A column, or a view's output column, has an empty name.
    EmptyColumnName,
    /// A column carries a primary key and a foreign key at once.
    PrimaryKeyAndForeignKey,
    /// A column carries a primary key and a unique clause at once
    /// (a primary key already implies uniqueness).
    PrimaryKeyAndUnique,
    /// A generated column has an empty expression.
    EmptyGeneratorExpr,
    /// A view has an empty select body.
    EmptyViewSelect,
    /// A table has an empty name.
    EmptyTableName,
    /// A view has an empty name.
    EmptyViewName,
    /// A table has no columns, or a view declares an empty output-column list.
    NoColumns,
    /// More than one column of a table carries a primary key.
    MultiplePrimaryKeys,
    /// A table without rowid has no column that carries a primary key.
    WithoutRowidNoPrimaryKey,
    /// A schema holds no table.
    EmptySchema,
}

} // verus!
