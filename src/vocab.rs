use vstd::prelude::*;
use vstd::string::StringExecFns;

use crate::error::Error;

verus! {

/// Declared storage class (type affinity) of a column.
#[derive(Debug, Clone, Copy, PartialEq, Eq, Structural)]
pub enum SQLiteType {
    Blob,
    Numeric,
    Integer,
    Real,
    Text,
}

impl Default for SQLiteType {
    /// The affinity of a column declared without a type: `Blob`.
    fn default() -> (r: Self)
        ensures
            r == SQLiteType::Blob,
    {
        SQLiteType::Blob
    }
}

impl SQLiteType {
    /// The keyword that renders this variant.
    pub open spec fn sql(self) -> Seq<char> {
        match self {
            SQLiteType::Blob => "BLOB"@,
            SQLiteType::Numeric => "NUMERIC"@,
            SQLiteType::Integer => "INTEGER"@,
            SQLiteType::Real => "REAL"@,
            SQLiteType::Text => "TEXT"@,
        }
    }

    /// Number of characters of the keyword.
    pub fn part_len(&self) -> (r: Result<usize, Error>)
        ensures
            r == Ok::<usize, Error>(self.sql().len() as usize),
    {
        Ok(self.sql_len())
    }

    /// Appends the keyword to `sql`.
    pub fn part_str(&self, sql: &mut String) -> (r: Result<(), Error>)
        ensures
            r == Ok::<(), Error>(()),
            final(sql)@ == old(sql)@ + self.sql(),
    {
        self.write_sql(sql);
        Ok(())
    }

    pub(crate) fn sql_len(&self) -> (r: usize)
        ensures
            r == self.sql().len(),
            r <= 20,
    {
        match self {
            SQLiteType::Blob => {
                proof { reveal_strlit("BLOB"); }
                4
            },
            SQLiteType::Numeric => {
                proof { reveal_strlit("NUMERIC"); }
                7
            },
            SQLiteType::Integer => {
                proof { reveal_strlit("INTEGER"); }
                7
            },
            SQLiteType::Real => {
                proof { reveal_strlit("REAL"); }
                4
            },
            SQLiteType::Text => {
                proof { reveal_strlit("TEXT"); }
                4
            },
        }
    }

    pub(crate) fn write_sql(&self, sql: &mut String)
        ensures
            final(sql)@ == old(sql)@ + self.sql(),
    {
        match self {
            SQLiteType::Blob => sql.append("BLOB"),
            SQLiteType::Numeric => sql.append("NUMERIC"),
            SQLiteType::Integer => sql.append("INTEGER"),
            SQLiteType::Real => sql.append("REAL"),
            SQLiteType::Text => sql.append("TEXT"),
        }
    }
}

/// Sort direction of a primary key.
#[derive(Debug, Clone, Copy, PartialEq, Eq, Structural)]
pub enum Order {
    Ascending,
    Descending,
}

impl Default for Order {
    /// The default direction: `Ascending`.
    fn default() -> (r: Self)
        ensures
            r == Order::Ascending,
    {
        Order::Ascending
    }
}

impl Order {
    /// The keyword that renders this variant.
    pub open spec fn sql(self) -> Seq<char> {
        match self {
            Order::Ascending => "ASC"@,
            Order::Descending => "DESC"@,
        }
    }

    /// Number of characters of the keyword.
    pub fn part_len(&self) -> (r: Result<usize, Error>)
        ensures
            r == Ok::<usize, Error>(self.sql().len() as usize),
    {
        Ok(self.sql_len())
    }

    /// Appends the keyword to `sql`.
    pub fn part_str(&self, sql: &mut String) -> (r: Result<(), Error>)
        ensures
            r == Ok::<(), Error>(()),
            final(sql)@ == old(sql)@ + self.sql(),
    {
        self.write_sql(sql);
        Ok(())
    }

    pub(crate) fn sql_len(&self) -> (r: usize)
        ensures
            r == self.sql().len(),
            r <= 20,
    {
        match self {
            Order::Ascending => {
                proof { reveal_strlit("ASC"); }
                3
            },
            Order::Descending => {
                proof { reveal_strlit("DESC"); }
                4
            },
        }
    }

    pub(crate) fn write_sql(&self, sql: &mut String)
        ensures
            final(sql)@ == old(sql)@ + self.sql(),
    {
        match self {
            Order::Ascending => sql.append("ASC"),
            Order::Descending => sql.append("DESC"),
        }
    }
}

/// Reaction to a violated constraint, used by primary-key, not-null and unique clauses.
#[derive(Debug, Clone, Copy, PartialEq, Eq, Structural)]
pub enum OnConflict {
    Rollback,
    Abort,
    Fail,
    Ignore,
    Replace,
}

impl Default for OnConflict {
    /// The dialect's documented default policy: `Abort`.
    fn default() -> (r: Self)
        ensures
            r == OnConflict::Abort,
    {
        OnConflict::Abort
    }
}

impl OnConflict {
    /// The keyword that renders this variant.
    pub open spec fn sql(self) -> Seq<char> {
        match self {
            OnConflict::Rollback => "ON CONFLICT ROLLBACK"@,
            OnConflict::Abort => "ON CONFLICT ABORT"@,
            OnConflict::Fail => "ON CONFLICT FAIL"@,
            OnConflict::Ignore => "ON CONFLICT IGNORE"@,
            OnConflict::Replace => "ON CONFLICT REPLACE"@,
        }
    }

    /// Number of characters of the keyword.
    pub fn part_len(&self) -> (r: Result<usize, Error>)
        ensures
            r == Ok::<usize, Error>(self.sql().len() as usize),
    {
        Ok(self.sql_len())
    }

    /// Appends the keyword to `sql`.
    pub fn part_str(&self, sql: &mut String) -> (r: Result<(), Error>)
        ensures
            r == Ok::<(), Error>(()),
            final(sql)@ == old(sql)@ + self.sql(),
    {
        self.write_sql(sql);
        Ok(())
    }

    pub(crate) fn sql_len(&self) -> (r: usize)
        ensures
            r == self.sql().len(),
            r <= 20,
    {
        match self {
            OnConflict::Rollback => {
                proof { reveal_strlit("ON CONFLICT ROLLBACK"); }
                20
            },
            OnConflict::Abort => {
                proof { reveal_strlit("ON CONFLICT ABORT"); }
                17
            },
            OnConflict::Fail => {
                proof { reveal_strlit("ON CONFLICT FAIL"); }
                16
            },
            OnConflict::Ignore => {
                proof { reveal_strlit("ON CONFLICT IGNORE"); }
                18
            },
            OnConflict::Replace => {
                proof { reveal_strlit("ON CONFLICT REPLACE"); }
                19
            },
        }
    }

    pub(crate) fn write_sql(&self, sql: &mut String)
        ensures
            final(sql)@ == old(sql)@ + self.sql(),
    {
        match self {
            OnConflict::Rollback => sql.append("ON CONFLICT ROLLBACK"),
            OnConflict::Abort => sql.append("ON CONFLICT ABORT"),
            OnConflict::Fail => sql.append("ON CONFLICT FAIL"),
            OnConflict::Ignore => sql.append("ON CONFLICT IGNORE"),
            OnConflict::Replace => sql.append("ON CONFLICT REPLACE"),
        }
    }
}

/// Reaction of a foreign key to a change of the referenced row.
#[derive(Debug, Clone, Copy, PartialEq, Eq, Structural)]
pub enum FKOnAction {
    SetNull,
    SetDefault,
    Cascade,
    Restrict,
    NoAction,
}

impl Default for FKOnAction {
    /// The dialect's documented default action: `NoAction`.
    fn default() -> (r: Self)
        ensures
            r == FKOnAction::NoAction,
    {
        FKOnAction::NoAction
    }
}

impl FKOnAction {
    /// The keyword that renders this variant.
    pub open spec fn sql(self) -> Seq<char> {
        match self {
            FKOnAction::SetNull => "SET NULL"@,
            FKOnAction::SetDefault => "SET DEFAULT"@,
            FKOnAction::Cascade => "CASCADE"@,
            FKOnAction::Restrict => "RESTRICT"@,
            FKOnAction::NoAction => "NO ACTION"@,
        }
    }

    /// Number of characters of the keyword.
    pub fn part_len(&self) -> (r: Result<usize, Error>)
        ensures
            r == Ok::<usize, Error>(self.sql().len() as usize),
    {
        Ok(self.sql_len())
    }

    /// Appends the keyword to `sql`.
    pub fn part_str(&self, sql: &mut String) -> (r: Result<(), Error>)
        ensures
            r == Ok::<(), Error>(()),
            final(sql)@ == old(sql)@ + self.sql(),
    {
        self.write_sql(sql);
        Ok(())
    }

    pub(crate) fn sql_len(&self) -> (r: usize)
        ensures
            r == self.sql().len(),
            r <= 20,
    {
        match self {
            FKOnAction::SetNull => {
                proof { reveal_strlit("SET NULL"); }
                8
            },
            FKOnAction::SetDefault => {
                proof { reveal_strlit("SET DEFAULT"); }
                11
            },
            FKOnAction::Cascade => {
                proof { reveal_strlit("CASCADE"); }
                7
            },
            FKOnAction::Restrict => {
                proof { reveal_strlit("RESTRICT"); }
                8
            },
            FKOnAction::NoAction => {
                proof { reveal_strlit("NO ACTION"); }
                9
            },
        }
    }

    pub(crate) fn write_sql(&self, sql: &mut String)
        ensures
            final(sql)@ == old(sql)@ + self.sql(),
    {
        match self {
            FKOnAction::SetNull => sql.append("SET NULL"),
            FKOnAction::SetDefault => sql.append("SET DEFAULT"),
            FKOnAction::Cascade => sql.append("CASCADE"),
            FKOnAction::Restrict => sql.append("RESTRICT"),
            FKOnAction::NoAction => sql.append("NO ACTION"),
        }
    }
}

/// Whether a generated column stores its values or computes them on every read.
#[derive(Debug, Clone, Copy, PartialEq, Eq, Structural)]
pub enum GeneratedAs {
    Virtual,
    Stored,
}

impl Default for GeneratedAs {
    /// The dialect's documented default mode: `Virtual`.
    fn default() -> (r: Self)
        ensures
            r == GeneratedAs::Virtual,
    {
        GeneratedAs::Virtual
    }
}

impl GeneratedAs {
    /// The keyword that renders this variant.
    pub open spec fn sql(self) -> Seq<char> {
        match self {
            GeneratedAs::Virtual => "VIRTUAL"@,
            GeneratedAs::Stored => "STORED"@,
        }
    }

    /// Number of characters of the keyword.
    pub fn part_len(&self) -> (r: Result<usize, Error>)
        ensures
            r == Ok::<usize, Error>(self.sql().len() as usize),
    {
        Ok(self.sql_len())
    }

    /// Appends the keyword to `sql`.
    pub fn part_str(&self, sql: &mut String) -> (r: Result<(), Error>)
        ensures
            r == Ok::<(), Error>(()),
            final(sql)@ == old(sql)@ + self.sql(),
    {
        self.write_sql(sql);
        Ok(())
    }

    pub(crate) fn sql_len(&self) -> (r: usize)
        ensures
            r == self.sql().len(),
            r <= 20,
    {
        match self {
            GeneratedAs::Virtual => {
                proof { reveal_strlit("VIRTUAL"); }
                7
            },
            GeneratedAs::Stored => {
                proof { reveal_strlit("STORED"); }
                6
            },
        }
    }

    pub(crate) fn write_sql(&self, sql: &mut String)
        ensures
            final(sql)@ == old(sql)@ + self.sql(),
    {
        match self {
            GeneratedAs::Virtual => sql.append("VIRTUAL"),
            GeneratedAs::Stored => sql.append("STORED"),
        }
    }
}

} // verus!
