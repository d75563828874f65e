use vstd::prelude::*;
use vstd::string::{StrSliceExecFns, StringExecFns};

use crate::constraints::{ForeignKey, Generated, NotNull, PrimaryKey, Unique};
use crate::error::Error;
use crate::text::{emitted, length_result, spaced};
use crate::vocab::SQLiteType;

verus! {

/// A column of a table:
/// `<name> <type>[ <primary key>][ <unique>][ <foreign key>]`.
///
/// The not-null and generated clauses are carried along with the column but
/// take no part in its rendering or its validation.
#[derive(Debug, Clone, Eq)]
pub struct Column {
    pub typ: SQLiteType,
    pub name: String,
    pub pk: Option<PrimaryKey>,
    pub unique: Option<Unique>,
    pub fk: Option<ForeignKey>,
    pub not_null: Option<NotNull>,
    pub generated: Option<Generated>,
}

impl Column {
    /// The first rule that the column breaks, if any: an empty name, then a
    /// primary key beside a foreign key, then a primary key beside a unique
    /// clause, then the foreign key's own rules.
    pub open spec fn validate(&self) -> Result<(), Error> {
        if self.name@.len() == 0 {
            Err(Error::EmptyColumnName)
        } else if self.pk is Some && self.fk is Some {
            Err(Error::PrimaryKeyAndForeignKey)
        } else if self.pk is Some && self.unique is Some {
            Err(Error::PrimaryKeyAndUnique)
        } else {
            match self.fk {
                Some(fk) => fk.validate(),
                None => Ok(()),
            }
        }
    }

    pub open spec fn pk_sql(&self) -> Seq<char> {
        match self.pk {
            Some(pk) => spaced(pk.sql()),
            None => Seq::empty(),
        }
    }

    pub open spec fn unique_sql(&self) -> Seq<char> {
        match self.unique {
            Some(u) => spaced(u.sql()),
            None => Seq::empty(),
        }
    }

    pub open spec fn fk_sql(&self) -> Seq<char> {
        match self.fk {
            Some(fk) => spaced(fk.sql()),
            None => Seq::empty(),
        }
    }

    pub open spec fn sql(&self) -> Seq<char> {
        self.name@ + " "@ + self.typ.sql() + self.pk_sql() + self.unique_sql() + self.fk_sql()
    }

    pub fn check(&self) -> (r: Result<(), Error>)
        ensures
            r == self.validate(),
    {
        if self.name.as_str().is_empty() {
            return Err(Error::EmptyColumnName);
        }
        if self.pk.is_some() && self.fk.is_some() {
            return Err(Error::PrimaryKeyAndForeignKey);
        }
        if self.pk.is_some() && self.unique.is_some() {
            return Err(Error::PrimaryKeyAndUnique);
        }
        match &self.fk {
            Some(fk) => fk.check(),
            None => Ok(()),
        }
    }

    pub fn new(
        typ: SQLiteType,
        name: String,
        pk: Option<PrimaryKey>,
        unique: Option<Unique>,
        fk: Option<ForeignKey>,
        not_null: Option<NotNull>,
        generated: Option<Generated>,
    ) -> (r: Self)
        ensures
            r == (Column { typ, name, pk, unique, fk, not_null, generated }),
    {
        Column { typ, name, pk, unique, fk, not_null, generated }
    }

    /// A `BLOB` column without clauses.
    pub fn new_default(name: String) -> (r: Self)
        ensures
            r == (Column {
                typ: SQLiteType::Blob,
                name,
                pk: None,
                unique: None,
                fk: None,
                not_null: None,
                generated: None,
            }),
    {
        Column::new_typed(SQLiteType::Blob, name)
    }

    /// A column of the given type without clauses.
    pub fn new_typed(typ: SQLiteType, name: String) -> (r: Self)
        ensures
            r == (Column { typ, name, pk: None, unique: None, fk: None, not_null: None, generated: None }),
    {
        Column { typ, name, pk: None, unique: None, fk: None, not_null: None, generated: None }
    }

    pub fn set_type(self, typ: SQLiteType) -> (r: Self)
        ensures
            r == (Column { typ, ..self }),
    {
        Column { typ, ..self }
    }

    pub fn set_name(self, name: String) -> (r: Self)
        ensures
            r == (Column { name, ..self }),
    {
        Column { name, ..self }
    }

    pub fn set_pk(self, pk: Option<PrimaryKey>) -> (r: Self)
        ensures
            r == (Column { pk, ..self }),
    {
        Column { pk, ..self }
    }

    pub fn set_unique(self, unique: Option<Unique>) -> (r: Self)
        ensures
            r == (Column { unique, ..self }),
    {
        Column { unique, ..self }
    }

    pub fn set_fk(self, fk: Option<ForeignKey>) -> (r: Self)
        ensures
            r == (Column { fk, ..self }),
    {
        Column { fk, ..self }
    }

    /// Validates, then returns the number of characters that `part_str` appends.
    pub fn part_len(&self) -> (r: Result<usize, Error>)
        requires
            self.sql().len() <= usize::MAX,
        ensures
            r == length_result(self.validate(), self.sql()),
    {
        match self.check() {
            Err(e) => Err(e),
            Ok(()) => Ok(self.sql_len()),
        }
    }

    /// Validates, then appends the column definition to `sql`; appends nothing
    /// on an error.
    pub fn part_str(&self, sql: &mut String) -> (r: Result<(), Error>)
        ensures
            r == self.validate(),
            final(sql)@ == old(sql)@ + emitted(self.validate(), self.sql()),
    {
        match self.check() {
            Err(e) => {
                assert(sql@ =~= old(sql)@ + emitted(self.validate(), self.sql()));
                Err(e)
            },
            Ok(()) => {
                self.write_sql(sql);
                Ok(())
            },
        }
    }

    pub(crate) fn sql_len(&self) -> (r: usize)
        requires
            self.sql().len() <= usize::MAX,
        ensures
            r == self.sql().len(),
    {
        proof {
            reveal_strlit(" ");
        }
        let name_len: usize = self.name.as_str().unicode_len();
        let pk_len: usize = match &self.pk {
            Some(pk) => 1 + pk.sql_len(),
            None => 0,
        };
        let unique_len: usize = match &self.unique {
            Some(u) => 1 + u.sql_len(),
            None => 0,
        };
        let fk_len: usize = match &self.fk {
            Some(fk) => 1 + fk.sql_len(),
            None => 0,
        };
        name_len + 1 + self.typ.sql_len() + pk_len + unique_len + fk_len
    }

    pub(crate) fn write_sql(&self, sql: &mut String)
        ensures
            final(sql)@ == old(sql)@ + self.sql(),
    {
        let ghost start = sql@;
        sql.append(self.name.as_str());
        sql.append(" ");
        self.typ.write_sql(sql);
        self.write_pk(sql);
        self.write_unique(sql);
        self.write_fk(sql);
        assert(sql@ =~= start + self.name@ + " "@ + self.typ.sql() + self.pk_sql()
            + self.unique_sql() + self.fk_sql());
    }

    fn write_pk(&self, sql: &mut String)
        ensures
            final(sql)@ == old(sql)@ + self.pk_sql(),
    {
        if let Some(pk) = &self.pk {
            sql.append(" ");
            pk.write_sql(sql);
        }
        assert(sql@ =~= old(sql)@ + self.pk_sql());
    }

    fn write_unique(&self, sql: &mut String)
        ensures
            final(sql)@ == old(sql)@ + self.unique_sql(),
    {
        if let Some(u) = &self.unique {
            sql.append(" ");
            u.write_sql(sql);
        }
        assert(sql@ =~= old(sql)@ + self.unique_sql());
    }

    fn write_fk(&self, sql: &mut String)
        ensures
            final(sql)@ == old(sql)@ + self.fk_sql(),
    {
        if let Some(fk) = &self.fk {
            sql.append(" ");
            fk.write_sql(sql);
        }
        assert(sql@ =~= old(sql)@ + self.fk_sql());
    }
}

impl Column {
    /// Field-by-field equality, names and expressions compared as text.
    pub open spec fn same(&self, o: &Column) -> bool {
        &&& self.typ == o.typ
        &&& self.name@ == o.name@
        &&& self.pk == o.pk
        &&& self.unique == o.unique
        &&& match (self.fk, o.fk) {
            (Some(x), Some(y)) => x.same(&y),
            (None, None) => true,
            _ => false,
        }
        &&& self.not_null == o.not_null
        &&& match (self.generated, o.generated) {
            (Some(x), Some(y)) => x.same(&y),
            (None, None) => true,
            _ => false,
        }
    }
}

impl PartialEq for Column {
    fn eq(&self, o: &Column) -> (r: bool) {
        let same_pk: bool = match (self.pk, o.pk) {
            (Some(x), Some(y)) => x == y,
            (None, None) => true,
            _ => false,
        };
        let same_unique: bool = match (self.unique, o.unique) {
            (Some(x), Some(y)) => x == y,
            (None, None) => true,
            _ => false,
        };
        let same_fk: bool = match (&self.fk, &o.fk) {
            (Some(x), Some(y)) => x == y,
            (None, None) => true,
            _ => false,
        };
        let same_not_null: bool = match (self.not_null, o.not_null) {
            (Some(x), Some(y)) => x == y,
            (None, None) => true,
            _ => false,
        };
        let same_generated: bool = match (&self.generated, &o.generated) {
            (Some(x), Some(y)) => x == y,
            (None, None) => true,
            _ => false,
        };
        self.typ == o.typ && self.name == o.name && same_pk && same_unique && same_fk && same_not_null
            && same_generated
    }
}

impl vstd::std_specs::cmp::PartialEqSpecImpl for Column {
    open spec fn obeys_eq_spec() -> bool {
        true
    }

    open spec fn eq_spec(&self, o: &Column) -> bool {
        self.same(o)
    }
}

} // verus!
