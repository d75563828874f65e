use vstd::prelude::*;
use vstd::string::{StrSliceExecFns, StringExecFns};
use vstd::view::View as _;

use crate::error::Error;
use crate::table::guard_sql;
use crate::text::{
    emitted, first_error, join, lemma_first_error_prefix, lemma_first_error_step,
    lemma_join_prefix_len, lemma_join_step, length_result, opt_text,
};

verus! {

/// An output column of a view; its name must be non-empty.
#[derive(Debug, Clone, Eq)]
pub struct ViewColumn {
    pub name: String,
}

impl ViewColumn {
    pub open spec fn validate(&self) -> Result<(), Error> {
        if self.name@.len() == 0 {
            Err(Error::EmptyColumnName)
        } else {
            Ok(())
        }
    }

    pub open spec fn sql(&self) -> Seq<char> {
        self.name@
    }

    pub fn check(&self) -> (r: Result<(), Error>)
        ensures
            r == self.validate(),
    {
        if self.name.as_str().is_empty() {
            Err(Error::EmptyColumnName)
        } else {
            Ok(())
        }
    }

    pub fn new(name: String) -> (r: Self)
        ensures
            r == (ViewColumn { name }),
    {
        ViewColumn { name }
    }

    pub fn set_name(self, name: String) -> (r: Self)
        ensures
            r == (ViewColumn { name }),
    {
        ViewColumn { name }
    }

    /// Validates, then returns the number of characters that `part_str` appends.
    pub fn part_len(&self) -> (r: Result<usize, Error>)
        ensures
            r == length_result(self.validate(), self.sql()),
    {
        match self.check() {
            Err(e) => Err(e),
            Ok(()) => Ok(self.name.as_str().unicode_len()),
        }
    }

    /// Validates, then appends the name to `sql`; appends nothing on an error.
    pub fn part_str(&self, sql: &mut String) -> (r: Result<(), Error>)
        ensures
            r == self.validate(),
            final(sql)@ == old(sql)@ + emitted(self.validate(), self.sql()),
    {
        match self.check() {
            Err(e) => {
                assert(sql@ =~= old(sql)@ + emitted(self.validate(), self.sql()));
                Err(e)
            },
            Ok(()) => {
                sql.append(self.name.as_str());
                Ok(())
            },
        }
    }
}

pub open spec fn view_column_validity() -> spec_fn(ViewColumn) -> Result<(), Error> {
    |c: ViewColumn| c.validate()
}

/// The names of `cols`, in order.
pub open spec fn view_column_sqls(cols: Seq<ViewColumn>) -> Seq<Seq<char>> {
    cols.map_values(|c: ViewColumn| c.sql())
}

/// A view:
/// `CREATE [TEMPORARY ]VIEW [IF NOT EXISTS ]<name>[ (<col>, <col>...)] AS <select>`.
///
/// `columns` is `None` where the view declares no output-column list; a
/// declared list must not be empty. The select body is opaque text and must
/// be non-empty.
#[derive(Debug, Clone, Eq)]
pub struct View {
    pub name: String,
    pub temp: bool,
    pub columns: Option<Vec<ViewColumn>>,
    pub select: String,
}

impl View {
    /// The first rule that the view breaks, if any: an empty name, then an
    /// empty select body, then a declared but empty output-column list, then
    /// the first output column with an empty name.
    pub open spec fn validate(&self) -> Result<(), Error> {
        if self.name@.len() == 0 {
            Err(Error::EmptyViewName)
        } else if self.select@.len() == 0 {
            Err(Error::EmptyViewSelect)
        } else {
            match self.columns {
                None => Ok(()),
                Some(cols) => if cols@.len() == 0 {
                    Err(Error::NoColumns)
                } else {
                    first_error(cols@, view_column_validity())
                },
            }
        }
    }

    /// ` (<col>, <col>...)` for a declared output-column list.
    pub open spec fn columns_sql(&self) -> Seq<char> {
        match self.columns {
            None => Seq::empty(),
            Some(cols) => " ("@ + join(view_column_sqls(cols@), ", "@) + ")"@,
        }
    }

    pub open spec fn sql(&self, if_exists: bool) -> Seq<char> {
        "CREATE "@ + opt_text(self.temp, "TEMPORARY "@) + "VIEW "@ + guard_sql(if_exists) + self.name@
            + self.columns_sql() + " AS "@ + self.select@
    }

    pub fn check(&self) -> (r: Result<(), Error>)
        ensures
            r == self.validate(),
    {
        if self.name.as_str().is_empty() {
            return Err(Error::EmptyViewName);
        }
        if self.select.as_str().is_empty() {
            return Err(Error::EmptyViewSelect);
        }
        match &self.columns {
            None => Ok(()),
            Some(cols) => {
                if cols.len() == 0 {
                    return Err(Error::NoColumns);
                }
                let ghost seq = cols@;
                assert(self.validate() == first_error(seq, view_column_validity()));
                let mut i: usize = 0;
                assert(seq.subrange(0, 0) =~= Seq::<ViewColumn>::empty());
                while i < cols.len()
                    invariant
                        i <= seq.len(),
                        seq == cols@,
                        self.validate() == first_error(seq, view_column_validity()),
                        first_error(seq.subrange(0, i as int), view_column_validity()) is Ok,
                    decreases seq.len() - i,
                {
                    proof {
                        lemma_first_error_step(seq, view_column_validity(), i as int);
                    }
                    match cols[i].check() {
                        Err(e) => {
                            proof {
                                lemma_first_error_prefix(seq, view_column_validity(), i + 1, seq.len() as int);
                                assert(seq.subrange(0, seq.len() as int) =~= seq);
                            }
                            return Err(e);
                        },
                        Ok(()) => {},
                    }
                    i += 1;
                }
                assert(seq.subrange(0, seq.len() as int) =~= seq);
                Ok(())
            },
        }
    }

    /// A view with a declared output-column list.
    pub fn new(name: String, temp: bool, columns: Vec<ViewColumn>, select: String) -> (r: Self)
        ensures
            r == (View { name, temp, columns: Some(columns), select }),
    {
        View { name, temp, columns: Some(columns), select }
    }

    /// A non-temporary view without an output-column list.
    pub fn new_default(name: String, select: String) -> (r: Self)
        ensures
            r == (View { name, temp: false, columns: None, select }),
    {
        View { name, temp: false, columns: None, select }
    }

    /// Appends `column` to the output-column list, declaring the list if it
    /// was not.
    pub fn add_column(self, column: ViewColumn) -> (r: Self)
        ensures
            r.name == self.name,
            r.temp == self.temp,
            r.select == self.select,
            r.columns is Some,
            r.columns->Some_0@ == match self.columns {
                None => seq![column],
                Some(cols) => cols@.push(column),
            },
    {
        let mut cols: Vec<ViewColumn> = match self.columns {
            None => Vec::new(),
            Some(cols) => cols,
        };
        cols.push(column);
        View { columns: Some(cols), ..self }
    }

    pub fn set_name(self, name: String) -> (r: Self)
        ensures
            r == (View { name, ..self }),
    {
        View { name, ..self }
    }

    pub fn set_temp(self, temp: bool) -> (r: Self)
        ensures
            r == (View { temp, ..self }),
    {
        View { temp, ..self }
    }

    pub fn set_select(self, select: String) -> (r: Self)
        ensures
            r == (View { select, ..self }),
    {
        View { select, ..self }
    }

    /// Validates, then returns the number of characters that `part_str`
    /// appends with the same guard.
    pub fn part_len(&self, if_exists: bool) -> (r: Result<usize, Error>)
        requires
            self.sql(if_exists).len() <= usize::MAX,
        ensures
            r == length_result(self.validate(), self.sql(if_exists)),
    {
        match self.check() {
            Err(e) => Err(e),
            Ok(()) => Ok(self.sql_len(if_exists)),
        }
    }

    /// Validates, then appends the statement (without its terminator) to
    /// `sql`; appends nothing on an error.
    pub fn part_str(&self, if_exists: bool, sql: &mut String) -> (r: Result<(), Error>)
        ensures
            r == self.validate(),
            final(sql)@ == old(sql)@ + emitted(self.validate(), self.sql(if_exists)),
    {
        match self.check() {
            Err(e) => {
                assert(sql@ =~= old(sql)@ + emitted(self.validate(), self.sql(if_exists)));
                Err(e)
            },
            Ok(()) => {
                self.write_sql(if_exists, sql);
                Ok(())
            },
        }
    }

    fn columns_len(&self) -> (r: usize)
        requires
            self.columns_sql().len() <= usize::MAX,
        ensures
            r == self.columns_sql().len(),
    {
        match &self.columns {
            None => 0,
            Some(cols) => {
                let ghost parts = view_column_sqls(cols@);
                let mut total: usize = 0;
                let mut i: usize = 0;
                proof {
                    reveal_strlit(" (");
                    reveal_strlit(")");
                    assert(parts.subrange(0, 0) =~= Seq::<Seq<char>>::empty());
                }
                while i < cols.len()
                    invariant
                        i <= cols@.len(),
                        parts == view_column_sqls(cols@),
                        parts.len() == cols@.len(),
                        join(parts, ", "@).len() + 3 <= usize::MAX,
                        total == join(parts.subrange(0, i as int), ", "@).len(),
                    decreases cols@.len() - i,
                {
                    proof {
                        reveal_strlit(", ");
                        lemma_join_step(parts, ", "@, i as int);
                        lemma_join_prefix_len(parts, ", "@, i + 1);
                    }
                    let name_len: usize = cols[i].name.as_str().unicode_len();
                    if i > 0 {
                        total = total + 2;
                    }
                    total = total + name_len;
                    i += 1;
                }
                assert(parts.subrange(0, i as int) =~= parts);
                total + 3
            },
        }
    }

    pub(crate) fn sql_len(&self, if_exists: bool) -> (r: usize)
        requires
            self.sql(if_exists).len() <= usize::MAX,
        ensures
            r == self.sql(if_exists).len(),
    {
        proof {
            reveal_strlit("CREATE ");
            reveal_strlit("TEMPORARY ");
            reveal_strlit("VIEW ");
            reveal_strlit("IF NOT EXISTS ");
            reveal_strlit(" AS ");
        }
        let temp_len: usize = if self.temp { 10 } else { 0 };
        let guard_len: usize = if if_exists { 14 } else { 0 };
        let name_len: usize = self.name.as_str().unicode_len();
        let cols_len: usize = self.columns_len();
        let select_len: usize = self.select.as_str().unicode_len();
        7 + temp_len + 5 + guard_len + name_len + cols_len + 4 + select_len
    }

    fn write_columns(&self, sql: &mut String)
        ensures
            final(sql)@ == old(sql)@ + self.columns_sql(),
    {
        match &self.columns {
            None => {
                assert(sql@ =~= old(sql)@ + self.columns_sql());
            },
            Some(cols) => {
                let ghost parts = view_column_sqls(cols@);
                sql.append(" (");
                let ghost open = sql@;
                let mut i: usize = 0;
                assert(parts.subrange(0, 0) =~= Seq::<Seq<char>>::empty());
                while i < cols.len()
                    invariant
                        i <= cols@.len(),
                        parts == view_column_sqls(cols@),
                        parts.len() == cols@.len(),
                        sql@ == open + join(parts.subrange(0, i as int), ", "@),
                    decreases cols@.len() - i,
                {
                    proof {
                        lemma_join_step(parts, ", "@, i as int);
                    }
                    if i > 0 {
                        sql.append(", ");
                    }
                    sql.append(cols[i].name.as_str());
                    assert(sql@ =~= open + join(parts.subrange(0, i + 1), ", "@));
                    i += 1;
                }
                assert(parts.subrange(0, i as int) =~= parts);
                sql.append(")");
                assert(sql@ =~= old(sql)@ + self.columns_sql());
            },
        }
    }

    pub(crate) fn write_sql(&self, if_exists: bool, sql: &mut String)
        ensures
            final(sql)@ == old(sql)@ + self.sql(if_exists),
    {
        sql.append("CREATE ");
        if self.temp {
            sql.append("TEMPORARY ");
        }
        sql.append("VIEW ");
        if if_exists {
            sql.append("IF NOT EXISTS ");
        }
        sql.append(self.name.as_str());
        self.write_columns(sql);
        sql.append(" AS ");
        sql.append(self.select.as_str());
        assert(sql@ =~= old(sql)@ + self.sql(if_exists));
    }
}

impl PartialEq for ViewColumn {
    fn eq(&self, o: &ViewColumn) -> (r: bool) {
        self.name == o.name
    }
}

impl vstd::std_specs::cmp::PartialEqSpecImpl for ViewColumn {
    open spec fn obeys_eq_spec() -> bool {
        true
    }

    open spec fn eq_spec(&self, o: &ViewColumn) -> bool {
        self.name@ == o.name@
    }
}

/// Two output-column lists with the same names in the same order.
pub open spec fn same_view_columns(a: Seq<ViewColumn>, b: Seq<ViewColumn>) -> bool {
    a.len() == b.len() && forall|i: int| 0 <= i < a.len() ==> #[trigger] a[i].name@ == b[i].name@
}

fn eq_view_columns(a: &Vec<ViewColumn>, b: &Vec<ViewColumn>) -> (r: bool)
    ensures
        r == same_view_columns(a@, b@),
{
    if a.len() != b.len() {
        return false;
    }
    let mut i: usize = 0;
    while i < a.len()
        invariant
            i <= a@.len(),
            a@.len() == b@.len(),
            forall|k: int| 0 <= k < i ==> #[trigger] a@[k].name@ == b@[k].name@,
        decreases a@.len() - i,
    {
        if a[i].name != b[i].name {
            return false;
        }
        i += 1;
    }
    true
}

impl View {
    /// Field-by-field equality, text compared as text; a declared
    /// output-column list never equals an absent one.
    pub open spec fn same(&self, o: &View) -> bool {
        &&& self.name@ == o.name@
        &&& self.temp == o.temp
        &&& self.select@ == o.select@
        &&& match (self.columns, o.columns) {
            (Some(a), Some(b)) => same_view_columns(a@, b@),
            (None, None) => true,
            _ => false,
        }
    }
}

impl PartialEq for View {
    fn eq(&self, o: &View) -> (r: bool) {
        let same_columns: bool = match (&self.columns, &o.columns) {
            (Some(a), Some(b)) => eq_view_columns(a, b),
            (None, None) => true,
            _ => false,
        };
        self.name == o.name && self.temp == o.temp && self.select == o.select && same_columns
    }
}

impl vstd::std_specs::cmp::PartialEqSpecImpl for View {
    open spec fn obeys_eq_spec() -> bool {
        true
    }

    open spec fn eq_spec(&self, o: &View) -> bool {
        self.same(o)
    }
}

} // verus!
