use vstd::prelude::*;
use vstd::string::StringExecFns;
use vstd::view::View as _;

use crate::error::Error;
use crate::table::Table;
use crate::text::{
    first_error, lemma_first_error_prefix, lemma_first_error_step, lemma_terminated_prefix_len,
    lemma_terminated_step, terminated,
};
use crate::view::View;

verus! {

pub open spec fn table_validity() -> spec_fn(Table) -> Result<(), Error> {
    |t: Table| t.validate()
}

pub open spec fn view_validity() -> spec_fn(View) -> Result<(), Error> {
    |v: View| v.validate()
}

/// The rendered statements of `tables`, in order, without terminators.
pub open spec fn table_sqls(tables: Seq<Table>, if_exists: bool) -> Seq<Seq<char>> {
    tables.map_values(|t: Table| t.sql(if_exists))
}

/// The rendered statements of `views`, in order, without terminators.
pub open spec fn view_sqls(views: Seq<View>, if_exists: bool) -> Seq<Seq<char>> {
    views.map_values(|v: View| v.sql(if_exists))
}

/// A whole schema: its tables, then its views. At least one table is required.
#[derive(Debug, Clone, Eq)]
pub struct Schema {
    pub tables: Vec<Table>,
    pub views: Vec<View>,
}

impl Default for Schema {
    /// A schema without tables or views.
    fn default() -> (r: Self)
        ensures
            r.tables@ == Seq::<Table>::empty(),
            r.views@ == Seq::<View>::empty(),
    {
        Schema::new()
    }
}

impl Schema {
    /// The first rule that the schema breaks, if any: no tables, then the
    /// first table that breaks its own rules, then the first such view.
    pub open spec fn validate(&self) -> Result<(), Error> {
        if self.tables@.len() == 0 {
            Err(Error::EmptySchema)
        } else {
            match first_error(self.tables@, table_validity()) {
                Err(e) => Err(e),
                Ok(_) => first_error(self.views@, view_validity()),
            }
        }
    }

    pub open spec fn tables_sql(&self, if_exists: bool) -> Seq<char> {
        terminated(table_sqls(self.tables@, if_exists), ";"@)
    }

    pub open spec fn views_sql(&self, if_exists: bool) -> Seq<char> {
        terminated(view_sqls(self.views@, if_exists), ";"@)
    }

    /// Every table statement, then every view statement, each followed by `;`.
    pub open spec fn sql(&self, if_exists: bool) -> Seq<char> {
        self.tables_sql(if_exists) + self.views_sql(if_exists)
    }

    pub fn new() -> (r: Self)
        ensures
            r.tables@ == Seq::<Table>::empty(),
            r.views@ == Seq::<View>::empty(),
    {
        Schema { tables: Vec::new(), views: Vec::new() }
    }

    /// Appends `new_table` after the existing tables.
    pub fn add_table(self, new_table: Table) -> (r: Self)
        ensures
            r.tables@ == self.tables@.push(new_table),
            r.views == self.views,
    {
        let mut tables = self.tables;
        tables.push(new_table);
        Schema { tables, views: self.views }
    }

    /// Appends `new_view` after the existing views.
    pub fn add_view(self, new_view: View) -> (r: Self)
        ensures
            r.tables == self.tables,
            r.views@ == self.views@.push(new_view),
    {
        let mut views = self.views;
        views.push(new_view);
        Schema { tables: self.tables, views }
    }

    pub fn check(&self) -> (r: Result<(), Error>)
        ensures
            r == self.validate(),
    {
        if self.tables.len() == 0 {
            return Err(Error::EmptySchema);
        }
        let ghost tables = self.tables@;
        let mut i: usize = 0;
        assert(tables.subrange(0, 0) =~= Seq::<Table>::empty());
        while i < self.tables.len()
            invariant
                i <= tables.len(),
                tables == self.tables@,
                first_error(tables.subrange(0, i as int), table_validity()) is Ok,
            decreases tables.len() - i,
        {
            proof {
                lemma_first_error_step(tables, table_validity(), i as int);
            }
            match self.tables[i].check() {
                Err(e) => {
                    proof {
                        lemma_first_error_prefix(tables, table_validity(), i + 1, tables.len() as int);
                        assert(tables.subrange(0, tables.len() as int) =~= tables);
                    }
                    return Err(e);
                },
                Ok(()) => {},
            }
            i += 1;
        }
        assert(tables.subrange(0, tables.len() as int) =~= tables);
        let ghost views = self.views@;
        let mut j: usize = 0;
        assert(views.subrange(0, 0) =~= Seq::<View>::empty());
        while j < self.views.len()
            invariant
                j <= views.len(),
                views == self.views@,
                self.validate() == first_error(views, view_validity()),
                first_error(views.subrange(0, j as int), view_validity()) is Ok,
            decreases views.len() - j,
        {
            proof {
                lemma_first_error_step(views, view_validity(), j as int);
            }
            match self.views[j].check() {
                Err(e) => {
                    proof {
                        lemma_first_error_prefix(views, view_validity(), j + 1, views.len() as int);
                        assert(views.subrange(0, views.len() as int) =~= views);
                    }
                    return Err(e);
                },
                Ok(()) => {},
            }
            j += 1;
        }
        assert(views.subrange(0, views.len() as int) =~= views);
        Ok(())
    }

    pub(crate) fn sql_len(&self, if_exists: bool) -> (r: usize)
        requires
            self.sql(if_exists).len() <= usize::MAX,
        ensures
            r == self.sql(if_exists).len(),
    {
        let ghost tparts = table_sqls(self.tables@, if_exists);
        let ghost vparts = view_sqls(self.views@, if_exists);
        let mut total: usize = 0;
        let mut i: usize = 0;
        assert(tparts.subrange(0, 0) =~= Seq::<Seq<char>>::empty());
        while i < self.tables.len()
            invariant
                i <= self.tables@.len(),
                tparts == table_sqls(self.tables@, if_exists),
                tparts.len() == self.tables@.len(),
                self.sql(if_exists).len() <= usize::MAX,
                total == terminated(tparts.subrange(0, i as int), ";"@).len(),
            decreases self.tables@.len() - i,
        {
            proof {
                reveal_strlit(";");
                lemma_terminated_step(tparts, ";"@, i as int);
                lemma_terminated_prefix_len(tparts, ";"@, i + 1);
            }
            let n: usize = self.tables[i].sql_len(if_exists);
            total = total + n + 1;
            i += 1;
        }
        assert(tparts.subrange(0, i as int) =~= tparts);
        let mut j: usize = 0;
        assert(vparts.subrange(0, 0) =~= Seq::<Seq<char>>::empty());
        while j < self.views.len()
            invariant
                j <= self.views@.len(),
                vparts == view_sqls(self.views@, if_exists),
                vparts.len() == self.views@.len(),
                self.sql(if_exists).len() <= usize::MAX,
                total == self.tables_sql(if_exists).len() + terminated(
                    vparts.subrange(0, j as int),
                    ";"@,
                ).len(),
            decreases self.views@.len() - j,
        {
            proof {
                reveal_strlit(";");
                lemma_terminated_step(vparts, ";"@, j as int);
                lemma_terminated_prefix_len(vparts, ";"@, j + 1);
            }
            let n: usize = self.views[j].sql_len(if_exists);
            total = total + n + 1;
            j += 1;
        }
        assert(vparts.subrange(0, j as int) =~= vparts);
        total
    }

    pub(crate) fn write_sql(&self, if_exists: bool, sql: &mut String)
        ensures
            final(sql)@ == old(sql)@ + self.sql(if_exists),
    {
        let ghost tparts = table_sqls(self.tables@, if_exists);
        let ghost vparts = view_sqls(self.views@, if_exists);
        let mut i: usize = 0;
        assert(tparts.subrange(0, 0) =~= Seq::<Seq<char>>::empty());
        while i < self.tables.len()
            invariant
                i <= self.tables@.len(),
                tparts == table_sqls(self.tables@, if_exists),
                tparts.len() == self.tables@.len(),
                sql@ == old(sql)@ + terminated(tparts.subrange(0, i as int), ";"@),
            decreases self.tables@.len() - i,
        {
            proof {
                lemma_terminated_step(tparts, ";"@, i as int);
            }
            self.tables[i].write_sql(if_exists, sql);
            sql.append(";");
            assert(sql@ =~= old(sql)@ + terminated(tparts.subrange(0, i + 1), ";"@));
            i += 1;
        }
        assert(tparts.subrange(0, i as int) =~= tparts);
        let ghost mid = sql@;
        let mut j: usize = 0;
        assert(vparts.subrange(0, 0) =~= Seq::<Seq<char>>::empty());
        while j < self.views.len()
            invariant
                j <= self.views@.len(),
                vparts == view_sqls(self.views@, if_exists),
                vparts.len() == self.views@.len(),
                sql@ == mid + terminated(vparts.subrange(0, j as int), ";"@),
            decreases self.views@.len() - j,
        {
            proof {
                lemma_terminated_step(vparts, ";"@, j as int);
            }
            self.views[j].write_sql(if_exists, sql);
            sql.append(";");
            assert(sql@ =~= mid + terminated(vparts.subrange(0, j + 1), ";"@));
            j += 1;
        }
        assert(vparts.subrange(0, j as int) =~= vparts);
        assert(sql@ =~= old(sql)@ + self.sql(if_exists));
    }
}

impl Schema {
    /// Equality of the tables and of the views, each compared in order.
    pub open spec fn same(&self, o: &Schema) -> bool {
        &&& self.tables@.len() == o.tables@.len()
        &&& forall|i: int| 0 <= i < self.tables@.len() ==> #[trigger] self.tables@[i].same(&o.tables@[i])
        &&& self.views@.len() == o.views@.len()
        &&& forall|i: int| 0 <= i < self.views@.len() ==> #[trigger] self.views@[i].same(&o.views@[i])
    }
}

impl PartialEq for Schema {
    fn eq(&self, o: &Schema) -> (r: bool) {
        if self.tables.len() != o.tables.len() || self.views.len() != o.views.len() {
            return false;
        }
        let mut i: usize = 0;
        while i < self.tables.len()
            invariant
                i <= self.tables@.len(),
                self.tables@.len() == o.tables@.len(),
                forall|k: int| 0 <= k < i ==> #[trigger] self.tables@[k].same(&o.tables@[k]),
            decreases self.tables@.len() - i,
        {
            if !(self.tables[i] == o.tables[i]) {
                return false;
            }
            i += 1;
        }
        let mut j: usize = 0;
        while j < self.views.len()
            invariant
                j <= self.views@.len(),
                self.views@.len() == o.views@.len(),
                forall|k: int| 0 <= k < self.tables@.len() ==> #[trigger] self.tables@[k].same(&o.tables@[k]),
                forall|k: int| 0 <= k < j ==> #[trigger] self.views@[k].same(&o.views@[k]),
            decreases self.views@.len() - j,
        {
            if !(self.views[j] == o.views[j]) {
                return false;
            }
            j += 1;
        }
        true
    }
}

impl vstd::std_specs::cmp::PartialEqSpecImpl for Schema {
    open spec fn obeys_eq_spec() -> bool {
        true
    }

    open spec fn eq_spec(&self, o: &Schema) -> bool {
        self.same(o)
    }
}

} // verus!
