use vstd::prelude::*;
use vstd::string::StringExecFns;
use vstd::view::View as _;

use crate::error::Error;
use crate::schema::Schema;
use crate::table::Table;
use crate::text::{length_result, opt_text};
use crate::view::View;

verus! {

/// `body`, between `BEGIN;\n` and `\nEND;` when `transaction` holds.
pub open spec fn wrapped(body: Seq<char>, transaction: bool) -> Seq<char> {
    opt_text(transaction, "BEGIN;\n"@) + body + opt_text(transaction, "\nEND;"@)
}

/// What `build` returns: the error of the shared validation, or the text.
pub open spec fn build_result(validity: Result<(), Error>, text: Seq<char>, r: Result<String, Error>) -> bool {
    match r {
        Ok(s) => validity is Ok && s@ == text,
        Err(e) => validity == Err::<(), Error>(e),
    }
}

/// Relies on `String::with_capacity`: an empty string, whatever capacity it
/// reserved.
#[verifier::external_body]
fn string_with_capacity(capacity: usize) -> (r: String)
    ensures
        r@ == Seq::<char>::empty(),
{
    String::with_capacity(capacity)
}

/// A top-level element that renders as one or more complete statements, each
/// terminated by `;`, optionally inside a transaction and with an existence
/// guard on every `CREATE`.
///
/// `len` and `build` validate the element in the same way: both fail with the
/// same error, and on success `len` returns exactly the number of characters
/// of the text that `build` returns.
pub trait SQLStatement {
    /// The first rule that the element breaks, if any.
    spec fn statement_validity(&self) -> Result<(), Error>;

    /// The statements, each with its terminator, with or without the guard.
    spec fn statement_sql(&self, if_exists: bool) -> Seq<char>;

    /// Validates, then returns the exact length of what `build` returns for
    /// the same flags.
    fn len(&self, transaction: bool, if_exists: bool) -> (r: Result<usize, Error>)
        requires
            wrapped(self.statement_sql(if_exists), transaction).len() <= usize::MAX,
        ensures
            r == length_result(
                self.statement_validity(),
                wrapped(self.statement_sql(if_exists), transaction),
            ),
    ;

    /// Validates, then builds the text in a buffer of the exact length.
    ///
    /// * `transaction`: whether to wrap the statements in a transaction
    /// * `if_exists`: whether each `CREATE` carries an `IF NOT EXISTS` guard
    fn build(&self, transaction: bool, if_exists: bool) -> (r: Result<String, Error>)
        requires
            wrapped(self.statement_sql(if_exists), transaction).len() <= usize::MAX,
        ensures
            build_result(
                self.statement_validity(),
                wrapped(self.statement_sql(if_exists), transaction),
                r,
            ),
    ;
}

fn wrapper_len(transaction: bool) -> (r: usize)
    ensures
        r == opt_text(transaction, "BEGIN;\n"@).len() + opt_text(transaction, "\nEND;"@).len(),
{
    proof {
        reveal_strlit("BEGIN;\n");
        reveal_strlit("\nEND;");
    }
    if transaction {
        12
    } else {
        0
    }
}

impl SQLStatement for Table {
    open spec fn statement_validity(&self) -> Result<(), Error> {
        self.validate()
    }

    open spec fn statement_sql(&self, if_exists: bool) -> Seq<char> {
        self.sql(if_exists) + ";"@
    }

    fn len(&self, transaction: bool, if_exists: bool) -> (r: Result<usize, Error>) {
        proof {
            reveal_strlit(";");
        }
        match self.part_len(if_exists) {
            Err(e) => Err(e),
            Ok(n) => Ok(n + 1 + wrapper_len(transaction)),
        }
    }

    fn build(&self, transaction: bool, if_exists: bool) -> (r: Result<String, Error>) {
        let n: usize = match self.len(transaction, if_exists) {
            Err(e) => return Err(e),
            Ok(n) => n,
        };
        let mut sql: String = string_with_capacity(n);
        if transaction {
            sql.append("BEGIN;\n");
        }
        match self.part_str(if_exists, &mut sql) {
            Err(e) => return Err(e),
            Ok(()) => {},
        }
        sql.append(";");
        if transaction {
            sql.append("\nEND;");
        }
        assert(sql@ =~= wrapped(self.statement_sql(if_exists), transaction));
        Ok(sql)
    }
}

impl SQLStatement for View {
    open spec fn statement_validity(&self) -> Result<(), Error> {
        self.validate()
    }

    open spec fn statement_sql(&self, if_exists: bool) -> Seq<char> {
        self.sql(if_exists) + ";"@
    }

    fn len(&self, transaction: bool, if_exists: bool) -> (r: Result<usize, Error>) {
        proof {
            reveal_strlit(";");
        }
        match self.part_len(if_exists) {
            Err(e) => Err(e),
            Ok(n) => Ok(n + 1 + wrapper_len(transaction)),
        }
    }

    fn build(&self, transaction: bool, if_exists: bool) -> (r: Result<String, Error>) {
        let n: usize = match self.len(transaction, if_exists) {
            Err(e) => return Err(e),
            Ok(n) => n,
        };
        let mut sql: String = string_with_capacity(n);
        if transaction {
            sql.append("BEGIN;\n");
        }
        match self.part_str(if_exists, &mut sql) {
            Err(e) => return Err(e),
            Ok(()) => {},
        }
        sql.append(";");
        if transaction {
            sql.append("\nEND;");
        }
        assert(sql@ =~= wrapped(self.statement_sql(if_exists), transaction));
        Ok(sql)
    }
}

impl SQLStatement for Schema {
    open spec fn statement_validity(&self) -> Result<(), Error> {
        self.validate()
    }

    open spec fn statement_sql(&self, if_exists: bool) -> Seq<char> {
        self.sql(if_exists)
    }

    fn len(&self, transaction: bool, if_exists: bool) -> (r: Result<usize, Error>) {
        match self.check() {
            Err(e) => Err(e),
            Ok(()) => Ok(self.sql_len(if_exists) + wrapper_len(transaction)),
        }
    }

    fn build(&self, transaction: bool, if_exists: bool) -> (r: Result<String, Error>) {
        let n: usize = match self.len(transaction, if_exists) {
            Err(e) => return Err(e),
            Ok(n) => n,
        };
        let mut sql: String = string_with_capacity(n);
        if transaction {
            sql.append("BEGIN;\n");
        }
        match self.check() {
            Err(e) => return Err(e),
            Ok(()) => {},
        }
        self.write_sql(if_exists, &mut sql);
        if transaction {
            sql.append("\nEND;");
        }
        assert(sql@ =~= wrapped(self.statement_sql(if_exists), transaction));
        Ok(sql)
    }
}

} // verus!
