use sqlayout::{
    check_table, CatalogTable, Discrepancy,
    Column, Error, FKOnAction, ForeignKey, Generated, GeneratedAs, OnConflict, Order, PrimaryKey,
    SQLStatement, SQLiteType, Schema, Table, Unique, View, ViewColumn,
};

fn id_table() -> Table {
    Table::new_default("t".to_string())
        .add_column(Column::new_typed(SQLiteType::Integer, "id".to_string()).set_pk(Some(PrimaryKey::default())))
}

#[test]
fn single_primary_key_table_renders() {
    let tbl = id_table();
    let expected = "CREATE TABLE t (id INTEGER PRIMARY KEY ASC ON CONFLICT ABORT);";
    assert_eq!(tbl.build(false, false), Ok(expected.to_string()));
    assert_eq!(tbl.len(false, false), Ok(expected.len()));
}

#[test]
fn primary_and_foreign_key_column_fails_in_both_phases() {
    let col = Column::new_default("c".to_string())
        .set_pk(Some(PrimaryKey::default()))
        .set_fk(Some(ForeignKey::new_default("other".to_string(), "id".to_string())));
    assert_eq!(col.part_len(), Err(Error::PrimaryKeyAndForeignKey));
    let mut buf = String::from("keep");
    assert_eq!(col.part_str(&mut buf), Err(Error::PrimaryKeyAndForeignKey));
    assert_eq!(buf, "keep");
}

#[test]
fn table_without_columns_fails_whatever_the_flags() {
    for without_rowid in [true, false] {
        for strict in [true, false] {
            let tbl = Table::new("t".to_string(), Vec::new(), without_rowid, strict);
            assert_eq!(tbl.len(false, false), Err(Error::NoColumns));
            assert_eq!(tbl.build(true, true), Err(Error::NoColumns));
        }
    }
}

#[test]
fn without_rowid_needs_primary_key() {
    let tbl = Table::new_default("t".to_string())
        .add_column(Column::new_default("a".to_string()))
        .set_without_rowid(true);
    assert_eq!(tbl.len(false, false), Err(Error::WithoutRowidNoPrimaryKey));
    assert_eq!(tbl.build(false, false), Err(Error::WithoutRowidNoPrimaryKey));
}

#[test]
fn schema_with_only_views_is_empty() {
    let schema = Schema::new().add_view(View::new_default("v".to_string(), "SELECT 1".to_string()));
    assert_eq!(schema.len(false, false), Err(Error::EmptySchema));
    assert_eq!(schema.build(true, false), Err(Error::EmptySchema));
}

#[test]
fn transaction_wraps_statement() {
    let tbl = id_table();
    let plain = tbl.build(false, false).unwrap();
    let wrapped = tbl.build(true, false).unwrap();
    assert_eq!(wrapped, format!("BEGIN;\n{}\nEND;", plain));
    let part = tbl.part_len(false).unwrap();
    assert_eq!(tbl.len(true, false), Ok(7 + part + 1 + 5));
    assert_eq!(wrapped.len(), 7 + part + 1 + 5);
}

#[test]
fn existence_guard_and_trailing_flags() {
    let tbl = id_table().set_without_rowid(true).set_strict(true);
    let expected = "CREATE TABLE IF NOT EXISTS t (id INTEGER PRIMARY KEY ASC ON CONFLICT ABORT) WITHOUT ROWID, STRICT;";
    assert_eq!(tbl.build(false, true), Ok(expected.to_string()));
    assert_eq!(tbl.len(false, true), Ok(expected.len()));
    let strict_only = id_table().set_strict(true);
    assert_eq!(
        strict_only.build(false, false),
        Ok("CREATE TABLE t (id INTEGER PRIMARY KEY ASC ON CONFLICT ABORT) STRICT;".to_string())
    );
}

#[test]
fn table_columns_are_bare_comma_separated() {
    let tbl = Table::new_default("pets".to_string())
        .add_column(Column::new_typed(SQLiteType::Integer, "id".to_string()).set_pk(Some(PrimaryKey::new(Order::Descending, OnConflict::Replace, true))))
        .add_column(Column::new_typed(SQLiteType::Text, "name".to_string()).set_unique(Some(Unique::new(OnConflict::Ignore))))
        .add_column(Column::new_typed(SQLiteType::Integer, "owner".to_string()).set_fk(Some(
            ForeignKey::new("people".to_string(), "id".to_string(), Some(FKOnAction::Cascade), Some(FKOnAction::SetNull), true),
        )));
    let expected = "CREATE TABLE pets (id INTEGER PRIMARY KEY DESC ON CONFLICT REPLACE AUTOINCREMENT,name TEXT UNIQUE ON CONFLICT IGNORE,owner INTEGER REFERENCES people (id) CASCADE SET NULL DEFERRABLE INITIALLY DEFERRED);";
    assert_eq!(tbl.build(false, false), Ok(expected.to_string()));
    assert_eq!(tbl.len(false, false), Ok(expected.len()));
}

#[test]
fn view_columns_are_comma_space_separated() {
    let view = View::new("v".to_string(), true, vec![ViewColumn::new("a".to_string()), ViewColumn::new("b".to_string())], "SELECT x, y FROM t".to_string());
    let expected = "CREATE TEMPORARY VIEW IF NOT EXISTS v (a, b) AS SELECT x, y FROM t;";
    assert_eq!(view.build(false, true), Ok(expected.to_string()));
    assert_eq!(view.len(false, true), Ok(expected.len()));
}

#[test]
fn view_without_column_list_renders() {
    let view = View::new_default("v".to_string(), "SELECT 1".to_string());
    assert_eq!(view.build(false, false), Ok("CREATE VIEW v AS SELECT 1;".to_string()));
    assert_eq!(view.part_len(false), Ok(25));
}

#[test]
fn view_with_declared_empty_column_list_fails() {
    let view = View::new("v".to_string(), false, Vec::new(), "SELECT 1".to_string());
    assert_eq!(view.len(false, false), Err(Error::NoColumns));
    let mut buf = String::new();
    assert_eq!(view.part_str(false, &mut buf), Err(Error::NoColumns));
    assert_eq!(buf, "");
}

#[test]
fn view_errors_in_precedence() {
    let view = View::new("".to_string(), false, Vec::new(), "".to_string());
    assert_eq!(view.part_len(false), Err(Error::EmptyViewName));
    let view = view.set_name("v".to_string());
    assert_eq!(view.part_len(false), Err(Error::EmptyViewSelect));
    let view = view.set_select("SELECT 1".to_string());
    assert_eq!(view.part_len(false), Err(Error::NoColumns));
    let view = view.add_column(ViewColumn::new("".to_string()));
    assert_eq!(view.part_len(false), Err(Error::EmptyColumnName));
}

#[test]
fn schema_renders_tables_then_views() {
    let schema = Schema::new()
        .add_table(Table::new_default("a".to_string()).add_column(Column::new_default("x".to_string())))
        .add_view(View::new_default("v".to_string(), "SELECT x FROM a".to_string()))
        .add_table(Table::new_default("b".to_string()).add_column(Column::new_default("y".to_string())));
    let expected = "CREATE TABLE a (x BLOB);CREATE TABLE b (y BLOB);CREATE VIEW v AS SELECT x FROM a;";
    assert_eq!(schema.build(false, false), Ok(expected.to_string()));
    assert_eq!(schema.len(false, false), Ok(expected.len()));
    let wrapped = schema.build(true, true).unwrap();
    assert_eq!(wrapped.len(), schema.len(true, true).unwrap());
    assert!(wrapped.starts_with("BEGIN;\nCREATE TABLE IF NOT EXISTS a"));
    assert!(wrapped.ends_with("CREATE VIEW IF NOT EXISTS v AS SELECT x FROM a;\nEND;"));
}

#[test]
fn schema_reports_first_child_error() {
    let schema = Schema::new()
        .add_table(Table::new_default("a".to_string()).add_column(Column::new_default("x".to_string())))
        .add_table(Table::new_default("".to_string()).add_column(Column::new_default("y".to_string())))
        .add_view(View::new_default("".to_string(), "SELECT 1".to_string()));
    assert_eq!(schema.len(false, false), Err(Error::EmptyTableName));
    assert_eq!(schema.build(false, false), Err(Error::EmptyTableName));
    let schema = Schema::new()
        .add_table(Table::new_default("a".to_string()).add_column(Column::new_default("x".to_string())))
        .add_view(View::new_default("".to_string(), "SELECT 1".to_string()));
    assert_eq!(schema.len(false, false), Err(Error::EmptyViewName));
    assert_eq!(schema.build(false, false), Err(Error::EmptyViewName));
}

#[test]
fn multiple_primary_keys_checked_first() {
    let tbl = Table::new_default("".to_string())
        .add_column(Column::new_default("a".to_string()).set_pk(Some(PrimaryKey::default())))
        .add_column(Column::new_default("".to_string()).set_pk(Some(PrimaryKey::default())));
    assert_eq!(tbl.len(false, false), Err(Error::MultiplePrimaryKeys));
    assert_eq!(tbl.build(false, false), Err(Error::MultiplePrimaryKeys));
}

#[test]
fn table_reports_column_errors_in_both_phases() {
    let tbl = Table::new_default("t".to_string())
        .add_column(Column::new_default("a".to_string()))
        .add_column(Column::new_default("b".to_string()).set_fk(Some(ForeignKey::new_default("".to_string(), "id".to_string()))));
    assert_eq!(tbl.part_len(false), Err(Error::EmptyForeignTableName));
    let mut buf = String::new();
    assert_eq!(tbl.part_str(false, &mut buf), Err(Error::EmptyForeignTableName));
    assert_eq!(buf, "");
}

#[test]
fn column_unique_beside_primary_key_fails() {
    let col = Column::new_default("c".to_string())
        .set_pk(Some(PrimaryKey::default()))
        .set_unique(Some(Unique::default()));
    assert_eq!(col.part_len(), Err(Error::PrimaryKeyAndUnique));
    let col = col.set_name("".to_string());
    assert_eq!(col.part_len(), Err(Error::EmptyColumnName));
}

#[test]
fn foreign_key_and_generated_render() {
    let fk = ForeignKey::new_default("t".to_string(), "c".to_string()).set_on_update(Some(FKOnAction::Restrict));
    let mut buf = String::new();
    fk.part_str(&mut buf).unwrap();
    assert_eq!(buf, "REFERENCES t (c) RESTRICT");
    assert_eq!(fk.part_len(), Ok(25));
    assert_eq!(fk.clone().set_foreign_column("".to_string()).part_len(), Err(Error::EmptyForeignColumnName));

    let gened = Generated::new_default("a + b".to_string()).set_generated_as(Some(GeneratedAs::Stored));
    let mut buf = String::new();
    gened.part_str(&mut buf).unwrap();
    assert_eq!(buf, "GENERATED ALWAYS AS (a + b) STORED");
    assert_eq!(gened.part_len(), Ok(34));
    let mut buf = String::from("x");
    assert_eq!(gened.set_expr("".to_string()).part_str(&mut buf), Err(Error::EmptyGeneratorExpr));
    assert_eq!(buf, "x");
}

#[test]
fn length_counts_characters() {
    let tbl = Table::new_default("tä".to_string()).add_column(Column::new_default("é".to_string()));
    let sql = tbl.build(false, false).unwrap();
    assert_eq!(sql, "CREATE TABLE tä (é BLOB);");
    assert_eq!(tbl.len(false, false), Ok(sql.chars().count()));
}

#[test]
fn defaults_follow_the_dialect() {
    assert_eq!(SQLiteType::default(), SQLiteType::Blob);
    assert_eq!(Order::default(), Order::Ascending);
    assert_eq!(OnConflict::default(), OnConflict::Abort);
    assert_eq!(FKOnAction::default(), FKOnAction::NoAction);
    assert_eq!(GeneratedAs::default(), GeneratedAs::Virtual);
    assert_eq!(PrimaryKey::default(), PrimaryKey::new(Order::Ascending, OnConflict::Abort, false));
}

#[test]
fn catalog_comparison_lists_each_mismatch() {
    let tbl = id_table().set_strict(true);
    let row = CatalogTable { name: "t".to_string(), ncol: 1, without_rowid: false, strict: true };
    assert_eq!(check_table(&tbl, &row), Vec::<Discrepancy>::new());
    let row = CatalogTable { name: "u".to_string(), ncol: 2, without_rowid: true, strict: false };
    assert_eq!(
        check_table(&tbl, &row),
        vec![Discrepancy::Name, Discrepancy::WithoutRowid, Discrepancy::Strict, Discrepancy::ColumnCount]
    );
    let row = CatalogTable { name: "t".to_string(), ncol: 3, without_rowid: false, strict: true };
    assert_eq!(check_table(&tbl, &row), vec![Discrepancy::ColumnCount]);
}

#[test]
fn default_schema_is_empty() {
    let schema = Schema::default();
    assert!(schema.tables.is_empty() && schema.views.is_empty());
    assert_eq!(schema.len(true, true), Err(Error::EmptySchema));
}

#[test]
fn equality_compares_every_field() {
    let tbl = id_table();
    assert_eq!(tbl.clone(), id_table());
    assert_ne!(tbl.clone(), id_table().set_strict(true));
    assert_ne!(tbl.clone(), tbl.clone().add_column(Column::new_default("x".to_string())));
    let a = Schema::new().add_table(tbl.clone());
    let b = a.clone().add_view(View::new_default("v".to_string(), "SELECT 1".to_string()));
    assert_ne!(a, b);
    assert_eq!(b.clone(), b);
    let declared = View::new("v".to_string(), false, Vec::new(), "SELECT 1".to_string());
    let absent = View::new_default("v".to_string(), "SELECT 1".to_string());
    assert_ne!(declared, absent);
    let fk = ForeignKey::new_default("t".to_string(), "c".to_string());
    assert_ne!(fk.clone(), fk.clone().set_deferrable(true));
    assert_ne!(
        Column::new_default("c".to_string()).set_fk(Some(fk.clone())),
        Column::new_default("c".to_string())
    );
    assert_ne!(Generated::new_default("a".to_string()), Generated::new_default("b".to_string()));
    assert_ne!(ViewColumn::new("a".to_string()), ViewColumn::new("b".to_string()));
}
