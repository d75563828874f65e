use sqlayout::{
    Column, Error, FKOnAction, ForeignKey, Generated, GeneratedAs, NotNull, OnConflict, Order,
    PrimaryKey, SQLStatement, SQLiteType, Table, Unique, View, ViewColumn,
};

fn check_part(
    len: Result<usize, Error>,
    emit: impl Fn(&mut String) -> Result<(), Error>,
) -> Result<(), Error> {
    let mut str: String = String::with_capacity(len?);
    emit(&mut str)?;
    assert_eq!(str.len(), len?);
    Ok(())
}

fn check_statement<S: SQLStatement>(stmt: &S) -> Result<(), Error> {
    for if_exists in [true, false] {
        for transaction in [true, false] {
            let sql: String = stmt.build(transaction, if_exists)?;
            assert_eq!(sql.len(), stmt.len(transaction, if_exists)?);
        }
    }
    Ok(())
}

fn view_possibilities() -> Vec<View> {
    let mut ret: Vec<View> = Vec::new();
    for name in ["test".to_string(), "test".to_string()] {
        for select in ["test".to_string(), "test".to_string()] {
            for temp in [true, false] {
                for col_num in [3, 1, 2] {
                    let mut cols: Vec<ViewColumn> = Vec::new();
                    for n in 0..col_num {
                        cols.push(ViewColumn::new(format!("test{}", n)))
                    }
                    ret.push(View::new(name.clone(), temp, cols, select.clone()));
                }
            }
        }
    }
    ret
}

fn table_possibilities() -> Vec<Table> {
    let mut ret: Vec<Table> = Vec::new();
    for name in ["test".to_string(), "test".to_string()] {
        for wo_rowid in [true, false] {
            for col_num in [3, 1, 2] {
                let mut cols: Vec<Column> = Vec::new();
                for n in 0..col_num {
                    cols.push(Column::new_default(format!("test{}", n)))
                }
                if wo_rowid {
                    cols[0].pk = Some(Default::default());
                }
                for strict in [true, false] {
                    ret.push(Table::new(name.clone(), cols.clone(), wo_rowid, strict));
                }
            }
        }
    }
    ret
}

#[test]
fn test_sqlite_type() {
    let mut str: String;

    str = String::new();
    SQLiteType::Blob.part_str(&mut str).unwrap();
    assert_eq!(str, "BLOB");
    assert_eq!(str.len(), SQLiteType::Blob.part_len().unwrap());

    str = String::new();
    SQLiteType::Numeric.part_str(&mut str).unwrap();
    assert_eq!(str, "NUMERIC");
    assert_eq!(str.len(), SQLiteType::Numeric.part_len().unwrap());

    str = String::new();
    SQLiteType::Integer.part_str(&mut str).unwrap();
    assert_eq!(str, "INTEGER");
    assert_eq!(str.len(), SQLiteType::Integer.part_len().unwrap());

    str = String::new();
    SQLiteType::Real.part_str(&mut str).unwrap();
    assert_eq!(str, "REAL");
    assert_eq!(str.len(), SQLiteType::Real.part_len().unwrap());

    str = String::new();
    SQLiteType::Text.part_str(&mut str).unwrap();
    assert_eq!(str, "TEXT");
    assert_eq!(str.len(), SQLiteType::Text.part_len().unwrap());
}

#[test]
fn test_order() {
    let mut str: String;

    str = String::new();
    Order::Ascending.part_str(&mut str).unwrap();
    assert_eq!(str, "ASC");
    assert_eq!(str.len(), Order::Ascending.part_len().unwrap());

    str = String::new();
    Order::Descending.part_str(&mut str).unwrap();
    assert_eq!(str, "DESC");
    assert_eq!(str.len(), Order::Descending.part_len().unwrap());
}

#[test]
fn test_on_conflict() {
    let mut str: String;

    str = String::new();
    OnConflict::Rollback.part_str(&mut str).unwrap();
    assert_eq!(str, "ON CONFLICT ROLLBACK");
    assert_eq!(str.len(), OnConflict::Rollback.part_len().unwrap());

    str = String::new();
    OnConflict::Abort.part_str(&mut str).unwrap();
    assert_eq!(str, "ON CONFLICT ABORT");
    assert_eq!(str.len(), OnConflict::Abort.part_len().unwrap());

    str = String::new();
    OnConflict::Fail.part_str(&mut str).unwrap();
    assert_eq!(str, "ON CONFLICT FAIL");
    assert_eq!(str.len(), OnConflict::Fail.part_len().unwrap());

    str = String::new();
    OnConflict::Ignore.part_str(&mut str).unwrap();
    assert_eq!(str, "ON CONFLICT IGNORE");
    assert_eq!(str.len(), OnConflict::Ignore.part_len().unwrap());

    str = String::new();
    OnConflict::Replace.part_str(&mut str).unwrap();
    assert_eq!(str, "ON CONFLICT REPLACE");
    assert_eq!(str.len(), OnConflict::Replace.part_len().unwrap());
}

#[test]
fn test_fk_on_action() {
    let mut str: String;

    str = String::new();
    FKOnAction::SetNull.part_str(&mut str).unwrap();
    assert_eq!(str, "SET NULL");
    assert_eq!(str.len(), FKOnAction::SetNull.part_len().unwrap());

    str = String::new();
    FKOnAction::SetDefault.part_str(&mut str).unwrap();
    assert_eq!(str, "SET DEFAULT");
    assert_eq!(str.len(), FKOnAction::SetDefault.part_len().unwrap());

    str = String::new();
    FKOnAction::Cascade.part_str(&mut str).unwrap();
    assert_eq!(str, "CASCADE");
    assert_eq!(str.len(), FKOnAction::Cascade.part_len().unwrap());

    str = String::new();
    FKOnAction::Restrict.part_str(&mut str).unwrap();
    assert_eq!(str, "RESTRICT");
    assert_eq!(str.len(), FKOnAction::Restrict.part_len().unwrap());

    str = String::new();
    FKOnAction::NoAction.part_str(&mut str).unwrap();
    assert_eq!(str, "NO ACTION");
    assert_eq!(str.len(), FKOnAction::NoAction.part_len().unwrap());
}

#[test]
fn test_generated_as() {
    let mut str: String;

    str = String::new();
    GeneratedAs::Virtual.part_str(&mut str).unwrap();
    assert_eq!(str, "VIRTUAL");
    assert_eq!(str.len(), GeneratedAs::Virtual.part_len().unwrap());

    str = String::new();
    GeneratedAs::Stored.part_str(&mut str).unwrap();
    assert_eq!(str, "STORED");
    assert_eq!(str.len(), GeneratedAs::Stored.part_len().unwrap());
}

#[test]
fn test_not_null() {
    let mut str: String;

    str = String::new();
    NotNull::new(OnConflict::Rollback).part_str(&mut str).unwrap();
    assert_eq!(str, "NOT NULL ON CONFLICT ROLLBACK");
    assert_eq!(str.len(), NotNull::new(OnConflict::Rollback).part_len().unwrap());

    str = String::new();
    NotNull::new(OnConflict::Abort).part_str(&mut str).unwrap();
    assert_eq!(str, "NOT NULL ON CONFLICT ABORT");
    assert_eq!(str.len(), NotNull::new(OnConflict::Abort).part_len().unwrap());

    str = String::new();
    NotNull::new(OnConflict::Fail).part_str(&mut str).unwrap();
    assert_eq!(str, "NOT NULL ON CONFLICT FAIL");
    assert_eq!(str.len(), NotNull::new(OnConflict::Fail).part_len().unwrap());

    str = String::new();
    NotNull::new(OnConflict::Ignore).part_str(&mut str).unwrap();
    assert_eq!(str, "NOT NULL ON CONFLICT IGNORE");
    assert_eq!(str.len(), NotNull::new(OnConflict::Ignore).part_len().unwrap());

    str = String::new();
    NotNull::new(OnConflict::Replace).part_str(&mut str).unwrap();
    assert_eq!(str, "NOT NULL ON CONFLICT REPLACE");
    assert_eq!(str.len(), NotNull::new(OnConflict::Replace).part_len().unwrap());
}

#[test]
fn test_unique() {
    let mut str: String;

    str = String::new();
    Unique::new(OnConflict::Rollback).part_str(&mut str).unwrap();
    assert_eq!(str, "UNIQUE ON CONFLICT ROLLBACK");
    assert_eq!(str.len(), Unique::new(OnConflict::Rollback).part_len().unwrap());

    str = String::new();
    Unique::new(OnConflict::Abort).part_str(&mut str).unwrap();
    assert_eq!(str, "UNIQUE ON CONFLICT ABORT");
    assert_eq!(str.len(), Unique::new(OnConflict::Abort).part_len().unwrap());

    str = String::new();
    Unique::new(OnConflict::Fail).part_str(&mut str).unwrap();
    assert_eq!(str, "UNIQUE ON CONFLICT FAIL");
    assert_eq!(str.len(), Unique::new(OnConflict::Fail).part_len().unwrap());

    str = String::new();
    Unique::new(OnConflict::Ignore).part_str(&mut str).unwrap();
    assert_eq!(str, "UNIQUE ON CONFLICT IGNORE");
    assert_eq!(str.len(), Unique::new(OnConflict::Ignore).part_len().unwrap());

    str = String::new();
    Unique::new(OnConflict::Replace).part_str(&mut str).unwrap();
    assert_eq!(str, "UNIQUE ON CONFLICT REPLACE");
    assert_eq!(str.len(), Unique::new(OnConflict::Replace).part_len().unwrap());
}

#[test]
fn test_primary_key() {
    for so in [Order::Ascending, Order::Descending] {
        for conf in [OnConflict::Rollback, OnConflict::Abort, OnConflict::Fail, OnConflict::Ignore, OnConflict::Replace] {
            for auto_inc in [true, false] {
                let pk = PrimaryKey::new(so, conf, auto_inc);
                check_part(pk.part_len(), |s| pk.part_str(s)).unwrap();
            }
        }
    }
}

#[test]
fn test_foreign_key() {
    let actions = [None, Some(FKOnAction::SetNull), Some(FKOnAction::SetDefault), Some(FKOnAction::Cascade), Some(FKOnAction::Restrict), Some(FKOnAction::NoAction)];
    for defer in [true, false] {
        for on_del in actions {
            for on_upd in actions {
                assert_eq!(ForeignKey::new("".to_string(), "test".to_string(), on_del, on_upd, defer).part_len(), Err(Error::EmptyForeignTableName));
                assert_eq!(ForeignKey::new("test".to_string(), "".to_string(), on_del, on_upd, defer).part_len(), Err(Error::EmptyForeignColumnName));

                let fk = ForeignKey::new("test".to_string(), "test".to_string(), on_del, on_upd, defer);
                check_part(fk.part_len(), |s| fk.part_str(s)).unwrap();
            }
        }
    }
}

#[test]
fn test_generated() {
    for gen_as in [None, Some(GeneratedAs::Virtual), Some(GeneratedAs::Stored)] {
        assert_eq!(Generated::new("".to_string(), gen_as).part_len(), Err(Error::EmptyGeneratorExpr));

        let gened = Generated::new("test".to_string(), gen_as);
        check_part(gened.part_len(), |s| gened.part_str(s)).unwrap();
    }
}

#[test]
fn test_column() {
    for typ in [SQLiteType::Blob, SQLiteType::Numeric, SQLiteType::Integer, SQLiteType::Real, SQLiteType::Text] {
        for pk in [None, Some(PrimaryKey::default())] {
            for uniq in [None, Some(Unique::default())] {
                for fk in [None, Some(ForeignKey::new_default("test".to_string(), "test".to_string()))] {
                    for nn in [None, Some(NotNull::default())] {
                        for gened in [None, Some(Generated::new_default("expr".to_string()))] {
                            assert_eq!(Column::new(typ, "".to_string(), pk.clone(), uniq, fk.clone(), nn, gened.clone()).part_len(), Err(Error::EmptyColumnName));

                            let col: Column = Column::new(typ, "test".to_string(), pk.clone(), uniq, fk.clone(), nn, gened);

                            if col.pk.is_some() && col.fk.is_some() {
                                assert_eq!(col.part_len(), Err(Error::PrimaryKeyAndForeignKey));
                            } else if col.pk.is_some() && col.unique.is_some() {
                                assert_eq!(col.part_len(), Err(Error::PrimaryKeyAndUnique));
                            } else {
                                check_part(col.part_len(), |s| col.part_str(s)).unwrap();
                            }
                        }
                    }
                }
            }
        }
    }
}

#[test]
fn test_view() {
    'poss: for possible in view_possibilities() {
        for col in possible.columns.iter().flatten() {
            if col.name.is_empty() {
                assert_eq!(col.part_len(), Err(Error::EmptyColumnName));
                continue 'poss;
            }
        }

        if possible.name.is_empty() {
            assert_eq!(possible.part_len(false), Err(Error::EmptyViewName));
            continue;
        }
        if possible.select.is_empty() {
            assert_eq!(possible.part_len(false), Err(Error::EmptyViewSelect));
            continue;
        }

        check_part(possible.part_len(false), |s| possible.part_str(false, s)).unwrap();
        check_statement(&possible).unwrap();
    }
}

#[test]
fn test_table() {
    'poss: for possible in table_possibilities() {
        let mut has_pk: bool = false;

        for col in &possible.columns {
            if col.pk.is_some() && col.unique.is_some() {
                assert_eq!(col.part_len(), Err(Error::PrimaryKeyAndUnique));
                continue 'poss;
            }
            if col.pk.is_some() && col.fk.is_some() {
                assert_eq!(col.part_len(), Err(Error::PrimaryKeyAndForeignKey));
                continue 'poss;
            }
            if col.pk.is_some() {
                has_pk = true;
            }
        }
        if !possible.without_rowid && has_pk {
            assert_eq!(possible.part_len(false), Err(Error::WithoutRowidNoPrimaryKey));
            continue;
        }

        if possible.name.is_empty() {
            assert_eq!(possible.part_len(false), Err(Error::EmptyTableName));
            continue;
        }

        if possible.columns.is_empty() {
            assert_eq!(possible.part_len(false), Err(Error::NoColumns));
            continue;
        }

        check_part(possible.part_len(false), |s| possible.part_str(false, s)).unwrap();
        check_statement(&possible).unwrap();
    }
}

#[test]
fn test_schema() {
    {
        let schema: sqlayout::Schema = sqlayout::Schema::new();
        assert_eq!(schema.len(false, false), Err(Error::EmptySchema));
    }
    for num_tbl in 1..3 {
        let mut schema: sqlayout::Schema = sqlayout::Schema::new();
        for tbl_idx in 0..num_tbl {
            let mut tbl = Table::new_default(format!("table{}", tbl_idx));
            tbl = tbl.add_column(Column::new_default("testcol".to_string()));
            schema = schema.add_table(tbl);
        }
        check_statement(&schema).unwrap();
    }
}
