//! SQLite-specific `CREATE TABLE` / `CREATE VIEW` generation with an exact,
//! verified length computation: for every element, the length operation
//! returns precisely the number of characters that its emit operation
//! appends, and both fail with the same error on an invalid configuration.
pub mod catalog;
pub mod column;
pub mod constraints;
pub mod error;
pub mod laws;
pub mod schema;
pub mod statement;
pub mod table;
pub mod text;
pub mod view;
pub mod vocab;

pub use catalog::{check_table, CatalogTable, Discrepancy};
pub use column::Column;
pub use constraints::{ForeignKey, Generated, NotNull, PrimaryKey, Unique};
pub use error::Error;
pub use schema::Schema;
pub use statement::SQLStatement;
pub use table::Table;
pub use view::{View, ViewColumn};
pub use vocab::{FKOnAction, GeneratedAs, OnConflict, Order, SQLiteType};
