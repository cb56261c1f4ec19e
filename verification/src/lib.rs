//! A synchronous, transactional SQL client over libsql, shaped for an embedding
//! script runtime: every call drives the asynchronous driver to completion
//! before it returns.

pub mod connection;
pub mod database;
pub mod engine;
pub mod error;
pub mod laws;
pub mod mapping;
pub mod row;
pub mod rows;
pub mod text;
pub mod transaction;
pub mod value;

pub use connection::Connection;
pub use database::open_file;
pub use database::open_in_memory;
pub use database::Database;
pub use error::Error;
pub use mapping::Mapping;
pub use row::Column;
pub use row::Row;
pub use rows::Fetched;
pub use rows::Rows;
pub use transaction::CursorId;
pub use transaction::Ending;
pub use transaction::Transaction;
pub use transaction::TxState;
pub use value::HostValue;
pub use value::Value;
pub use value::ValueType;
