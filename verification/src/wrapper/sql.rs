//! The statement and result API.

pub mod connection;
pub mod datasource;
pub mod result;
pub mod result_meta;
pub mod statement;

pub use connection::Connection;
pub use datasource::DataSource;
pub use result::{CursorState, ResultSet};
pub use result_meta::ResultSetMetaData;
pub use statement::{IStatement, PreparedStatement, Statement};
