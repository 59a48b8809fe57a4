//! A bridge from native code to a pooled, JDBC-style database client that
//! runs inside an embedded managed runtime.
//!
//! The library starts the runtime, or shares one that the caller started;
//! wraps the managed objects of the client (data source, connection,
//! statement, result, metadata, streams) in native types that release what
//! they hold; resolves the methods of each wrapper once, when it is built;
//! and converts between native values and the runtime's boxed values.

pub mod builder;
pub mod config;
pub mod decimal;
pub mod errors;
pub mod method;
pub mod runtime;
pub mod util;
pub mod value;
pub mod wrapper;

pub use builder::{
    Builder, ClasspathEntry, FactoryFn, JNIVersion, JvmBuilder, PoolFactory, PoolType,
};
pub use wrapper::sql::{
    Connection, CursorState, DataSource, IStatement, PreparedStatement, ResultSet,
    ResultSetMetaData, Statement,
};
