//! Native wrappers of managed objects.

pub mod hikari;
pub mod io;
pub mod properties;
pub mod sql;
