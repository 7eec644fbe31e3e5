//! Compilation of declarative installer-database table schemas into the
//! descriptions of the types that store and manipulate their rows.

pub mod category;
pub mod dao;
pub mod identifier;
pub mod naming;
pub mod schema;
pub mod table;
pub mod tables;
