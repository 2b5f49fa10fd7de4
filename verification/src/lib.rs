//! Command interpretation and persistence rules of a small role-based
//! access-control manager: users, roles, and the assignments between them.

pub mod command;
pub mod database;
pub mod dispatch;
pub mod laws;
pub mod model;
pub mod request;
pub mod sql;
pub mod tables;
pub mod text;
