//! The project-domain data: routes, database tables, and the process-wide
//! cached snapshot of both.

pub mod project_config;
pub mod routes;
pub mod tables;
