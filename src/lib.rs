//! A small task service: validated create / list / update / delete requests
//! over one table of tasks, with the SQL each request needs and a model of what
//! that SQL does to the table.
pub mod errors;
pub mod models;
pub mod table;
pub mod service;
pub mod repository;
