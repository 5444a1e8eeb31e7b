//! A task-tracking store: the task record, an in-process store of tasks with
//! its laws, the statements that a store sends to a SurrealDB engine, the
//! replies of the service's five routes, and the decisions of a view's
//! controller.

pub mod controllers;
pub mod db;
pub mod error;
pub mod facade;
pub mod statement;
pub mod task;
