//! A store of task records kept one file per task, and the decisions of the
//! HTTP handlers that create, read, list, update and delete them.

pub mod codec;
pub mod error;
pub mod model;
pub mod service;
pub mod task;
