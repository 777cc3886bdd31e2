//! Core of a task-tracking service that answers two wire protocols on one
//! listening socket: the choice of handler chain for each request, the store's
//! rules, the service operations and what each adapter replies.

pub mod database;
pub mod dispatch;
pub mod grpc;
pub mod pb;
pub mod rest;
pub mod task;
