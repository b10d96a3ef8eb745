//! A record service over a bounded pool of backend connections.
//!
//! The crate holds the decisions of the service: how the pool accounts for
//! its connections, what a borrower and a request do step by step, and what
//! a record looks like in the backend. Everything that waits or touches the
//! network is left to the caller, who performs what the state machines ask
//! for and reports what came of it.
//!
//! - [`pool`] keeps the pool's books; [`pool_model`] says what each
//!   operation on them means, and [`pool_laws`] what holds of all of them.
//! - [`acquire`] takes one borrower to its connection.
//! - [`session`] takes one request from start to done.
//! - [`record`] and [`fields`] hold the requests, the responses and the
//!   layout of a record; [`error`] holds what a caller is told on failure.
//! - [`backend`] is a backend in memory, and [`service`] runs requests
//!   against it one at a time.

pub mod acquire;
pub mod acquire_laws;
pub mod backend;
pub mod backend_laws;
pub mod error;
pub mod fields;
pub mod pool;
pub mod pool_laws;
pub mod pool_model;
pub mod record;
pub mod search;
pub mod service;
pub mod service_laws;
pub mod session;
pub mod session_laws;
