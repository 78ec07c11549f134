//! Registration of users in a remote key-value table.
//!
//! One invocation registers one user: it receives a [`model::Event`], asks the
//! table to hold one fresh [`model::Record`], and answers with a
//! [`model::Response`] whose message tells whether the write went through.
//!
//! The crate holds the decisions of that path and proves them. Talking to the
//! table and to the invocation runtime is left to the caller:
//!
//! * [`writer`] chooses the region, builds the record under a fresh
//!   identifier and describes the single write that stores it;
//! * [`handler`] turns the event and the outcome of that write into the
//!   response;
//! * [`table`] is a mathematical model of the table, over which the effect of
//!   the write is stated.

pub mod handler;
pub mod model;
pub mod table;
pub mod writer;
