//! Trading readiness checks and order translation for a CLOB trading client.
//!
//! The library holds the decisions: how an order's maker and taker amounts
//! become the price and size text that the execution backend reads, how a
//! backend reply is read, and the sequence of chain reads and approval
//! transactions that makes a wallet ready to trade. Performing the chain calls
//! and the HTTP request is left to the caller.

pub mod fixed;
pub mod order;
pub mod readiness;
pub mod execution;
pub mod client;
