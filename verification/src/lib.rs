//! Declarative query construction and analytical execution engine.
//!
//! A caller describes what it wants from a relational table — plain row
//! browsing, filtered search, or one of the analytical graph queries
//! (intra-model trend, cross-model trend with a join, categorical count,
//! chrono bucketing) — and this crate compiles the description into SQL
//! text, hands it to a backend connector for execution, and marshals the
//! raw rows back into a small closed set of semantic value types.
//!
//! Every compiler and marshaling function carries a contract that pins the
//! produced SQL text, or the produced result series, down to the exact
//! sequence of characters or values.

pub mod analysis;
pub mod backend;
pub mod error;
pub mod filter;
pub mod graphs;
pub mod query;
pub mod row;
pub mod sqltext;
pub mod table;
pub mod trend;
