//! A read-only reporting facade over four backend services: it counts the
//! items each service's collection endpoint returns and assembles the counts
//! into summary records. Any failure to reach or decode an upstream degrades
//! that count to zero; it never fails the aggregate.

pub mod config;
pub mod count;
pub mod handlers;
pub mod models;
