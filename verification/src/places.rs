//! The Places service: what it answers, and how its answers are paged.

pub mod query;
