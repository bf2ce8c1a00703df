pub mod args;
pub mod completeness;
pub mod directive;
pub mod environment;
pub mod error;
pub mod evaluate;
pub mod fault;
pub mod formatting;
pub mod pretty;
pub mod session;
mod text;
pub mod visualize;
