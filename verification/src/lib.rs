//! A minimal server-rendered record keeper: records (name, date, tags) are
//! validated from form input, appended to a single relational table, and
//! listed back as HTML fragments for in-place page updates.
//!
//! The store is modelled here as an in-memory table behind the same contract
//! that the relational backend satisfies; the process edge wires the same SQL
//! text to the backend and routes HTTP requests to the handlers in [`router`].

pub mod record;
pub mod render;
pub mod router;
pub mod store;
mod strings;
