//! A journal of agent orchestration sessions: the sessions themselves, the
//! ordered steps each one took, the features they worked on, the files they
//! changed and the decisions they made, with a windowed summary over all of it.
//!
//! The library has two faces, and both follow the same rules.
//! [`journal::Journal`] holds the five stores in memory and keeps their
//! invariants; [`model::JournalView`] is the mathematical state that every
//! contract of it speaks of. [`statements`] gives, for each operation, the
//! parameterised statement that carries it out on a relational store laid
//! out as [`schema`] says; [`agreement`] proves that a statement binds what
//! the journal writes.

pub mod agreement;
pub mod clock;
pub mod error;
pub mod features;
pub mod filters;
pub mod journal;
pub mod logs;
pub mod model;
pub mod records;
pub mod retry;
pub mod schema;
pub mod sessions;
pub mod sql;
pub mod stage;
pub mod statements;
pub mod steps;
pub mod summary;
pub mod token;
