//! The part of a lobste.rs workload driver that turns requests into database
//! statements.
//!
//! Given a request and the user it acts for, if any, the library decides which
//! parameterised statements have to be issued, in which order, inside which
//! transaction, and how each reply feeds the statements after it. It does no
//! I/O: the caller holds a connection, carries out each script that a
//! [`task::Task`] hands out, and gives the reply to the last statement back.
//!
//! - [`request`], [`query`], [`statement`], [`reply`]: what goes in and out.
//! - [`render`], [`sql`], [`text`]: statements written out as text and
//!   parameters.
//! - [`task`], [`drive`]: a request on its way, turn by turn; one module for
//!   each family of requests beside them.
//! - [`model`] and the modules of laws: a store to reason with, and what is
//!   proved of the requests served on it.

pub mod clock;
pub mod closing;
pub mod comment;
pub mod comment_laws;
pub mod drive;
pub mod failure_laws;
pub mod ids;
pub mod karma_laws;
pub mod listing;
pub mod model;
pub mod page_laws;
pub mod profile;
pub mod query;
pub mod render;
pub mod reply;
pub mod request;
pub mod score;
pub mod sql;
pub mod statement;
pub mod store_lemmas;
pub mod story;
pub mod submit;
pub mod submit_laws;
pub mod task;
pub mod text;
pub mod turn_laws;
pub mod vote;
pub mod vote_laws;
