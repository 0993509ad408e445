//! A transactional unit of work over a `users` table: four parameterised
//! statements (insert, update, select, delete) between a begin and a commit,
//! driven as a strict linear pipeline.
//!
//! The library decides; the caller talks to the database. The caller starts a
//! [`unit_of_work::UnitOfWork`], performs each [`unit_of_work::Action`] it is
//! handed, and reports the outcome back as an [`unit_of_work::Event`].
pub mod record;
pub mod statement;
pub mod unit_of_work;
pub mod server_model;
