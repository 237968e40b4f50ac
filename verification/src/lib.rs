//! Request-to-command logic of a recipe service backed by a document store.
//!
//! The crate never talks to the network or the database: handlers turn a
//! verified request into a command for the document store, and turn the
//! store's reply into an HTTP outcome. Whoever owns the connection carries
//! the command out in between.
//!
//! Every function carries a contract, and Verus proves it, with three
//! exceptions that are believed and not proved, because their bodies call the
//! document library: reading an identifier from its text, writing it as
//! text (both in [`identifier`]), and reading the wall clock, which stamps
//! the recipes. Of the clock's value nothing is assumed.
//!
//! - [`identifier`]: document identifiers and their text form.
//! - [`model`]: the stored recipe and the values exchanged with clients.
//! - [`util`]: the mapping from a client's input to a stored recipe.
//! - [`command`]: the commands for the store and its replies.
//! - [`repository`]: one command for each operation, and the reading of replies.
//! - [`collection`]: what each command means, and a collection in memory.
//! - [`api`]: the request handlers.
//! - [`guarantees`]: what holds of these parts together.

pub mod api;
mod clock;
pub mod collection;
pub mod command;
pub mod guarantees;
pub mod identifier;
pub mod model;
pub mod repository;
pub mod util;
