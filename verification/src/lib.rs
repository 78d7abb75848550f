//! A name service: a registry that ties names to accounts, one name to an
//! account and one account to a name, with an administrator who may override.
//!
//! - [`ident`] holds the two kinds of identifier, names and accounts, and
//!   [`word`] the byte arithmetic behind them.
//! - [`registry`] holds the registry, [`P2pNameService`](registry::P2pNameService):
//!   registering, transferring, the administrator's versions of both, the
//!   handing on of the administration, and the lookups in both directions.
//! - [`error`] says why a call is refused, [`event`] what is reported of a
//!   call that is not.
//! - [`model`] is the registry as a mathematical object, over which the
//!   contracts of the registry are stated; [`history`] follows registries
//!   through sequences of calls. The laws proved in these two say that the
//!   two directions of a registry always answer each other, that an account
//!   owns one name at most, that a refused call is refused again, and that
//!   nobody but the administrator can use the administrator's calls.

pub mod error;
pub mod event;
pub mod history;
pub mod ident;
pub mod model;
pub mod registry;
pub mod word;
