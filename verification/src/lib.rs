//! Verified core of a read-only FUSE filesystem whose tree of nodes lives in a
//! database and whose contents come from a Telegram account.
//!
//! The library holds the logic: the node model and its conversion into FUSE
//! attributes, the replies to the filesystem requests, the choice of session
//! files, and the decision procedures of signing in and of connecting a
//! client. Reading terminals, files, databases and the network stays with the
//! caller, which feeds the results back in.
pub mod client_factory;
pub mod node;
pub mod prompt;
pub mod requests;
pub mod schema;
pub mod session;
pub mod settings;
pub mod sign_in;
