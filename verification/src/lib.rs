//! Bridge layer for driving a remote task-execution service over a local or
//! virtualized transport.
//!
//! The crate covers the connection-registry and transport-resolution core of
//! such a bridge: parsing textual endpoint addresses into connect
//! specifications, keeping one cached connection per logical container
//! identifier, validating and building the request for each remote verb, and
//! translating typed responses into plain result values.  The wire protocol
//! itself is delegated to the `ttrpc` client, and the socket system calls and
//! the C-callable entry points live outside this library.

pub mod address;
pub mod error;
pub mod facade;
pub mod messages;
pub mod registry;
