//! Transport services: an application states what it needs of a transport,
//! and the library picks, races and frames one.

pub mod buffer;
pub mod codec;
pub mod connection;
pub mod error;
pub mod http;
pub mod listener;
pub mod preconnection;
pub mod properties;
pub mod race;
pub mod resolve;
pub mod text;
pub mod transport;
