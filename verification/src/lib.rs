//! Header-value representation for an HTTP/2-style protocol stack.
//!
//! The core abstraction is an immutable, cheaply clonable byte sequence
//! ([`HeaderPart`]), a name/value pair of two such sequences ([`Header`]),
//! and an insertion-ordered collection of pairs ([`Headers`]).
pub mod byte_buf;
pub mod escape;
pub mod header;
pub mod messages;
pub mod text;

pub use header::Header;
pub use header::HeaderPart;
pub use header::Headers;
pub use messages::CharCountRequest;
pub use messages::CharCountResponse;
pub use messages::EchoRequest;
pub use messages::EchoResponse;
