//! Decoders for common text escapements: HTML/XML character entities,
//! RFC 1738 percent-encoding, and RFC 2047 MIME encoded words with their
//! quoted-printable payloads.

pub mod backing;
pub mod encword;
pub mod entity;
pub mod table;
pub mod percent;
pub mod quoted;
pub mod text;

pub use encword::decode_rfc2047;
pub use entity::decode_entities;
pub use percent::decode_rfc1738;
pub use quoted::decode_quoted_printable;
