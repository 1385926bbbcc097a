//! A typed, namespaced key-value access layer over a raw byte store,
//! a bidirectional address codec, and a message-dispatch abstraction.
//!
//! The storage facade ([`composable::Composable`]) converts typed values
//! to and from raw bytes through a total, injective encoding
//! ([`codec::Codec`]), prefixes keys with caller-chosen namespaces, and
//! delegates address conversion to an address codec ([`addr::Api`]).
//! The dispatch traits ([`dispatch::HandleDispatch`],
//! [`dispatch::QueryDispatch`]) route a typed message to handler logic
//! that reads and writes through the facade.

pub mod addr;
pub mod codec;
pub mod composable;
pub mod dispatch;
pub mod error;
pub mod storage;
