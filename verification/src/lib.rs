//! Discriminator-tagged decode/encode layer for clients of Anchor-style
//! programs.
//!
//! The crate derives a deterministic 8-byte tag from a type's name and
//! namespace, builds a closed registry of named payload variants tagged this
//! way, and classifies raw byte records by tag, dispatching the remainder to
//! the matched variant's payload codec.

pub mod codec;
pub mod discriminator;
pub mod dispatch;
pub mod ident;
pub mod interface;
pub mod registry;

pub use codec::DecodeError;
pub use codec::TaggedValue;
pub use codec::VariantCodec;
pub use codec::WordPayload;
pub use discriminator::account_discriminator;
pub use discriminator::derive_discriminator;
pub use discriminator::instruction_discriminator;
pub use discriminator::Namespace;
pub use ident::ident_name;
pub use interface::Decode;
pub use interface::DiscrimToName;
pub use interface::NameToDiscrim;
pub use registry::BuildError;
pub use registry::LookupError;
pub use registry::TaggedUnion;
pub use registry::Variant;
