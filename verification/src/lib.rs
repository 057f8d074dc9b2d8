//! Compact persistence of timestamped data.
//!
//! [`Epoch`] is a Unix timestamp in whole seconds with an optional sub-second
//! part of fixed precision, rendered to text digit by digit. [`Codec`] turns
//! values into MessagePack bytes and packs them into zstd frames.

pub mod codec;
pub mod decimal;
pub mod epoch;
pub mod error;

pub use codec::Codec;
pub use epoch::Epoch;
pub use epoch::SubSecond;
pub use error::Codec as CodecError;
pub use error::Epoch as EpochError;
