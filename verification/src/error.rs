//! The two closed error families, one for each component.

use vstd::prelude::*;

verus! {

/// `std::io::Error`, carried through unread.
#[verifier::external_type_specification]
#[verifier::external_body]
pub struct ExIoError(std::io::Error);

/// `std::num::ParseIntError`, carried through unread.
#[verifier::external_type_specification]
#[verifier::external_body]
pub struct ExParseIntError(std::num::ParseIntError);

/// `rmp_serde::encode::Error`, carried through unread.
#[verifier::external_type_specification]
#[verifier::external_body]
pub struct ExEncodeError(rmp_serde::encode::Error);

/// `rmp_serde::decode::Error`, carried through unread.
#[verifier::external_type_specification]
#[verifier::external_body]
pub struct ExDecodeError(rmp_serde::decode::Error);

/// Why a [`crate::Codec`] operation failed. Each variant keeps the failure of
/// the stage it came from.
#[derive(Debug)]
pub enum Codec {
    /// The compression stage failed.
    IOError(std::io::Error),
    /// The value could not be written as MessagePack.
    SerdeError(rmp_serde::encode::Error),
    /// The bytes could not be read as MessagePack of the expected type.
    SerdeDecodeError(rmp_serde::decode::Error),
}

/// Why a sub-second text was rejected.
#[derive(Debug)]
pub enum Epoch {
    /// The text has none of the accepted digit widths.
    InvalidSubSecond(String),
    /// The text has an accepted width but is no unsigned integer.
    InvalidEpoch(std::num::ParseIntError),
}

impl Codec {
    /// The outcome of the compression stage as an outcome of the codec: a
    /// success is kept, a failure becomes `IOError` around it.
    pub fn from_compression(r: Result<Vec<u8>, std::io::Error>) -> (out: Result<Vec<u8>, Codec>)
        ensures
            out == match r {
                Ok(bytes) => Ok::<Vec<u8>, Codec>(bytes),
                Err(e) => Err(Codec::IOError(e)),
            },
    {
        match r {
            Ok(bytes) => Ok(bytes),
            Err(e) => Err(Codec::from(e)),
        }
    }

    /// The outcome of writing MessagePack as an outcome of the codec: a
    /// success is kept, a failure becomes `SerdeError` around it.
    pub fn from_serialization(r: Result<Vec<u8>, rmp_serde::encode::Error>) -> (out: Result<
        Vec<u8>,
        Codec,
    >)
        ensures
            out == match r {
                Ok(bytes) => Ok::<Vec<u8>, Codec>(bytes),
                Err(e) => Err(Codec::SerdeError(e)),
            },
    {
        match r {
            Ok(bytes) => Ok(bytes),
            Err(e) => Err(Codec::from(e)),
        }
    }

    /// The outcome of reading MessagePack as an outcome of the codec: a
    /// success is kept, a failure becomes `SerdeDecodeError` around it.
    pub fn from_deserialization<T>(r: Result<T, rmp_serde::decode::Error>) -> (out: Result<
        T,
        Codec,
    >)
        ensures
            out == match r {
                Ok(value) => Ok::<T, Codec>(value),
                Err(e) => Err(Codec::SerdeDecodeError(e)),
            },
    {
        match r {
            Ok(value) => Ok(value),
            Err(e) => Err(Codec::from(e)),
        }
    }
}

impl From<std::io::Error> for Codec {
    fn from(e: std::io::Error) -> (r: Codec)
        ensures
            r == Codec::IOError(e),
    {
        Codec::IOError(e)
    }
}

impl vstd::std_specs::convert::FromSpecImpl<std::io::Error> for Codec {
    open spec fn obeys_from_spec() -> bool {
        true
    }

    open spec fn from_spec(e: std::io::Error) -> Codec {
        Codec::IOError(e)
    }
}

impl From<rmp_serde::encode::Error> for Codec {
    fn from(e: rmp_serde::encode::Error) -> (r: Codec)
        ensures
            r == Codec::SerdeError(e),
    {
        Codec::SerdeError(e)
    }
}

impl vstd::std_specs::convert::FromSpecImpl<rmp_serde::encode::Error> for Codec {
    open spec fn obeys_from_spec() -> bool {
        true
    }

    open spec fn from_spec(e: rmp_serde::encode::Error) -> Codec {
        Codec::SerdeError(e)
    }
}

impl From<rmp_serde::decode::Error> for Codec {
    fn from(e: rmp_serde::decode::Error) -> (r: Codec)
        ensures
            r == Codec::SerdeDecodeError(e),
    {
        Codec::SerdeDecodeError(e)
    }
}

impl vstd::std_specs::convert::FromSpecImpl<rmp_serde::decode::Error> for Codec {
    open spec fn obeys_from_spec() -> bool {
        true
    }

    open spec fn from_spec(e: rmp_serde::decode::Error) -> Codec {
        Codec::SerdeDecodeError(e)
    }
}

impl From<std::num::ParseIntError> for Epoch {
    fn from(e: std::num::ParseIntError) -> (r: Epoch)
        ensures
            r == Epoch::InvalidEpoch(e),
    {
        Epoch::InvalidEpoch(e)
    }
}

impl vstd::std_specs::convert::FromSpecImpl<std::num::ParseIntError> for Epoch {
    open spec fn obeys_from_spec() -> bool {
        true
    }

    open spec fn from_spec(e: std::num::ParseIntError) -> Epoch {
        Epoch::InvalidEpoch(e)
    }
}

} // verus!
