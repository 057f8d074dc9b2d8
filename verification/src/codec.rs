//! Serialize, then compress; decompress, then deserialize.
//!
//! The bytes come from two libraries that are called, not proved: rmp_serde
//! writes and reads MessagePack, zstd packs and unpacks frames. What is proved
//! here is what the codec makes of their outcomes.

use vstd::prelude::*;
use crate::error::Codec as CodecError;

verus! {

/// The least compression level that a [`Codec`] takes.
pub const MIN_LEVEL: i32 = 0;

/// The greatest compression level that a [`Codec`] takes.
pub const MAX_LEVEL: i32 = 22;

/// The level of [`Codec::default`].
pub const DEFAULT_LEVEL: i32 = 1;

/// What `zstd::encode_all` returns for `data` at `level`: the bytes of the
/// frame that it writes, or nothing where it fails.
pub uninterp spec fn compressed(data: Seq<u8>, level: int) -> Option<Seq<u8>>;

/// What `zstd::decode_all` returns for `bytes`: the content of the frames that
/// they hold, or nothing where they are no well-formed frames.
pub uninterp spec fn frame_content(bytes: Seq<u8>) -> Option<Seq<u8>>;

/// Whether `out` is what compressing `data` at `level` gives: the bytes that
/// zstd writes for it, which unpack to `data` again.
pub open spec fn packs(out: Seq<u8>, data: Seq<u8>, level: int) -> bool {
    compressed(data, level) == Some(out) && frame_content(out) == Some(data)
}

/// `zstd::encode_all` on a byte slice. Whether it succeeds, and with which
/// bytes, is a matter of the input and the level alone. Where it returns `Ok`,
/// the bytes are a frame, and decoding that frame gives the input back. On
/// which inputs it succeeds is not claimed.
#[verifier::external_body]
fn zstd_encode_all(data: &[u8], level: i32) -> (r: Result<Vec<u8>, std::io::Error>)
    ensures
        compressed(data@, level as int) == match r {
            Ok(out) => Some(out@),
            Err(_) => None::<Seq<u8>>,
        },
        r matches Ok(out) ==> frame_content(out@) == Some(data@),
{
    zstd::encode_all(data, level)
}

/// `zstd::decode_all` on a byte slice. It returns the content of the frames,
/// or an error where the bytes are no well-formed frames; which of the two is
/// a matter of the bytes alone.
#[verifier::external_body]
fn zstd_decode_all(data: &[u8]) -> (r: Result<Vec<u8>, std::io::Error>)
    ensures
        frame_content(data@) == match r {
            Ok(out) => Some(out@),
            Err(_) => None::<Seq<u8>>,
        },
{
    zstd::decode_all(data)
}

/// `serde::Serialize::serialize` into rmp_serde's default `Serializer`, which
/// writes to a fresh buffer. The bytes depend on how `T` implements
/// `Serialize`, so nothing is claimed of them.
#[verifier::external_body]
fn rmp_write<T: serde::Serialize>(data: &T) -> (r: Result<Vec<u8>, rmp_serde::encode::Error>) {
    let mut buf = Vec::new();
    let mut ser = rmp_serde::Serializer::new(&mut buf);
    data.serialize(&mut ser)?;
    Ok(buf)
}

/// `rmp_serde::from_slice`. The value depends on how `T` implements
/// `Deserialize`, so nothing is claimed of it.
#[verifier::external_body]
fn rmp_read<'a, T: serde::Deserialize<'a>>(data: &'a [u8]) -> (r: Result<
    T,
    rmp_serde::decode::Error,
>) {
    rmp_serde::from_slice(data)
}

/// A compression level, kept for every call. A codec holds nothing else and
/// may be used for any number of calls, in any order.
#[derive(Debug, Clone, PartialEq, Eq, PartialOrd, Ord, Structural)]
pub struct Codec {
    level: i32,
}

impl View for Codec {
    type V = int;

    /// The compression level.
    closed spec fn view(&self) -> int {
        self.level as int
    }
}

impl Codec {
    /// Whether the level is one that a codec takes, from 0 to 22. Every
    /// `Codec` that the functions of this type build has this.
    pub open spec fn wf(self) -> bool {
        MIN_LEVEL <= self@ <= MAX_LEVEL
    }

    /// A codec that compresses at `level`, from 0 for the least effort to 22
    /// for the most.
    #[must_use]
    pub fn new(level: i32) -> (r: Codec)
        requires
            MIN_LEVEL <= level <= MAX_LEVEL,
        ensures
            r@ == level,
            r.wf(),
    {
        Codec { level }
    }

    /// The compression level.
    #[must_use]
    pub fn level(&self) -> (r: i32)
        ensures
            r == self@,
    {
        self.level
    }

    /// Serializes `data` and compresses the bytes. A failure of either stage
    /// is returned as that stage's error; `IOError` comes only where zstd
    /// fails on the serialized bytes.
    pub fn encode<T: serde::Serialize>(&self, data: &T) -> (r: Result<Vec<u8>, CodecError>)
        ensures
            r matches Ok(out) ==> exists|serialized: Seq<u8>| packs(out@, serialized, self@),
            r matches Err(e) ==> e is SerdeError || (e is IOError && exists|serialized: Seq<u8>|
                compressed(serialized, self@) is None),
    {
        let serialized = Self::serialize(data);
        self.compress_serialized(serialized)
    }

    /// The second half of [`Codec::encode`]: compresses what serializing gave,
    /// as [`Codec::compress`] does, and hands a failure of serializing on as
    /// it is.
    pub fn compress_serialized(&self, serialized: Result<Vec<u8>, CodecError>) -> (r: Result<
        Vec<u8>,
        CodecError,
    >)
        ensures
            serialized matches Err(e) ==> r == Err::<Vec<u8>, CodecError>(e),
            serialized matches Ok(bytes) ==> match r {
                Ok(out) => packs(out@, bytes@, self@),
                Err(e) => e is IOError && compressed(bytes@, self@) is None,
            },
    {
        match serialized {
            Ok(bytes) => self.compress(bytes.as_slice()),
            Err(e) => Err(e),
        }
    }

    /// Decompresses `data` and deserializes the content as a `T`. A failure
    /// of either stage is returned as that stage's error; bytes that are no
    /// well-formed frames always fail, with `IOError`.
    pub fn decode<T>(&self, data: &[u8]) -> (r: Result<T, CodecError>) where
        T: for<'de> serde::Deserialize<'de>,

        ensures
            frame_content(data@) is None ==> r is Err,
            r matches Err(e) ==> (e is IOError <==> frame_content(data@) is None) && (e is IOError
                || e is SerdeDecodeError),
    {
        match self.decompress(data) {
            Ok(content) => self.deserialize::<T>(content.as_slice()),
            Err(e) => Err(e),
        }
    }

    /// Compresses `data` at the codec's level: the frame that zstd writes for
    /// it, which unpacks to `data` again, or `IOError` where zstd fails on
    /// it.
    pub fn compress(&self, data: &[u8]) -> (r: Result<Vec<u8>, CodecError>)
        ensures
            r matches Ok(out) ==> packs(out@, data@, self@),
            r matches Err(e) ==> e is IOError && compressed(data@, self@) is None,
    {
        CodecError::from_compression(zstd_encode_all(data, self.level))
    }

    /// Decompresses `data`: the content of its frames, or `IOError` where the
    /// bytes are no well-formed frames. The codec's level plays no part.
    pub fn decompress(&self, data: &[u8]) -> (r: Result<Vec<u8>, CodecError>)
        ensures
            r matches Ok(out) ==> frame_content(data@) == Some(out@),
            r matches Err(e) ==> e is IOError && frame_content(data@) is None,
    {
        CodecError::from_compression(zstd_decode_all(data))
    }

    /// Writes `data` as MessagePack.
    pub fn serialize<T: serde::Serialize>(data: &T) -> (r: Result<Vec<u8>, CodecError>)
        ensures
            r matches Err(e) ==> e is SerdeError,
    {
        CodecError::from_serialization(rmp_write(data))
    }

    /// Reads `data` as the MessagePack of a `T`.
    pub fn deserialize<'a, T>(&self, data: &'a [u8]) -> (r: Result<T, CodecError>) where
        T: serde::Deserialize<'a>,

        ensures
            r matches Err(e) ==> e is SerdeDecodeError,
    {
        CodecError::from_deserialization(rmp_read(data))
    }
}

impl Default for Codec {
    /// The codec at level 1.
    fn default() -> (r: Codec)
        ensures
            r@ == DEFAULT_LEVEL,
            r.wf(),
    {
        Codec { level: DEFAULT_LEVEL }
    }
}

/// The compression stage round-trips: bytes that [`Codec::compress`] returned
/// for `data`, at whatever level, are bytes for which [`Codec::decompress`]
/// returns `data`.
pub proof fn lemma_decompress_undoes_compress(data: Seq<u8>, level: int, out: Seq<u8>)
    requires
        packs(out, data, level),
    ensures
        frame_content(out) == Some(data),
{
}

/// A codec is its level and nothing else: two codecs of one level are equal.
pub proof fn lemma_codec_is_its_level(a: Codec, b: Codec)
    requires
        a@ == b@,
    ensures
        a == b,
{
}

} // verus!
