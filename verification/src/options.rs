//! From a raw request to the configuration that the codec is called with.

use crate::encoding::{CompressionType, EncodingType};
use crate::error::KbinXMLError;
use crate::types::BinaryOptions;
use vstd::prelude::*;

verus! {

/// A validated request. The encoding stays open where the caller named none:
/// it is settled once the source document has been parsed.
#[derive(Debug, Clone, Copy, PartialEq, Eq)]
pub struct ConversionOptions {
    pub compression: CompressionType,
    pub encoding: Option<EncodingType>,
}

/// What the binary serializer is called with.
#[derive(Debug, Clone, Copy, PartialEq, Eq)]
pub struct CodecOptions {
    pub compression: CompressionType,
    pub encoding: EncodingType,
}

/// The compression that a request stands for: what it names, and no
/// compression where it names none.
pub open spec fn requested_compression(flag: Option<bool>) -> CompressionType {
    match flag {
        Some(f) => CompressionType::of_flag(f),
        None => CompressionType::Uncompressed,
    }
}

/// The validated form of a request, or the error it is refused with. A byte
/// that is no tag refuses the whole request, whatever the compression says.
pub open spec fn validated(opts: BinaryOptions) -> Result<ConversionOptions, KbinXMLError> {
    match opts.encoding {
        Some(b) => match EncodingType::of_tag(b) {
            Some(e) => Ok(
                ConversionOptions {
                    compression: requested_compression(opts.compression),
                    encoding: Some(e),
                },
            ),
            None => Err(KbinXMLError::InvalidEncodingType),
        },
        None => Ok(
            ConversionOptions {
                compression: requested_compression(opts.compression),
                encoding: None,
            },
        ),
    }
}

/// The encoding that a document is written in: the one the caller named, else
/// the one the source declared, else the null encoding.
pub open spec fn output_encoding(
    requested: Option<EncodingType>,
    declared: Option<EncodingType>,
) -> EncodingType {
    match requested {
        Some(e) => e,
        None => match declared {
            Some(d) => d,
            None => EncodingType::Null,
        },
    }
}

/// Validates a raw request.
///
/// Fails, with `InvalidEncodingType`, exactly when the request names an
/// encoding byte that is no tag. Otherwise the compression is the one named,
/// or none where none is named, and the encoding is the one named, or left
/// open.
pub fn build_to_binary_options(opts: BinaryOptions) -> (r: Result<ConversionOptions, KbinXMLError>)
    ensures
        r == validated(opts),
        r is Err <==> opts.encoding is Some && !EncodingType::is_tag(opts.encoding->Some_0),
        r is Err ==> r->Err_0 == KbinXMLError::InvalidEncodingType,
        r is Ok ==> r->Ok_0.compression == requested_compression(opts.compression),
        r is Ok && opts.encoding is None ==> r->Ok_0.encoding is None,
        r is Ok && opts.encoding is Some ==> r->Ok_0.encoding is Some
            && r->Ok_0.encoding->Some_0.tag() == opts.encoding->Some_0,
{
    let compression = match opts.compression {
        Some(flag) => CompressionType::from_flag(flag),
        None => CompressionType::Uncompressed,
    };
    match opts.encoding {
        Some(byte) => match EncodingType::from_byte(byte) {
            Ok(encoding) => Ok(ConversionOptions { compression, encoding: Some(encoding) }),
            Err(err) => Err(err),
        },
        None => Ok(ConversionOptions { compression, encoding: None }),
    }
}

impl ConversionOptions {
    /// The options of a request that asks for nothing.
    pub fn new() -> (r: ConversionOptions)
        ensures
            r.compression == CompressionType::Uncompressed,
            r.encoding is None,
            validated(BinaryOptions { compression: None, encoding: None }) == Ok::<
                ConversionOptions,
                KbinXMLError,
            >(r),
    {
        ConversionOptions { compression: CompressionType::Uncompressed, encoding: None }
    }

    /// Settles the encoding against what the parsed source declared.
    pub fn resolve(&self, declared: Option<EncodingType>) -> (r: CodecOptions)
        ensures
            r.compression == self.compression,
            r.encoding == output_encoding(self.encoding, declared),
    {
        let encoding = match self.encoding {
            Some(e) => e,
            None => match declared {
                Some(d) => d,
                None => EncodingType::Null,
            },
        };
        CodecOptions { compression: self.compression, encoding }
    }
}

/// A request that names no compression gets none, and one that names it
/// gets what it names, whatever the encoding says, as long as the request is
/// valid.
pub proof fn lemma_compression_default(opts: BinaryOptions)
    requires
        validated(opts) is Ok,
    ensures
        opts.compression is None ==> validated(opts)->Ok_0.compression
            == CompressionType::Uncompressed,
        opts.compression == Some(true) ==> validated(opts)->Ok_0.compression
            == CompressionType::Compressed,
        opts.compression == Some(false) ==> validated(opts)->Ok_0.compression
            == CompressionType::Uncompressed,
{
}

/// A request that names no encoding is written in the encoding that the
/// source declares; one that names an encoding is written in that one,
/// whatever the source declares.
pub proof fn lemma_encoding_tie_break(opts: BinaryOptions, declared: EncodingType)
    requires
        validated(opts) is Ok,
    ensures
        opts.encoding is None ==> output_encoding(validated(opts)->Ok_0.encoding, Some(declared))
            == declared,
        opts.encoding is Some ==> output_encoding(
            validated(opts)->Ok_0.encoding,
            Some(declared),
        ).tag() == opts.encoding->Some_0,
{
}

/// An invalid encoding byte is never replaced by a default: no valid
/// options come of it.
pub proof fn lemma_invalid_encoding_refused(opts: BinaryOptions)
    requires
        opts.encoding is Some,
        !EncodingType::is_tag(opts.encoding->Some_0),
    ensures
        validated(opts) == Err::<ConversionOptions, KbinXMLError>(
            KbinXMLError::InvalidEncodingType,
        ),
{
}

} // verus!
