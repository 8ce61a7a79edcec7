//! The text encodings and compression modes that the binary format knows.

use crate::error::KbinXMLError;
use vstd::prelude::*;

verus! {

/// A text encoding of the binary format. Each has one tag byte, and no two
/// share a tag.
#[allow(non_camel_case_types)]
#[derive(Debug, Clone, Copy, PartialEq, Eq, Structural)]
pub enum EncodingType {
    /// The format's null encoding, tag `0x00`.
    Null,
    /// Tag `0x20`.
    ASCII,
    /// Tag `0x40`.
    ISO_8859_1,
    /// Tag `0x60`.
    EUC_JP,
    /// Tag `0x80`.
    SHIFT_JIS,
    /// Tag `0xA0`.
    UTF_8,
}

/// Whether the binary serializer compacts node data.
#[derive(Debug, Clone, Copy, PartialEq, Eq, Structural)]
pub enum CompressionType {
    Compressed,
    Uncompressed,
}

impl EncodingType {
    /// The tag byte of an encoding.
    pub open spec fn tag(self) -> u8 {
        match self {
            EncodingType::Null => 0x00u8,
            EncodingType::ASCII => 0x20u8,
            EncodingType::ISO_8859_1 => 0x40u8,
            EncodingType::EUC_JP => 0x60u8,
            EncodingType::SHIFT_JIS => 0x80u8,
            EncodingType::UTF_8 => 0xA0u8,
        }
    }

    /// True of the six bytes that are tags.
    pub open spec fn is_tag(b: u8) -> bool {
        b == 0x00u8 || b == 0x20u8 || b == 0x40u8 || b == 0x60u8 || b == 0x80u8 || b == 0xA0u8
    }

    /// The encoding that a byte is the tag of, if it is one.
    pub open spec fn of_tag(b: u8) -> Option<EncodingType> {
        if b == 0x00u8 {
            Some(EncodingType::Null)
        } else if b == 0x20u8 {
            Some(EncodingType::ASCII)
        } else if b == 0x40u8 {
            Some(EncodingType::ISO_8859_1)
        } else if b == 0x60u8 {
            Some(EncodingType::EUC_JP)
        } else if b == 0x80u8 {
            Some(EncodingType::SHIFT_JIS)
        } else if b == 0xA0u8 {
            Some(EncodingType::UTF_8)
        } else {
            None
        }
    }

    /// Reads a tag byte. Succeeds on the six tags and on nothing else; the
    /// encoding that comes back is the one whose tag the byte is.
    pub fn from_byte(b: u8) -> (r: Result<EncodingType, KbinXMLError>)
        ensures
            r is Ok <==> Self::is_tag(b),
            r is Ok ==> r->Ok_0.tag() == b,
            r is Err ==> r->Err_0 == KbinXMLError::InvalidEncodingType,
            r.ok() == Self::of_tag(b),
    {
        match b {
            0x00u8 => Ok(EncodingType::Null),
            0x20u8 => Ok(EncodingType::ASCII),
            0x40u8 => Ok(EncodingType::ISO_8859_1),
            0x60u8 => Ok(EncodingType::EUC_JP),
            0x80u8 => Ok(EncodingType::SHIFT_JIS),
            0xA0u8 => Ok(EncodingType::UTF_8),
            _ => Err(KbinXMLError::InvalidEncodingType),
        }
    }

    /// The tag byte of this encoding.
    pub fn to_byte(&self) -> (b: u8)
        ensures
            b == self.tag(),
    {
        match self {
            EncodingType::Null => 0x00u8,
            EncodingType::ASCII => 0x20u8,
            EncodingType::ISO_8859_1 => 0x40u8,
            EncodingType::EUC_JP => 0x60u8,
            EncodingType::SHIFT_JIS => 0x80u8,
            EncodingType::UTF_8 => 0xA0u8,
        }
    }

    /// Tags and encodings correspond one to one: a tag read and written again
    /// is the same byte.
    pub proof fn lemma_tag_of_tag(b: u8)
        requires
            Self::is_tag(b),
        ensures
            Self::of_tag(b) is Some,
            Self::of_tag(b)->Some_0.tag() == b,
    {
    }

    /// An encoding written and read again is the same encoding.
    pub proof fn lemma_of_tag_tag(e: EncodingType)
        ensures
            Self::is_tag(e.tag()),
            Self::of_tag(e.tag()) == Some(e),
    {
    }

    /// No two encodings share a tag.
    pub proof fn lemma_tag_injective(a: EncodingType, b: EncodingType)
        requires
            a.tag() == b.tag(),
        ensures
            a == b,
    {
    }

    /// A byte outside the six tags is the tag of no encoding.
    pub proof fn lemma_other_bytes_undefined(b: u8)
        requires
            !Self::is_tag(b),
        ensures
            Self::of_tag(b) is None,
            forall|e: EncodingType| e.tag() != b,
    {
    }
}

impl CompressionType {
    /// The mode that a request's flag stands for.
    pub open spec fn of_flag(flag: bool) -> CompressionType {
        if flag {
            CompressionType::Compressed
        } else {
            CompressionType::Uncompressed
        }
    }

    /// Maps a request's flag to a mode: `true` asks for compression.
    pub fn from_flag(flag: bool) -> (r: CompressionType)
        ensures
            r == Self::of_flag(flag),
    {
        if flag {
            CompressionType::Compressed
        } else {
            CompressionType::Uncompressed
        }
    }

    /// Whether this mode compresses.
    pub fn is_compressed(&self) -> (r: bool)
        ensures
            Self::of_flag(r) == *self,
    {
        match self {
            CompressionType::Compressed => true,
            CompressionType::Uncompressed => false,
        }
    }
}

} // verus!
