//! The values that cross the boundary: the raw request and the two results.

use vstd::prelude::*;

verus! {

/// The result of a conversion to text.
#[derive(Debug, Clone, PartialEq, Eq)]
pub struct XmlResult {
    /// The document as text.
    pub data: String,
    /// The tag of the encoding that the binary source declared.
    pub encoding: u8,
}

/// The result of a conversion to binary.
#[derive(Debug, Clone, PartialEq, Eq)]
pub struct BinaryResult {
    /// The document in the binary format.
    pub data: Vec<u8>,
    /// The tag of the encoding that the document was written in.
    pub encoding: u8,
}

/// A raw request for a conversion to binary. Either field may be absent, and
/// the encoding is an unchecked byte.
#[derive(Debug, Clone, Copy, PartialEq, Eq)]
pub struct BinaryOptions {
    /// `Some(true)` asks for compression.
    pub compression: Option<bool>,
    /// The tag of the encoding to write in.
    pub encoding: Option<u8>,
}

/// What an `XmlResult` holds.
pub struct XmlResultView {
    pub data: Seq<char>,
    pub encoding: u8,
}

/// What a `BinaryResult` holds.
pub struct BinaryResultView {
    pub data: Seq<u8>,
    pub encoding: u8,
}

impl View for XmlResult {
    type V = XmlResultView;

    open spec fn view(&self) -> XmlResultView {
        XmlResultView { data: self.data@, encoding: self.encoding }
    }
}

impl View for BinaryResult {
    type V = BinaryResultView;

    open spec fn view(&self) -> BinaryResultView {
        BinaryResultView { data: self.data@, encoding: self.encoding }
    }
}

impl BinaryOptions {
    /// The request in which nothing is asked for.
    pub fn empty() -> (r: BinaryOptions)
        ensures
            r.compression is None,
            r.encoding is None,
    {
        BinaryOptions { compression: None, encoding: None }
    }
}

} // verus!
