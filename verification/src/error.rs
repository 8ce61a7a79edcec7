//! The errors that a conversion reports to its caller.

use vstd::prelude::*;
use vstd::string::*;

verus! {

/// Why a conversion stopped. Every failure of a run is reported as exactly one
/// of these; none is retried and none is replaced by a default value.
#[derive(Debug, Clone, Copy, PartialEq, Eq, Structural)]
pub enum KbinXMLError {
    /// The text or binary input does not parse into a tree.
    InvalidXML,
    /// The raw options object has not the shape of a request.
    InvalidOption,
    /// An explicitly requested encoding byte is not a defined tag.
    InvalidEncodingType,
    /// The tree does not serialize to text.
    ToXml,
    /// The tree does not serialize to binary under the resolved options.
    ToBinary,
    /// The finished result could not be handed over to the host.
    ResultConversion,
    /// The text that the codec produced is not valid UTF-8.
    Utf8Error,
}

impl KbinXMLError {
    /// The message of each error, as a sequence of characters.
    pub open spec fn text(self) -> Seq<char> {
        match self {
            KbinXMLError::InvalidXML => "invalid xml"@,
            KbinXMLError::InvalidOption => "invalid option"@,
            KbinXMLError::InvalidEncodingType => "invalid encoding type"@,
            KbinXMLError::ToBinary => "to_binary error"@,
            KbinXMLError::ToXml => "to_xml error"@,
            KbinXMLError::ResultConversion => "result data conversion error"@,
            KbinXMLError::Utf8Error => "from_utf8 error"@,
        }
    }

    /// True when the failure lies in what the caller handed in, false when it
    /// arose inside the boundary or the codec.
    pub open spec fn blames_input(self) -> bool {
        self == KbinXMLError::InvalidXML || self == KbinXMLError::InvalidOption || self
            == KbinXMLError::InvalidEncodingType
    }

    /// The human-readable message of this error.
    pub fn message(&self) -> (r: String)
        ensures
            r@ == self.text(),
    {
        match self {
            KbinXMLError::InvalidXML => "invalid xml".to_string(),
            KbinXMLError::InvalidOption => "invalid option".to_string(),
            KbinXMLError::InvalidEncodingType => "invalid encoding type".to_string(),
            KbinXMLError::ToBinary => "to_binary error".to_string(),
            KbinXMLError::ToXml => "to_xml error".to_string(),
            KbinXMLError::ResultConversion => "result data conversion error".to_string(),
            KbinXMLError::Utf8Error => "from_utf8 error".to_string(),
        }
    }

    /// Whether the caller's input is at fault.
    pub fn is_input_error(&self) -> (r: bool)
        ensures
            r == self.blames_input(),
    {
        match self {
            KbinXMLError::InvalidXML => true,
            KbinXMLError::InvalidOption => true,
            KbinXMLError::InvalidEncodingType => true,
            _ => false,
        }
    }
}

/// The message tells which error it is: no two errors share a message.
pub proof fn lemma_messages_distinct(a: KbinXMLError, b: KbinXMLError)
    requires
        a.text() == b.text(),
    ensures
        a == b,
{
    reveal_strlit("invalid xml");
    reveal_strlit("invalid option");
    reveal_strlit("invalid encoding type");
    reveal_strlit("to_binary error");
    reveal_strlit("to_xml error");
    reveal_strlit("result data conversion error");
    reveal_strlit("from_utf8 error");
    assert("invalid xml"@.len() == 11);
    assert("invalid option"@.len() == 14);
    assert("invalid encoding type"@.len() == 21);
    assert("to_binary error"@.len() == 15);
    assert("to_xml error"@.len() == 12);
    assert("result data conversion error"@.len() == 28);
    assert("from_utf8 error"@.len() == 15);
    assert("to_binary error"@[0] == 't');
    assert("from_utf8 error"@[0] == 'f');
}

} // verus!
