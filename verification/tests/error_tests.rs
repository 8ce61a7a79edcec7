use kbinxml_wasm::error::KbinXMLError;

const ALL: [KbinXMLError; 7] = [
    KbinXMLError::InvalidXML,
    KbinXMLError::InvalidOption,
    KbinXMLError::InvalidEncodingType,
    KbinXMLError::ToXml,
    KbinXMLError::ToBinary,
    KbinXMLError::ResultConversion,
    KbinXMLError::Utf8Error,
];

#[test]
fn each_error_has_its_message() {
    assert_eq!(KbinXMLError::InvalidXML.message(), "invalid xml");
    assert_eq!(KbinXMLError::InvalidOption.message(), "invalid option");
    assert_eq!(
        KbinXMLError::InvalidEncodingType.message(),
        "invalid encoding type"
    );
    assert_eq!(KbinXMLError::ToBinary.message(), "to_binary error");
    assert_eq!(KbinXMLError::ToXml.message(), "to_xml error");
    assert_eq!(
        KbinXMLError::ResultConversion.message(),
        "result data conversion error"
    );
    assert_eq!(KbinXMLError::Utf8Error.message(), "from_utf8 error");
}

#[test]
fn messages_tell_the_errors_apart() {
    for (i, a) in ALL.iter().enumerate() {
        for (j, b) in ALL.iter().enumerate() {
            assert_eq!(a.message() == b.message(), i == j);
            assert_eq!(a == b, i == j);
        }
    }
}

#[test]
fn input_errors_are_told_from_internal_ones() {
    assert!(KbinXMLError::InvalidXML.is_input_error());
    assert!(KbinXMLError::InvalidOption.is_input_error());
    assert!(KbinXMLError::InvalidEncodingType.is_input_error());
    assert!(!KbinXMLError::ToXml.is_input_error());
    assert!(!KbinXMLError::ToBinary.is_input_error());
    assert!(!KbinXMLError::ResultConversion.is_input_error());
    assert!(!KbinXMLError::Utf8Error.is_input_error());
}
