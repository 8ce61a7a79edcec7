use kbinxml_wasm::encoding::{CompressionType, EncodingType};
use kbinxml_wasm::error::KbinXMLError;

const TAGS: [(u8, EncodingType); 6] = [
    (0x00, EncodingType::Null),
    (0x20, EncodingType::ASCII),
    (0x40, EncodingType::ISO_8859_1),
    (0x60, EncodingType::EUC_JP),
    (0x80, EncodingType::SHIFT_JIS),
    (0xA0, EncodingType::UTF_8),
];

#[test]
fn from_byte_reads_each_tag() {
    for (byte, encoding) in TAGS {
        assert_eq!(EncodingType::from_byte(byte), Ok(encoding));
    }
}

#[test]
fn to_byte_writes_each_tag() {
    for (byte, encoding) in TAGS {
        assert_eq!(encoding.to_byte(), byte);
    }
}

#[test]
fn tag_round_trip_is_identity() {
    for (byte, encoding) in TAGS {
        assert_eq!(EncodingType::from_byte(byte).unwrap().to_byte(), byte);
        assert_eq!(EncodingType::from_byte(encoding.to_byte()), Ok(encoding));
    }
}

#[test]
fn from_byte_rejects_every_other_byte() {
    let mut rejected = 0;
    for byte in 0u8..=255 {
        if TAGS.iter().any(|(tag, _)| *tag == byte) {
            continue;
        }
        assert_eq!(
            EncodingType::from_byte(byte),
            Err(KbinXMLError::InvalidEncodingType)
        );
        rejected += 1;
    }
    assert_eq!(rejected, 250);
}

#[test]
fn from_byte_rejects_neighbours_of_tags() {
    for byte in [0x01u8, 0x1F, 0x21, 0x3F, 0x41, 0x9F, 0xA1, 0xC0, 0xE0, 0xFF] {
        assert_eq!(
            EncodingType::from_byte(byte),
            Err(KbinXMLError::InvalidEncodingType)
        );
    }
}

#[test]
fn tags_are_distinct() {
    for (i, (a, _)) in TAGS.iter().enumerate() {
        for (j, (b, _)) in TAGS.iter().enumerate() {
            assert_eq!(a == b, i == j);
        }
    }
}

#[test]
fn compression_from_flag() {
    assert_eq!(CompressionType::from_flag(true), CompressionType::Compressed);
    assert_eq!(CompressionType::from_flag(false), CompressionType::Uncompressed);
    assert!(CompressionType::Compressed.is_compressed());
    assert!(!CompressionType::Uncompressed.is_compressed());
}
