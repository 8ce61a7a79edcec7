use kbinxml_wasm::encode::{EncodeEvent, EncodeState};
use kbinxml_wasm::encoding::{CompressionType, EncodingType};
use kbinxml_wasm::error::KbinXMLError;
use kbinxml_wasm::options::{CodecOptions, ConversionOptions};
use kbinxml_wasm::types::{BinaryOptions, BinaryResult};

fn go(mut state: EncodeState, events: Vec<EncodeEvent>) -> EncodeState {
    for event in events {
        state = state.step(event);
    }
    state
}

fn read(compression: Option<bool>, encoding: Option<u8>) -> EncodeEvent {
    EncodeEvent::RequestRead {
        request: BinaryOptions {
            compression,
            encoding,
        },
    }
}

fn declares(encoding: EncodingType) -> EncodeEvent {
    EncodeEvent::Parsed {
        declared: Some(encoding),
    }
}

fn bytes(data: &[u8]) -> EncodeEvent {
    EncodeEvent::Serialized {
        data: data.to_vec(),
    }
}

fn stopped(error: KbinXMLError) -> EncodeState {
    EncodeState::Failed { error }
}

fn all_events() -> Vec<EncodeEvent> {
    vec![
        read(None, None),
        read(Some(true), Some(0xFF)),
        EncodeEvent::RequestUnreadable,
        declares(EncodingType::UTF_8),
        EncodeEvent::Parsed { declared: None },
        EncodeEvent::ParseFailed,
        bytes(&[1, 2, 3]),
        EncodeEvent::SerializeFailed,
        EncodeEvent::Delivered,
        EncodeEvent::DeliveryFailed,
    ]
}

#[test]
fn encode_starts_by_reading_the_request() {
    assert_eq!(EncodeState::start(), EncodeState::Reading);
    assert!(!EncodeState::start().is_finished());
}

#[test]
fn encode_runs_through_its_stages() {
    let state = EncodeState::start().step(read(Some(true), Some(0x80)));
    assert_eq!(
        state,
        EncodeState::Parsing {
            options: ConversionOptions {
                compression: CompressionType::Compressed,
                encoding: Some(EncodingType::SHIFT_JIS),
            },
        }
    );
    let state = state.step(declares(EncodingType::UTF_8));
    assert_eq!(
        state,
        EncodeState::Serializing {
            config: CodecOptions {
                compression: CompressionType::Compressed,
                encoding: EncodingType::SHIFT_JIS,
            },
        }
    );
    let state = state.step(bytes(&[0xA0, 0x42, 0x80, 0x7F]));
    assert_eq!(
        state,
        EncodeState::Delivering {
            result: BinaryResult {
                data: vec![0xA0, 0x42, 0x80, 0x7F],
                encoding: 0x80,
            },
        }
    );
    assert!(!state.is_finished());
    let state = state.step(EncodeEvent::Delivered);
    assert_eq!(state, EncodeState::Done);
    assert!(state.is_finished());
}

#[test]
fn omitted_encoding_uses_the_declared_one() {
    for (byte, encoding) in [
        (0x00u8, EncodingType::Null),
        (0x20, EncodingType::ASCII),
        (0x40, EncodingType::ISO_8859_1),
        (0x60, EncodingType::EUC_JP),
        (0x80, EncodingType::SHIFT_JIS),
        (0xA0, EncodingType::UTF_8),
    ] {
        let state = go(
            EncodeState::start(),
            vec![read(None, None), declares(encoding)],
        );
        assert_eq!(
            state,
            EncodeState::Serializing {
                config: CodecOptions {
                    compression: CompressionType::Uncompressed,
                    encoding,
                },
            }
        );
        let state = state.step(bytes(&[7]));
        assert_eq!(
            state,
            EncodeState::Delivering {
                result: BinaryResult {
                    data: vec![7],
                    encoding: byte,
                },
            }
        );
    }
}

#[test]
fn named_encoding_overrides_the_declared_one() {
    let state = go(
        EncodeState::start(),
        vec![
            read(None, Some(0x20)),
            declares(EncodingType::UTF_8),
            bytes(&[]),
        ],
    );
    assert_eq!(
        state,
        EncodeState::Delivering {
            result: BinaryResult {
                data: Vec::new(),
                encoding: 0x20,
            },
        }
    );
}

#[test]
fn undeclared_encoding_falls_back_to_null() {
    let state = go(
        EncodeState::start(),
        vec![read(None, None), EncodeEvent::Parsed { declared: None }],
    );
    assert_eq!(
        state,
        EncodeState::Serializing {
            config: CodecOptions {
                compression: CompressionType::Uncompressed,
                encoding: EncodingType::Null,
            },
        }
    );
}

#[test]
fn omitted_compression_is_uncompressed() {
    let state = go(
        EncodeState::start(),
        vec![read(None, Some(0xA0)), declares(EncodingType::UTF_8)],
    );
    match state {
        EncodeState::Serializing { config } => {
            assert_eq!(config.compression, CompressionType::Uncompressed)
        }
        other => panic!("not serializing: {:?}", other),
    }
}

#[test]
fn requested_compression_reaches_the_serializer() {
    for (flag, compression) in [
        (true, CompressionType::Compressed),
        (false, CompressionType::Uncompressed),
    ] {
        let state = go(
            EncodeState::start(),
            vec![read(Some(flag), None), declares(EncodingType::UTF_8)],
        );
        assert_eq!(
            state,
            EncodeState::Serializing {
                config: CodecOptions {
                    compression,
                    encoding: EncodingType::UTF_8,
                },
            }
        );
    }
}

#[test]
fn invalid_encoding_fails_before_parsing() {
    let state = EncodeState::start().step(read(None, Some(0xFF)));
    assert_eq!(state, stopped(KbinXMLError::InvalidEncodingType));
    assert!(state.is_finished());
}

#[test]
fn invalid_encoding_never_yields_binary() {
    let state = go(
        EncodeState::start(),
        vec![
            read(Some(true), Some(0xFF)),
            declares(EncodingType::UTF_8),
            bytes(&[1, 2, 3]),
            EncodeEvent::Delivered,
        ],
    );
    assert_eq!(state, stopped(KbinXMLError::InvalidEncodingType));
}

#[test]
fn unreadable_request_gives_invalid_option() {
    assert_eq!(
        EncodeState::start().step(EncodeEvent::RequestUnreadable),
        stopped(KbinXMLError::InvalidOption)
    );
}

#[test]
fn malformed_text_gives_invalid_xml() {
    let state = go(
        EncodeState::start(),
        vec![read(None, None), EncodeEvent::ParseFailed],
    );
    assert_eq!(state, stopped(KbinXMLError::InvalidXML));
}

#[test]
fn failed_binary_serializer_gives_to_binary() {
    let state = go(
        EncodeState::start(),
        vec![
            read(None, None),
            declares(EncodingType::ASCII),
            EncodeEvent::SerializeFailed,
        ],
    );
    assert_eq!(state, stopped(KbinXMLError::ToBinary));
}

#[test]
fn failed_delivery_of_binary_gives_result_conversion() {
    let state = go(
        EncodeState::start(),
        vec![
            read(None, None),
            declares(EncodingType::ASCII),
            bytes(&[9]),
            EncodeEvent::DeliveryFailed,
        ],
    );
    assert_eq!(state, stopped(KbinXMLError::ResultConversion));
}

#[test]
fn encode_ignores_events_out_of_turn() {
    let reading = EncodeState::start();
    for event in [
        declares(EncodingType::UTF_8),
        EncodeEvent::ParseFailed,
        bytes(&[1]),
        EncodeEvent::SerializeFailed,
        EncodeEvent::Delivered,
        EncodeEvent::DeliveryFailed,
    ] {
        assert_eq!(reading.clone().step(event), reading);
    }
    let parsing = reading.clone().step(read(None, None));
    for event in [
        read(Some(true), None),
        EncodeEvent::RequestUnreadable,
        bytes(&[1]),
        EncodeEvent::SerializeFailed,
        EncodeEvent::Delivered,
        EncodeEvent::DeliveryFailed,
    ] {
        assert_eq!(parsing.clone().step(event), parsing);
    }
    let serializing = parsing.clone().step(declares(EncodingType::UTF_8));
    for event in [
        read(Some(true), None),
        EncodeEvent::RequestUnreadable,
        declares(EncodingType::ASCII),
        EncodeEvent::ParseFailed,
        EncodeEvent::Delivered,
        EncodeEvent::DeliveryFailed,
    ] {
        assert_eq!(serializing.clone().step(event), serializing);
    }
    let delivering = serializing.clone().step(bytes(&[1]));
    for event in [
        read(Some(true), None),
        EncodeEvent::RequestUnreadable,
        declares(EncodingType::ASCII),
        EncodeEvent::ParseFailed,
        bytes(&[2]),
        EncodeEvent::SerializeFailed,
    ] {
        assert_eq!(delivering.clone().step(event), delivering);
    }
}

#[test]
fn finished_encode_stays_as_it_is() {
    for settled in [
        EncodeState::Done,
        stopped(KbinXMLError::InvalidOption),
        stopped(KbinXMLError::InvalidEncodingType),
        stopped(KbinXMLError::InvalidXML),
        stopped(KbinXMLError::ToBinary),
        stopped(KbinXMLError::ResultConversion),
    ] {
        for event in all_events() {
            assert_eq!(settled.clone().step(event), settled);
        }
        assert_eq!(go(settled.clone(), all_events()), settled);
    }
}

#[test]
fn encode_is_deterministic() {
    let events = vec![
        read(Some(true), None),
        declares(EncodingType::EUC_JP),
        bytes(&[1, 2, 3, 4]),
    ];
    assert_eq!(
        go(EncodeState::start(), events.clone()),
        go(EncodeState::start(), events)
    );
}
