//! The conversion from text to binary, as a state machine.
//!
//! The caller owns the codec and the host. It performs the work that the
//! current state names, reports the outcome as an event, and gets the next
//! state. The machine validates the request, settles the encoding once the
//! source is parsed, and decides which error a failure is reported as.

use crate::encoding::{CompressionType, EncodingType};
use crate::error::KbinXMLError;
use crate::options::{
    build_to_binary_options,
    output_encoding,
    requested_compression,
    validated,
    CodecOptions,
    ConversionOptions,
};
use crate::types::{BinaryOptions, BinaryResult, BinaryResultView};
use vstd::prelude::*;

verus! {

/// Where a conversion to binary stands. Each state names the work that the
/// caller performs next.
#[derive(Debug, Clone, PartialEq, Eq)]
pub enum EncodeState {
    /// The raw request is to be read from the host.
    Reading,
    /// The text input is to be parsed by the codec.
    Parsing { options: ConversionOptions },
    /// The parsed tree is to be serialized by the codec, with these options.
    Serializing { config: CodecOptions },
    /// The result is to be handed over to the host.
    Delivering { result: BinaryResult },
    /// The result was handed over. Nothing is left to do.
    Done,
    /// The conversion failed. Nothing is left to do but to report the error.
    Failed { error: KbinXMLError },
}

/// The outcome of the work that a state named.
#[derive(Debug, Clone, PartialEq, Eq)]
pub enum EncodeEvent {
    /// The host's options object holds this request. A caller that was given
    /// no options object reports the empty request.
    RequestRead { request: BinaryOptions },
    /// The host's options object has not the shape of a request.
    RequestUnreadable,
    /// The codec parsed the input, which declares this encoding, if any.
    Parsed { declared: Option<EncodingType> },
    /// The codec could not parse the input.
    ParseFailed,
    /// The codec serialized the tree to these bytes.
    Serialized { data: Vec<u8> },
    /// The codec could not serialize the tree.
    SerializeFailed,
    /// The host took the result.
    Delivered,
    /// The result could not be handed over.
    DeliveryFailed,
}

/// What an `EncodeState` holds.
pub enum EncodeStateView {
    Reading,
    Parsing { options: ConversionOptions },
    Serializing { config: CodecOptions },
    Delivering { result: BinaryResultView },
    Done,
    Failed { error: KbinXMLError },
}

/// What an `EncodeEvent` holds.
pub enum EncodeEventView {
    RequestRead { request: BinaryOptions },
    RequestUnreadable,
    Parsed { declared: Option<EncodingType> },
    ParseFailed,
    Serialized { data: Seq<u8> },
    SerializeFailed,
    Delivered,
    DeliveryFailed,
}

impl View for EncodeState {
    type V = EncodeStateView;

    open spec fn view(&self) -> EncodeStateView {
        match *self {
            EncodeState::Reading => EncodeStateView::Reading,
            EncodeState::Parsing { options } => EncodeStateView::Parsing { options },
            EncodeState::Serializing { config } => EncodeStateView::Serializing { config },
            EncodeState::Delivering { result } => EncodeStateView::Delivering { result: result@ },
            EncodeState::Done => EncodeStateView::Done,
            EncodeState::Failed { error } => EncodeStateView::Failed { error },
        }
    }
}

impl View for EncodeEvent {
    type V = EncodeEventView;

    open spec fn view(&self) -> EncodeEventView {
        match *self {
            EncodeEvent::RequestRead { request } => EncodeEventView::RequestRead { request },
            EncodeEvent::RequestUnreadable => EncodeEventView::RequestUnreadable,
            EncodeEvent::Parsed { declared } => EncodeEventView::Parsed { declared },
            EncodeEvent::ParseFailed => EncodeEventView::ParseFailed,
            EncodeEvent::Serialized { data } => EncodeEventView::Serialized { data: data@ },
            EncodeEvent::SerializeFailed => EncodeEventView::SerializeFailed,
            EncodeEvent::Delivered => EncodeEventView::Delivered,
            EncodeEvent::DeliveryFailed => EncodeEventView::DeliveryFailed,
        }
    }
}

/// The state after the request was read: the source is to be parsed where
/// the request is valid, and the conversion has failed where it is not.
pub open spec fn after_request(request: BinaryOptions) -> EncodeStateView {
    match validated(request) {
        Ok(options) => EncodeStateView::Parsing { options },
        Err(error) => EncodeStateView::Failed { error },
    }
}

/// What the serializer is called with, once the source is parsed.
pub open spec fn settled(options: ConversionOptions, declared: Option<EncodingType>)
    -> CodecOptions {
    CodecOptions {
        compression: options.compression,
        encoding: output_encoding(options.encoding, declared),
    }
}

/// The result of a conversion that serialized `data` with `options`: the
/// bytes, under the tag of the encoding that they were written in.
pub open spec fn binary_result(data: Seq<u8>, options: CodecOptions) -> BinaryResultView {
    BinaryResultView { data, encoding: options.encoding.tag() }
}

/// The state that follows `state` on `event`. An event that reports work
/// which the state did not name changes nothing; so does every event once the
/// conversion is done or has failed.
pub open spec fn encode_step(state: EncodeStateView, event: EncodeEventView) -> EncodeStateView {
    match (state, event) {
        (EncodeStateView::Reading, EncodeEventView::RequestRead { request }) => after_request(
            request,
        ),
        (EncodeStateView::Reading, EncodeEventView::RequestUnreadable) => EncodeStateView::Failed {
            error: KbinXMLError::InvalidOption,
        },
        (
            EncodeStateView::Parsing { options },
            EncodeEventView::Parsed { declared },
        ) => EncodeStateView::Serializing { config: settled(options, declared) },
        (EncodeStateView::Parsing { .. }, EncodeEventView::ParseFailed) => EncodeStateView::Failed {
            error: KbinXMLError::InvalidXML,
        },
        (
            EncodeStateView::Serializing { config },
            EncodeEventView::Serialized { data },
        ) => EncodeStateView::Delivering { result: binary_result(data, config) },
        (
            EncodeStateView::Serializing { .. },
            EncodeEventView::SerializeFailed,
        ) => EncodeStateView::Failed { error: KbinXMLError::ToBinary },
        (EncodeStateView::Delivering { .. }, EncodeEventView::Delivered) => EncodeStateView::Done,
        (
            EncodeStateView::Delivering { .. },
            EncodeEventView::DeliveryFailed,
        ) => EncodeStateView::Failed { error: KbinXMLError::ResultConversion },
        _ => state,
    }
}

/// How far a conversion has come: a state of a higher stage is never
/// followed by one of a lower.
pub open spec fn encode_stage(state: EncodeStateView) -> nat {
    match state {
        EncodeStateView::Reading => 0,
        EncodeStateView::Parsing { .. } => 1,
        EncodeStateView::Serializing { .. } => 2,
        EncodeStateView::Delivering { .. } => 3,
        EncodeStateView::Done => 4,
        EncodeStateView::Failed { .. } => 4,
    }
}

/// The state after a run of events, taken in order.
pub open spec fn encode_run(state: EncodeStateView, events: Seq<EncodeEventView>)
    -> EncodeStateView
    decreases events.len(),
{
    if events.len() == 0 {
        state
    } else {
        encode_run(encode_step(state, events[0]), events.drop_first())
    }
}

impl EncodeState {
    /// The state in which a conversion to binary begins.
    pub fn start() -> (state: EncodeState)
        ensures
            state@ == EncodeStateView::Reading,
    {
        EncodeState::Reading
    }

    /// Takes the outcome of the work that this state named and gives the
    /// next state.
    pub fn step(self, event: EncodeEvent) -> (next: EncodeState)
        ensures
            next@ == encode_step(self@, event@),
    {
        match (self, event) {
            (EncodeState::Reading, EncodeEvent::RequestRead { request }) => {
                match build_to_binary_options(request) {
                    Ok(options) => EncodeState::Parsing { options },
                    Err(error) => EncodeState::Failed { error },
                }
            },
            (EncodeState::Reading, EncodeEvent::RequestUnreadable) => EncodeState::Failed {
                error: KbinXMLError::InvalidOption,
            },
            (
                EncodeState::Parsing { options },
                EncodeEvent::Parsed { declared },
            ) => EncodeState::Serializing { config: options.resolve(declared) },
            (EncodeState::Parsing { .. }, EncodeEvent::ParseFailed) => EncodeState::Failed {
                error: KbinXMLError::InvalidXML,
            },
            (
                EncodeState::Serializing { config },
                EncodeEvent::Serialized { data },
            ) => EncodeState::Delivering {
                result: BinaryResult { data, encoding: config.encoding.to_byte() },
            },
            (EncodeState::Serializing { .. }, EncodeEvent::SerializeFailed) => EncodeState::Failed {
                error: KbinXMLError::ToBinary,
            },
            (EncodeState::Delivering { .. }, EncodeEvent::Delivered) => EncodeState::Done,
            (EncodeState::Delivering { .. }, EncodeEvent::DeliveryFailed) => EncodeState::Failed {
                error: KbinXMLError::ResultConversion,
            },
            (state, _) => state,
        }
    }

    /// Whether nothing is left to do.
    pub fn is_finished(&self) -> (r: bool)
        ensures
            r == (self@ is Done || self@ is Failed),
    {
        match self {
            EncodeState::Done => true,
            EncodeState::Failed { .. } => true,
            _ => false,
        }
    }
}

/// The first failure ends the conversion, and so does success: once a
/// conversion is done or has failed, no event changes its state.
pub proof fn lemma_encode_settled(state: EncodeStateView, events: Seq<EncodeEventView>)
    requires
        state is Done || state is Failed,
    ensures
        encode_run(state, events) == state,
    decreases events.len(),
{
    if events.len() > 0 {
        lemma_encode_settled(state, events.drop_first());
    }
}

/// A request that names an encoding byte which is no tag fails the
/// conversion with `InvalidEncodingType` before anything is parsed or
/// serialized, whatever is reported afterwards: no binary output is built.
pub proof fn lemma_encode_invalid_encoding(request: BinaryOptions, later: Seq<EncodeEventView>)
    requires
        request.encoding is Some,
        !EncodingType::is_tag(request.encoding->Some_0),
    ensures
        encode_run(
            EncodeStateView::Reading,
            seq![EncodeEventView::RequestRead { request }] + later,
        ) == (EncodeStateView::Failed { error: KbinXMLError::InvalidEncodingType }),
{
    let events = seq![EncodeEventView::RequestRead { request }] + later;
    assert(events[0] == EncodeEventView::RequestRead { request });
    assert(events.drop_first() =~= later);
    lemma_encode_settled(
        EncodeStateView::Failed { error: KbinXMLError::InvalidEncodingType },
        later,
    );
}

/// The serializer is called with what the request and the source settle:
/// the compression that the request names, or none; the encoding that the
/// request names, else the one that the source declares, else the null
/// encoding.
pub proof fn lemma_encode_options(request: BinaryOptions, declared: Option<EncodingType>)
    requires
        validated(request) is Ok,
    ensures
        encode_step(
            encode_step(EncodeStateView::Reading, EncodeEventView::RequestRead { request }),
            EncodeEventView::Parsed { declared },
        ) == (EncodeStateView::Serializing {
            config: CodecOptions {
                compression: requested_compression(request.compression),
                encoding: output_encoding(validated(request)->Ok_0.encoding, declared),
            },
        }),
        request.compression is None ==> settled(validated(request)->Ok_0, declared).compression
            == CompressionType::Uncompressed,
        request.compression == Some(true) ==> settled(
            validated(request)->Ok_0,
            declared,
        ).compression == CompressionType::Compressed,
        request.encoding is None && declared is Some ==> settled(
            validated(request)->Ok_0,
            declared,
        ).encoding == declared->Some_0,
        request.encoding is None && declared is None ==> settled(
            validated(request)->Ok_0,
            declared,
        ).encoding == EncodingType::Null,
        request.encoding is Some ==> settled(validated(request)->Ok_0, declared).encoding.tag()
            == request.encoding->Some_0,
{
}

/// The result names the encoding that the document was written in: the
/// tag in the result is the tag of the encoding that the serializer was
/// called with.
pub proof fn lemma_encode_result(
    request: BinaryOptions,
    declared: Option<EncodingType>,
    data: Seq<u8>,
)
    requires
        validated(request) is Ok,
    ensures
        encode_step(
            encode_step(
                encode_step(EncodeStateView::Reading, EncodeEventView::RequestRead { request }),
                EncodeEventView::Parsed { declared },
            ),
            EncodeEventView::Serialized { data },
        ) == (EncodeStateView::Delivering {
            result: BinaryResultView {
                data,
                encoding: output_encoding(validated(request)->Ok_0.encoding, declared).tag(),
            },
        }),
{
}

/// Each failure has its own error: an options object that cannot be read
/// gives `InvalidOption`, a source that does not parse gives `InvalidXML`, a
/// serializer that fails gives `ToBinary`, and a result that cannot be
/// handed over gives `ResultConversion`.
pub proof fn lemma_encode_failures(
    options: ConversionOptions,
    codec: CodecOptions,
    result: BinaryResultView,
)
    ensures
        encode_step(EncodeStateView::Reading, EncodeEventView::RequestUnreadable) == (
        EncodeStateView::Failed { error: KbinXMLError::InvalidOption }),
        encode_step(EncodeStateView::Parsing { options }, EncodeEventView::ParseFailed) == (
        EncodeStateView::Failed { error: KbinXMLError::InvalidXML }),
        encode_step(
            EncodeStateView::Serializing { config: codec },
            EncodeEventView::SerializeFailed,
        ) == (EncodeStateView::Failed { error: KbinXMLError::ToBinary }),
        encode_step(EncodeStateView::Delivering { result }, EncodeEventView::DeliveryFailed) == (
        EncodeStateView::Failed { error: KbinXMLError::ResultConversion }),
        encode_step(EncodeStateView::Delivering { result }, EncodeEventView::Delivered)
            == EncodeStateView::Done,
{
}

/// A conversion runs in one pass: an event either changes nothing or
/// moves the conversion to a later stage. No stage is ever entered twice.
pub proof fn lemma_encode_single_pass(state: EncodeStateView, event: EncodeEventView)
    ensures
        encode_step(state, event) == state || encode_stage(encode_step(state, event))
            > encode_stage(state),
{
}

} // verus!
