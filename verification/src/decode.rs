//! The conversion from binary to text, as a state machine.
//!
//! The caller owns the codec and the host. It performs the work that the
//! current state names, reports the outcome as an event, and gets the next
//! state. The machine decides what comes next, what the result is, and which
//! error a failure is reported as.

use crate::encoding::EncodingType;
use crate::error::KbinXMLError;
use crate::text::{normalize, normalized};
use crate::types::{XmlResult, XmlResultView};
use vstd::prelude::*;
use vstd::utf8::*;

verus! {

/// The error of `String::from_utf8`. Nothing is read from it.
#[verifier::external_type_specification]
#[verifier::external_body]
pub struct ExFromUtf8Error(std::string::FromUtf8Error);

/// `String::from_utf8` of std succeeds exactly on bytes that are valid UTF-8,
/// and the string it then returns holds the characters that the bytes encode.
pub assume_specification[ String::from_utf8 ](vec: Vec<u8>) -> (r: Result<
    String,
    std::string::FromUtf8Error,
>)
    ensures
        r is Ok <==> valid_utf8(vec@),
        r is Ok ==> r->Ok_0@ == decode_utf8(vec@),
;

/// The bytes that the codec's text serializer handed back, if it succeeded.
pub open spec fn bytes_of(serialized: Option<Vec<u8>>) -> Option<Seq<u8>> {
    match serialized {
        Some(bytes) => Some(bytes@),
        None => None,
    }
}

/// The text that the codec's text serializer produced, or the error that
/// stands for its failure. `None` is a serializer that failed.
pub open spec fn text_of(serialized: Option<Seq<u8>>) -> Result<Seq<char>, KbinXMLError> {
    match serialized {
        None => Err(KbinXMLError::ToXml),
        Some(bytes) => if valid_utf8(bytes) {
            Ok(decode_utf8(bytes))
        } else {
            Err(KbinXMLError::Utf8Error)
        },
    }
}

/// Turns the outcome of the codec's text serializer into text.
///
/// A failed serializer (`None`) gives `ToXml`. Bytes that are not valid UTF-8
/// give `Utf8Error`. Valid bytes give the string that they encode.
pub fn to_text_xml(serialized: Option<Vec<u8>>) -> (r: Result<String, KbinXMLError>)
    ensures
        r is Ok <==> serialized is Some && valid_utf8(serialized->Some_0@),
        r is Ok ==> r->Ok_0@ == decode_utf8(serialized->Some_0@),
        r is Err ==> r->Err_0 == (if serialized is None {
            KbinXMLError::ToXml
        } else {
            KbinXMLError::Utf8Error
        }),
        r is Ok ==> text_of(bytes_of(serialized)) == Ok::<Seq<char>, KbinXMLError>(r->Ok_0@),
        r is Err ==> text_of(bytes_of(serialized)) == Err::<Seq<char>, KbinXMLError>(r->Err_0),
{
    match serialized {
        None => Err(KbinXMLError::ToXml),
        Some(bytes) => match String::from_utf8(bytes) {
            Ok(text) => Ok(text),
            Err(_) => Err(KbinXMLError::Utf8Error),
        },
    }
}

/// Where a conversion to text stands. Each state names the work that the
/// caller performs next.
#[derive(Debug, Clone, PartialEq, Eq)]
pub enum DecodeState {
    /// The binary input is to be parsed by the codec.
    Parsing { pretty: Option<bool> },
    /// The parsed tree is to be serialized to text by the codec.
    Serializing { pretty: Option<bool>, encoding: EncodingType },
    /// The result is to be handed over to the host.
    Delivering { result: XmlResult },
    /// The result was handed over. Nothing is left to do.
    Done,
    /// The conversion failed. Nothing is left to do but to report the error.
    Failed { error: KbinXMLError },
}

/// The outcome of the work that a state named.
#[derive(Debug, Clone, PartialEq, Eq)]
pub enum DecodeEvent {
    /// The codec parsed the input, which declares this encoding.
    Parsed { declared: EncodingType },
    /// The codec could not parse the input.
    ParseFailed,
    /// The codec serialized the tree to these bytes.
    Serialized { text: Vec<u8> },
    /// The codec could not serialize the tree.
    SerializeFailed,
    /// The host took the result.
    Delivered,
    /// The result could not be handed over.
    DeliveryFailed,
}

/// What a `DecodeState` holds.
pub enum DecodeStateView {
    Parsing { pretty: Option<bool> },
    Serializing { pretty: Option<bool>, encoding: EncodingType },
    Delivering { result: XmlResultView },
    Done,
    Failed { error: KbinXMLError },
}

/// What a `DecodeEvent` holds.
pub enum DecodeEventView {
    Parsed { declared: EncodingType },
    ParseFailed,
    Serialized { text: Seq<u8> },
    SerializeFailed,
    Delivered,
    DeliveryFailed,
}

impl View for DecodeState {
    type V = DecodeStateView;

    open spec fn view(&self) -> DecodeStateView {
        match *self {
            DecodeState::Parsing { pretty } => DecodeStateView::Parsing { pretty },
            DecodeState::Serializing { pretty, encoding } => DecodeStateView::Serializing {
                pretty,
                encoding,
            },
            DecodeState::Delivering { result } => DecodeStateView::Delivering { result: result@ },
            DecodeState::Done => DecodeStateView::Done,
            DecodeState::Failed { error } => DecodeStateView::Failed { error },
        }
    }
}

impl View for DecodeEvent {
    type V = DecodeEventView;

    open spec fn view(&self) -> DecodeEventView {
        match *self {
            DecodeEvent::Parsed { declared } => DecodeEventView::Parsed { declared },
            DecodeEvent::ParseFailed => DecodeEventView::ParseFailed,
            DecodeEvent::Serialized { text } => DecodeEventView::Serialized { text: text@ },
            DecodeEvent::SerializeFailed => DecodeEventView::SerializeFailed,
            DecodeEvent::Delivered => DecodeEventView::Delivered,
            DecodeEvent::DeliveryFailed => DecodeEventView::DeliveryFailed,
        }
    }
}

/// The result of a conversion whose source declares `encoding` and whose
/// text is `text`: the text in the form asked for, under the tag of the
/// declared encoding.
pub open spec fn xml_result(text: Seq<char>, pretty: Option<bool>, encoding: EncodingType)
    -> XmlResultView {
    XmlResultView { data: normalized(text, pretty), encoding: encoding.tag() }
}

/// The state after the text serializer reported its outcome.
pub open spec fn after_serializer(
    serialized: Option<Seq<u8>>,
    pretty: Option<bool>,
    encoding: EncodingType,
) -> DecodeStateView {
    match text_of(serialized) {
        Ok(text) => DecodeStateView::Delivering { result: xml_result(text, pretty, encoding) },
        Err(error) => DecodeStateView::Failed { error },
    }
}

/// The state that follows `state` on `event`. An event that reports work
/// which the state did not name changes nothing; so does every event once the
/// conversion is done or has failed.
pub open spec fn decode_step(state: DecodeStateView, event: DecodeEventView) -> DecodeStateView {
    match (state, event) {
        (
            DecodeStateView::Parsing { pretty },
            DecodeEventView::Parsed { declared },
        ) => DecodeStateView::Serializing { pretty, encoding: declared },
        (DecodeStateView::Parsing { .. }, DecodeEventView::ParseFailed) => DecodeStateView::Failed {
            error: KbinXMLError::InvalidXML,
        },
        (
            DecodeStateView::Serializing { pretty, encoding },
            DecodeEventView::Serialized { text },
        ) => after_serializer(Some(text), pretty, encoding),
        (
            DecodeStateView::Serializing { pretty, encoding },
            DecodeEventView::SerializeFailed,
        ) => after_serializer(None, pretty, encoding),
        (DecodeStateView::Delivering { .. }, DecodeEventView::Delivered) => DecodeStateView::Done,
        (
            DecodeStateView::Delivering { .. },
            DecodeEventView::DeliveryFailed,
        ) => DecodeStateView::Failed { error: KbinXMLError::ResultConversion },
        _ => state,
    }
}

/// How far a conversion has come: a state of a higher stage is never
/// followed by one of a lower.
pub open spec fn decode_stage(state: DecodeStateView) -> nat {
    match state {
        DecodeStateView::Parsing { .. } => 0,
        DecodeStateView::Serializing { .. } => 1,
        DecodeStateView::Delivering { .. } => 2,
        DecodeStateView::Done => 3,
        DecodeStateView::Failed { .. } => 3,
    }
}

/// The state after a run of events, taken in order.
pub open spec fn decode_run(state: DecodeStateView, events: Seq<DecodeEventView>)
    -> DecodeStateView
    decreases events.len(),
{
    if events.len() == 0 {
        state
    } else {
        decode_run(decode_step(state, events[0]), events.drop_first())
    }
}

impl DecodeState {
    /// The state in which a conversion to text begins. `pretty` is the form
    /// that the caller asks for: `Some(true)` for the codec's own formatting,
    /// anything else for the compact form.
    pub fn start(pretty: Option<bool>) -> (state: DecodeState)
        ensures
            state@ == (DecodeStateView::Parsing { pretty }),
    {
        DecodeState::Parsing { pretty }
    }

    /// Takes the outcome of the work that this state named and gives the
    /// next state.
    pub fn step(self, event: DecodeEvent) -> (next: DecodeState)
        ensures
            next@ == decode_step(self@, event@),
    {
        match (self, event) {
            (
                DecodeState::Parsing { pretty },
                DecodeEvent::Parsed { declared },
            ) => DecodeState::Serializing { pretty, encoding: declared },
            (DecodeState::Parsing { .. }, DecodeEvent::ParseFailed) => DecodeState::Failed {
                error: KbinXMLError::InvalidXML,
            },
            (
                DecodeState::Serializing { pretty, encoding },
                DecodeEvent::Serialized { text },
            ) => Self::finish(Some(text), pretty, encoding),
            (
                DecodeState::Serializing { pretty, encoding },
                DecodeEvent::SerializeFailed,
            ) => Self::finish(None, pretty, encoding),
            (DecodeState::Delivering { .. }, DecodeEvent::Delivered) => DecodeState::Done,
            (DecodeState::Delivering { .. }, DecodeEvent::DeliveryFailed) => DecodeState::Failed {
                error: KbinXMLError::ResultConversion,
            },
            (state, _) => state,
        }
    }

    /// The state after the text serializer reported its outcome: the result
    /// is ready to be handed over, or the conversion has failed.
    fn finish(serialized: Option<Vec<u8>>, pretty: Option<bool>, encoding: EncodingType) -> (next:
        DecodeState)
        ensures
            next@ == after_serializer(bytes_of(serialized), pretty, encoding),
    {
        match to_text_xml(serialized) {
            Ok(text) => DecodeState::Delivering {
                result: XmlResult { data: normalize(text, pretty), encoding: encoding.to_byte() },
            },
            Err(error) => DecodeState::Failed { error },
        }
    }

    /// Whether nothing is left to do.
    pub fn is_finished(&self) -> (r: bool)
        ensures
            r == (self@ is Done || self@ is Failed),
    {
        match self {
            DecodeState::Done => true,
            DecodeState::Failed { .. } => true,
            _ => false,
        }
    }
}

/// The first failure ends the conversion, and so does success: once a
/// conversion is done or has failed, no event changes its state.
pub proof fn lemma_decode_settled(state: DecodeStateView, events: Seq<DecodeEventView>)
    requires
        state is Done || state is Failed,
    ensures
        decode_run(state, events) == state,
    decreases events.len(),
{
    if events.len() > 0 {
        lemma_decode_settled(state, events.drop_first());
    }
}

/// Binary input that the codec cannot parse fails the conversion with
/// `InvalidXML`, whatever is reported afterwards: no result is ever built.
pub proof fn lemma_decode_malformed_input(pretty: Option<bool>, later: Seq<DecodeEventView>)
    ensures
        decode_run(
            DecodeStateView::Parsing { pretty },
            seq![DecodeEventView::ParseFailed] + later,
        ) == (DecodeStateView::Failed { error: KbinXMLError::InvalidXML }),
{
    let events = seq![DecodeEventView::ParseFailed] + later;
    assert(events[0] == DecodeEventView::ParseFailed);
    assert(events.drop_first() =~= later);
    lemma_decode_settled(DecodeStateView::Failed { error: KbinXMLError::InvalidXML }, later);
}

/// A conversion whose input parses and whose text is valid UTF-8 builds the
/// text in the form asked for, under the tag of the encoding that the source
/// declares. No request can override that encoding.
pub proof fn lemma_decode_result(pretty: Option<bool>, declared: EncodingType, text: Seq<u8>)
    requires
        valid_utf8(text),
    ensures
        decode_step(
            decode_step(DecodeStateView::Parsing { pretty }, DecodeEventView::Parsed { declared }),
            DecodeEventView::Serialized { text },
        ) == (DecodeStateView::Delivering {
            result: XmlResultView {
                data: normalized(decode_utf8(text), pretty),
                encoding: declared.tag(),
            },
        }),
{
}

/// Each failure has its own error: a serializer that fails gives `ToXml`,
/// text that is not UTF-8 gives `Utf8Error`, and a result that cannot be
/// handed over gives `ResultConversion`.
pub proof fn lemma_decode_failures(
    pretty: Option<bool>,
    encoding: EncodingType,
    text: Seq<u8>,
    result: XmlResultView,
)
    ensures
        decode_step(
            DecodeStateView::Serializing { pretty, encoding },
            DecodeEventView::SerializeFailed,
        ) == (DecodeStateView::Failed { error: KbinXMLError::ToXml }),
        !valid_utf8(text) ==> decode_step(
            DecodeStateView::Serializing { pretty, encoding },
            DecodeEventView::Serialized { text },
        ) == (DecodeStateView::Failed { error: KbinXMLError::Utf8Error }),
        decode_step(DecodeStateView::Delivering { result }, DecodeEventView::DeliveryFailed) == (
        DecodeStateView::Failed { error: KbinXMLError::ResultConversion }),
        decode_step(DecodeStateView::Delivering { result }, DecodeEventView::Delivered)
            == DecodeStateView::Done,
{
}

/// A conversion runs in one pass: an event either changes nothing or
/// moves the conversion to a later stage. No stage is ever entered twice.
pub proof fn lemma_decode_single_pass(state: DecodeStateView, event: DecodeEventView)
    ensures
        decode_step(state, event) == state || decode_stage(decode_step(state, event))
            > decode_stage(state),
{
}

} // verus!
