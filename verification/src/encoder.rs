//! The exposition encoder: collected families to the text format that a
//! Prometheus server scrapes.
//!
//! The text is written by the `prometheus` crate's `TextEncoder`, into a
//! buffer of its own, so a failure leaves nothing half written.

use crate::registry::family_view;
use prometheus::proto::MetricFamily;
use vstd::prelude::*;
use vstd::utf8::{decode_utf8, valid_utf8};

verus! {

/// `prometheus::Error`: why the encoder refused. Only its message is used.
#[verifier::external_type_specification]
#[verifier::external_body]
pub struct ExPrometheusError(prometheus::Error);

/// Why families could not be turned into text.
#[derive(Debug, Clone)]
pub enum EncodingError {
    /// The encoder refused a family; `reason` is its message.
    Serialization { reason: String },
    /// The bytes to be sent are not UTF-8. The encoder writes text only, so
    /// `encode` never fails this way; the variant is what the step from bytes
    /// to text answers for other bytes.
    Transcoding,
}

/// The bytes that `TextEncoder` writes for the families: for each family a
/// help line, a type line, and one line per sample with its labels and value.
pub uninterp spec fn exposition_text(families: Seq<MetricFamily>) -> Seq<u8>;

/// The encoder accepts families that each have a name and at least one sample.
pub open spec fn encodable(families: Seq<MetricFamily>) -> bool {
    forall|i: int|
        0 <= i < families.len() ==> family_view(#[trigger] families[i]).name.len() > 0
            && family_view(families[i]).samples.len() > 0
}

/// Every family is typed as a gauge.
pub open spec fn all_gauges(families: Seq<MetricFamily>) -> bool {
    forall|i: int| 0 <= i < families.len() ==> family_view(#[trigger] families[i]).is_gauge
}

/// `Encoder::encode` of `TextEncoder`, into a fresh buffer. It fails on the
/// first family without a name or without samples and on nothing else; it
/// cannot write a family of the untyped kind, which gauges are not. Every
/// piece it writes is the bytes of a `str`, so what it writes is UTF-8.
#[verifier::external_body]
fn encode_text(families: &Vec<MetricFamily>) -> (r: Result<Vec<u8>, prometheus::Error>)
    requires
        all_gauges(families@),
    ensures
        r is Ok <==> encodable(families@),
        r matches Ok(bytes) ==> bytes@ == exposition_text(families@),
        r matches Ok(bytes) ==> valid_utf8(bytes@),
{
    let mut buffer: Vec<u8> = Vec::new();
    prometheus::Encoder::encode(&prometheus::TextEncoder::new(), families, &mut buffer)?;
    Ok(buffer)
}

/// The message of an encoder error, from its `Display`.
#[verifier::external_body]
fn error_text(error: &prometheus::Error) -> (text: String) {
    error.to_string()
}

/// `String::from_utf8`: the text that the bytes encode, if they are UTF-8.
#[verifier::external_body]
fn text_from_utf8(bytes: Vec<u8>) -> (r: Option<String>)
    ensures
        r is Some <==> valid_utf8(bytes@),
        r matches Some(text) ==> text@ == decode_utf8(bytes@),
{
    String::from_utf8(bytes).ok()
}

/// What `encode` returns for the families, given what the encoder writes.
pub open spec fn encoding(families: Seq<MetricFamily>, r: Result<String, EncodingError>) -> bool {
    if encodable(families) {
        r matches Ok(text) && text@ == decode_utf8(exposition_text(families))
    } else {
        r matches Err(EncodingError::Serialization { .. })
    }
}

/// Encodes gauge families in the text exposition format.
///
/// Fails, with `Serialization`, exactly if a family lacks a name or samples.
/// Otherwise the result is the encoder's output as text.
pub fn encode(families: &Vec<MetricFamily>) -> (r: Result<String, EncodingError>)
    requires
        all_gauges(families@),
    ensures
        encoding(families@, r),
{
    match encode_text(families) {
        Ok(bytes) => match text_from_utf8(bytes) {
            Some(text) => Ok(text),
            None => Err(EncodingError::Transcoding),
        },
        Err(e) => Err(EncodingError::Serialization { reason: error_text(&e) }),
    }
}

} // verus!
