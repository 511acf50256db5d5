//! What the two HTTP endpoints answer, as plain values for the server to send.

use crate::encoder::{encode, exposition_text, EncodingError};
use crate::exporter::{exported, lemma_exported_is_encodable, Exporter};
use crate::metrics::{collect_metrics, is_enumeration, CollectionError, Metrics};
use prometheus::proto::MetricFamily;
use vstd::prelude::*;
use vstd::utf8::decode_utf8;

verus! {

/// An HTTP answer: the status code, the `Content-Type` header if the answer
/// sets one, and the body.
#[derive(Debug, Clone)]
pub struct Response {
    pub status: u16,
    pub content_type: Option<String>,
    pub body: String,
}

/// The content type of the text exposition format.
pub open spec fn text_format() -> Seq<char> {
    "text/plain; version=0.0.4"@
}

/// The content type of the landing page.
pub open spec fn html_format() -> Seq<char> {
    "text/html; charset=utf-8"@
}

/// The landing page: a heading and a link to `path`.
pub open spec fn landing_page(path: Seq<char>) -> Seq<char> {
    "<html><head><title>NVIDIA GPU Exporter</title></head><body><h1>NVIDIA GPU Exporter</h1><p><a href='"@
        + path + "'>Metrics</a></p></body></html>"@
}

/// The body of the answer to a failed encoding.
pub open spec fn failure_message(error: EncodingError) -> Seq<char> {
    match error {
        EncodingError::Serialization { reason } => "Failed to encode metrics: "@ + reason@,
        EncodingError::Transcoding => "Failed to encode metrics as UTF-8"@,
    }
}

/// The answer to a scrape is the one for `encoded`: 200 with the text and the
/// exposition content type, or 500 with the failure message.
pub open spec fn answers(r: Response, encoded: Result<String, EncodingError>) -> bool {
    match encoded {
        Ok(text) => {
            &&& r.status == 200
            &&& r.content_type matches Some(t) && t@ == text_format()
            &&& r.body@ == text@
        },
        Err(error) => {
            &&& r.status == 500
            &&& r.content_type is None
            &&& r.body@ == failure_message(error)
        },
    }
}

/// The answer to a scrape, from the outcome of the encoding.
pub fn metrics_response(encoded: Result<String, EncodingError>) -> (r: Response)
    ensures
        answers(r, encoded),
{
    match encoded {
        Ok(text) => Response {
            status: 200,
            content_type: Some(String::from_str("text/plain; version=0.0.4")),
            body: text,
        },
        Err(EncodingError::Serialization { reason }) => {
            let body = String::from_str("Failed to encode metrics: ").concat(reason.as_str());
            Response { status: 500, content_type: None, body }
        },
        Err(EncodingError::Transcoding) => Response {
            status: 500,
            content_type: None,
            body: String::from_str("Failed to encode metrics as UTF-8"),
        },
    }
}

/// The answer to a request for the root: the landing page, linking to the
/// path under which the metrics are served.
pub fn index_response(telemetry_path: &str) -> (r: Response)
    ensures
        r.status == 200,
        r.content_type matches Some(t) && t@ == html_format(),
        r.body@ == landing_page(telemetry_path@),
{
    let body = String::from_str(
        "<html><head><title>NVIDIA GPU Exporter</title></head><body><h1>NVIDIA GPU Exporter</h1><p><a href='",
    ).concat(telemetry_path).concat("'>Metrics</a></p></body></html>");
    Response {
        status: 200,
        content_type: Some(String::from_str("text/html; charset=utf-8")),
        body,
    }
}

/// The answer to a scrape is the text of the families, sent with status 200
/// and the exposition content type.
pub open spec fn serves(r: Response, families: Seq<MetricFamily>) -> bool {
    &&& r.status == 200
    &&& r.content_type matches Some(t) && t@ == text_format()
    &&& r.body@ == decode_utf8(exposition_text(families))
}

/// Answers one scrape whose collection ended with `outcome`: refills the
/// registry and encodes what it then shows. The encoder never refuses what
/// the registry exports, so the answer is always the text, with status 200,
/// whether the hardware could be read or not.
pub fn serve_outcome(exporter: &mut Exporter, outcome: &Result<Metrics, CollectionError>) -> (r:
    Response)
    requires
        old(exporter).well_formed(),
    ensures
        final(exporter).well_formed(),
        final(exporter).reflects(*outcome),
        r.status == 200,
        exists|families: Seq<MetricFamily>| #[trigger]
            exported(families, *outcome) && serves(r, families),
{
    let families = exporter.export(outcome);
    proof {
        lemma_exported_is_encodable(families@, *outcome);
    }
    metrics_response(encode(&families))
}

/// Answers one scrape of the GPUs of this machine. A failure of the hardware
/// is answered like any scrape, with `up` at 0.
pub fn serve_metrics(exporter: &mut Exporter) -> (r: Response)
    requires
        old(exporter).well_formed(),
    ensures
        final(exporter).well_formed(),
        r.status == 200,
        exists|families: Seq<MetricFamily>, outcome: Result<Metrics, CollectionError>|
            {
                &&& outcome matches Ok(m) ==> is_enumeration(m)
                &&& final(exporter).reflects(outcome)
                &&& #[trigger] exported(families, outcome)
                &&& serves(r, families)
            },
{
    let outcome = collect_metrics();
    let r = serve_outcome(exporter, &outcome);
    proof {
        let families = choose|families: Seq<MetricFamily>| #[trigger]
            exported(families, outcome) && serves(r, families);
        assert(exported(families, outcome) && serves(r, families));
    }
    r
}

} // verus!
