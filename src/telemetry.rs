use vstd::prelude::*;
use vstd::string::StrSliceExecFns;
use vstd::string::StringSliceAdditionalSpecFns;

use crate::config::Config;
use crate::endpoint::{Datagram, Endpoint};
use crate::json::{json_quoted, quote_text};

verus! {

pub const DOCUMENT_HEAD: &'static str = "{\"message\":\"test\",\"meta\":{\"flow_name\":";

pub const DOCUMENT_MIDDLE: &'static str = ",\"execution_area\":";

pub const DOCUMENT_TAIL: &'static str = "}}";

/// The telemetry document, given the flow name and the area already written
/// as JSON string literals:
/// `{"message":"test","meta":{"flow_name":<flow>,"execution_area":<area>}}`.
pub open spec fn telemetry_document(quoted_flow: Seq<u8>, quoted_area: Seq<u8>) -> Seq<u8> {
    DOCUMENT_HEAD.spec_bytes() + quoted_flow + DOCUMENT_MIDDLE.spec_bytes() + quoted_area
        + DOCUMENT_TAIL.spec_bytes()
}

/// Builds the telemetry document from the quoted flow name and area.
pub fn telemetry_payload(quoted_flow: &Vec<u8>, quoted_area: &Vec<u8>) -> (r: Vec<u8>)
    ensures
        r@ == telemetry_document(quoted_flow@, quoted_area@),
{
    let mut out = DOCUMENT_HEAD.as_bytes_vec();
    out.extend_from_slice(quoted_flow.as_slice());
    let mut middle = DOCUMENT_MIDDLE.as_bytes_vec();
    out.append(&mut middle);
    out.extend_from_slice(quoted_area.as_slice());
    let mut tail = DOCUMENT_TAIL.as_bytes_vec();
    out.append(&mut tail);
    out
}

/// The telemetry step of one tick: on a press, the document for the flow name
/// and area of `config` as they are now, sent to `target`; nothing without a
/// press.
pub fn telemetry_datagram(pressed: bool, config: &Config, target: Endpoint) -> (r: Option<Datagram>)
    ensures
        !pressed ==> r is None,
        pressed ==> r is Some,
        r matches Some(d) ==> d.dest == target && d.payload@ == telemetry_document(
            json_quoted(config.flow_name@),
            json_quoted(config.area@),
        ),
{
    if !pressed {
        return None;
    }
    let flow = match quote_text(&config.flow_name) {
        Some(q) => q,
        None => return None,
    };
    let area = match quote_text(&config.area) {
        Some(q) => q,
        None => return None,
    };
    let payload = telemetry_payload(&flow, &area);
    Some(Datagram { dest: target, payload })
}

} // verus!
