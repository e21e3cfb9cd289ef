//! The decoded response envelope and its classifier.
//!
//! Every response body the backend returns is decoded (at the transport
//! boundary) into an [`Envelope`]; the composite operations branch only on
//! which of its optional fields are populated, never on HTTP status codes.

use vstd::prelude::*;

verus! {

/// One listed record, reduced to what the composite operations read: its id.
pub struct Item {
    pub id: String,
}

/// The decoded JSON response envelope.
///
/// Field presence is what carries meaning: `error` present signals a failed
/// call, `code` present (without `error`) signals a structured non-success
/// status such as "not found", and otherwise `total_items` / `items` may be
/// trusted.
pub struct Envelope {
    pub total_items: Option<u32>,
    pub code: Option<u16>,
    pub error: Option<u16>,
    pub items: Option<Vec<Item>>,
}

/// The classifier's verdict on an envelope: exactly one of the three holds.
#[derive(Clone, Copy, PartialEq, Eq, Structural)]
pub enum Verdict {
    Error,
    CodeOnly,
    Success,
}

/// Which of the three classifier states `e` is in, decided by field
/// presence alone: `error` wins over `code`, and `Success` is everything
/// else.
pub open spec fn verdict_of(e: Envelope) -> Verdict {
    if e.error is Some {
        Verdict::Error
    } else if e.code is Some {
        Verdict::CodeOnly
    } else {
        Verdict::Success
    }
}

/// Classifies a decoded envelope; the composite operations all branch on
/// this uniformly.
pub fn classify(e: &Envelope) -> (v: Verdict)
    ensures
        v == verdict_of(*e),
{
    if e.error.is_some() {
        Verdict::Error
    } else if e.code.is_some() {
        Verdict::CodeOnly
    } else {
        Verdict::Success
    }
}

/// The canonical envelope reported for a failed call, as JSON text.
pub open spec fn error_envelope_spec() -> Seq<char> {
    "{\"error\":400}"@
}

/// The canonical envelope reported for a "not found / no content"
/// condition, as JSON text.
pub open spec fn code_envelope_spec() -> Seq<char> {
    "{\"code\":400}"@
}

/// The canonical `{"error":400}` envelope. A fixed literal: callers cannot
/// recover the original failure from it.
pub fn error_envelope() -> (s: String)
    ensures
        s@ == error_envelope_spec(),
{
    "{\"error\":400}".to_owned()
}

/// The canonical `{"code":400}` envelope. A fixed literal, like
/// [`error_envelope`].
pub fn code_envelope() -> (s: String)
    ensures
        s@ == code_envelope_spec(),
{
    "{\"code\":400}".to_owned()
}

} // verus!
