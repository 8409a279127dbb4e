//! The error kinds every visit operation can report.

use vstd::prelude::*;

verus! {

/// Declares xml-rs's writer error type, so that results can carry it unchanged.
#[verifier::external_type_specification]
#[verifier::external_body]
pub struct ExEmitterError(xml::writer::Error);

/// Declares serde_json's error type, so that serialization failures can be
/// returned unchanged.
#[verifier::external_type_specification]
#[verifier::external_body]
pub struct ExJsonError(serde_json::Error);

/// Declares std's I/O error type for failures of the output sink itself.
#[verifier::external_type_specification]
#[verifier::external_body]
pub struct ExIoError(std::io::Error);

/// Why a visit operation or finalization failed. No error is retried or
/// downgraded: a failing call leaves the adapter unusable for the caller.
#[derive(Debug)]
pub enum OutputError {
    /// A protocol-ordering violation: an event arrived after end-of-stream,
    /// or finalization was requested while elements are still open.
    InvalidState,
    /// Finalization was requested before end-of-stream was observed.
    IncompleteOutput,
    /// An internal structural impossibility: a scalar leaf where a container
    /// was required, or a `Data` element without its `Name` attribute.
    InvariantViolation,
    /// A syntactically valid but unimplemented event kind (CDATA, entity
    /// reference, processing instruction).
    Unsupported,
    /// A failure reported by the underlying XML writer, propagated unchanged.
    XmlWriter(xml::writer::Error),
    /// A failure reported by JSON serialization, propagated unchanged.
    Serialization(serde_json::Error),
    /// A failure of the output sink, propagated unchanged.
    Io(std::io::Error),
}

} // verus!
