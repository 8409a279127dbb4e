//! Streaming event-to-document output adapters.
//!
//! An upstream decoder drives an adapter through an ordered sequence of
//! structural events (start of stream, open element, character data, close
//! element, end of stream). The adapter materializes those events either as
//! an XML text stream ([`xml_output::XMLOutput`]) or as a nested JSON tree
//! ([`serde_output::SerdeOutput`]), both behind the common visitor protocol
//! [`xml_output::BinXMLOutput`].

pub mod edits;
pub mod errors;
pub mod model;
pub mod node;
pub mod props;
pub mod serde_output;
pub mod xml_output;
