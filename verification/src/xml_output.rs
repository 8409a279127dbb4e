//! The visitor protocol and the XML text adapter.
//!
//! The protocol is the contract both adapters implement: the start marker
//! comes first, the end marker last, opens and closes balance, and the
//! event kinds neither adapter supports are refused with `Unsupported`
//! rather than ignored. The XML adapter translates each event directly
//! into a streaming writer call and keeps no state beyond the
//! end-of-stream flag; nesting correctness is delegated to the writer.

use vstd::prelude::*;

use crate::errors::OutputError;
use crate::model::XmlElement;

verus! {

/// The visitor protocol: the ordered set of callback operations an output
/// adapter implements to consume a structural event stream. The contracts
/// here are the protocol-level guarantees common to every adapter; the
/// concrete adapters state more about their own state and output.
pub trait BinXMLOutput<W>: Sized {
    /// Whether end-of-stream has been observed.
    spec fn eof(&self) -> bool;

    /// Builds an adapter that owns `target` until finalization.
    fn with_writer(target: W) -> (r: Self)
        ensures
            !r.eof(),
    ;

    /// The only way to retrieve the completed output; refused before
    /// end-of-stream was observed.
    fn into_writer(self) -> (r: Result<W, OutputError>)
        ensures
            !self.eof() ==> (r matches Err(e) && e is IncompleteOutput),
    ;

    /// Marks the stream complete.
    fn visit_end_of_stream(&mut self) -> (r: Result<(), OutputError>)
        ensures
            r is Ok,
            final(self).eof(),
    ;

    /// Consumes an open-element event; refused after end-of-stream.
    fn visit_open_start_element(&mut self, element: &XmlElement) -> (r: Result<(), OutputError>)
        ensures
            old(self).eof() ==> (r matches Err(e) && e is InvalidState) && final(self).eof(),
    ;

    /// Consumes a close-element event; refused after end-of-stream.
    fn visit_close_element(&mut self) -> (r: Result<(), OutputError>)
        ensures
            old(self).eof() ==> (r matches Err(e) && e is InvalidState) && final(self).eof(),
    ;

    /// Consumes character data; refused after end-of-stream.
    fn visit_characters(&mut self, value: &str) -> (r: Result<(), OutputError>)
        ensures
            old(self).eof() ==> (r matches Err(e) && e is InvalidState) && final(self).eof(),
    ;

    /// CDATA sections are not supported by the adapters of this crate.
    fn visit_cdata_section(&mut self) -> (r: Result<(), OutputError>)
        ensures
            (r matches Err(e) && e is Unsupported),
            *final(self) == *old(self),
    ;

    /// Entity references are not supported by the adapters of this crate.
    fn visit_entity_reference(&mut self) -> (r: Result<(), OutputError>)
        ensures
            (r matches Err(e) && e is Unsupported),
            *final(self) == *old(self),
    ;

    /// Processing instructions are not supported by the adapters of this
    /// crate.
    fn visit_processing_instruction_target(&mut self) -> (r: Result<(), OutputError>)
        ensures
            (r matches Err(e) && e is Unsupported),
            *final(self) == *old(self),
    ;

    /// Processing instructions are not supported by the adapters of this
    /// crate.
    fn visit_processing_instruction_data(&mut self) -> (r: Result<(), OutputError>)
        ensures
            (r matches Err(e) && e is Unsupported),
            *final(self) == *old(self),
    ;

    /// Consumes the start marker; refused after end-of-stream.
    fn visit_start_of_stream(&mut self) -> (r: Result<(), OutputError>)
        ensures
            old(self).eof() ==> (r matches Err(e) && e is InvalidState) && final(self).eof(),
    ;
}

/// Declares xml-rs's event writer, which owns the sink and tracks the
/// emitter state (open tags, indentation) opaquely.
#[verifier::external_type_specification]
#[verifier::external_body]
#[verifier::reject_recursive_types(W)]
pub struct ExEventWriter<W>(xml::writer::EventWriter<W>);

/// Relies on xml::EmitterConfig::create_writer: builds an event writer
/// over `target` with the given line separator, indentation choice, and
/// empty-element normalization choice.
#[verifier::external_body]
fn make_event_writer<W: std::io::Write>(
    target: W,
    line_separator: &'static str,
    perform_indent: bool,
    normalize_empty_elements: bool,
) -> (r: xml::writer::EventWriter<W>) {
    xml::EmitterConfig::new()
        .line_separator(line_separator)
        .perform_indent(perform_indent)
        .normalize_empty_elements(normalize_empty_elements)
        .create_writer(target)
}

/// Relies on xml::writer::EventWriter::write with a start-document event:
/// emits the XML declaration for version 1.0, with no standalone marker.
#[verifier::external_body]
fn write_start_document<W: std::io::Write>(w: &mut xml::writer::EventWriter<W>) -> (r: Result<
    (),
    xml::writer::Error,
>) {
    w.write(xml::writer::XmlEvent::StartDocument {
        version: xml::common::XmlVersion::Version10,
        encoding: None,
        standalone: None,
    })
}

/// Relies on xml::writer::EventWriter::write with a start-element event:
/// emits the tag with every attribute as a name/value pair, in order.
#[verifier::external_body]
fn write_start_element<W: std::io::Write>(
    w: &mut xml::writer::EventWriter<W>,
    element: &XmlElement,
) -> (r: Result<(), xml::writer::Error>) {
    let mut builder = xml::writer::XmlEvent::start_element(element.name.as_str());
    for a in element.attributes.iter() {
        builder = builder.attr(a.name.as_str(), a.value.as_str());
    }
    w.write(builder)
}

/// Relies on xml::writer::EventWriter::write with an end-element event:
/// emits the matching end tag, or an error on an unbalanced close.
#[verifier::external_body]
fn write_end_element<W: std::io::Write>(w: &mut xml::writer::EventWriter<W>) -> (r: Result<
    (),
    xml::writer::Error,
>) {
    w.write(xml::writer::XmlEvent::end_element())
}

/// Relies on xml::writer::EventWriter::write with a characters event:
/// emits the text, escaped, between the currently open tags.
#[verifier::external_body]
fn write_characters<W: std::io::Write>(
    w: &mut xml::writer::EventWriter<W>,
    value: &str,
) -> (r: Result<(), xml::writer::Error>) {
    w.write(xml::writer::XmlEvent::characters(value))
}

/// Relies on xml::writer::EventWriter::into_inner: hands back the sink;
/// this cannot fail.
#[verifier::external_body]
fn writer_into_inner<W: std::io::Write>(w: xml::writer::EventWriter<W>) -> W {
    w.into_inner()
}

/// The XML text adapter: translates events one for one into a streaming
/// XML writer bound to the sink. Formatting is fixed at construction:
/// indentation on, CRLF line separators, and empty elements emitted as an
/// open/close pair rather than self-closed.
#[verifier::reject_recursive_types(W)]
pub struct XMLOutput<W> {
    writer: xml::writer::EventWriter<W>,
    eof_reached: bool,
}

impl<W> XMLOutput<W> {
    /// Whether end-of-stream has been observed.
    pub closed spec fn eof(&self) -> bool {
        self.eof_reached
    }
}

impl<W: std::io::Write> XMLOutput<W> {
    /// Builds an adapter owning `target`, with the fixed formatting
    /// policy: indentation, CRLF line separators, no self-closed tags.
    pub fn with_writer(target: W) -> (r: Self)
        ensures
            !r.eof(),
    {
        XMLOutput { writer: make_event_writer(target, "\r\n", true, false), eof_reached: false }
    }

    /// Hands the sink back once end-of-stream was observed; this adapter
    /// keeps no stack, so no further structural check is made here.
    pub fn into_writer(self) -> (r: Result<W, OutputError>)
        ensures
            self.eof() ==> r is Ok,
            !self.eof() ==> (r matches Err(e) && e is IncompleteOutput),
    {
        if self.eof_reached {
            Ok(writer_into_inner(self.writer))
        } else {
            Err(OutputError::IncompleteOutput)
        }
    }

    /// Emits the document declaration.
    pub fn visit_start_of_stream(&mut self) -> (r: Result<(), OutputError>)
        ensures
            final(self).eof() == old(self).eof(),
            old(self).eof() ==> (r matches Err(e) && e is InvalidState),
            !old(self).eof() ==> (r is Ok || (r matches Err(e) && e is XmlWriter)),
    {
        if self.eof_reached {
            return Err(OutputError::InvalidState);
        }
        match write_start_document(&mut self.writer) {
            Ok(_) => Ok(()),
            Err(e) => Err(OutputError::XmlWriter(e)),
        }
    }

    /// Marks the stream complete; nothing further may be emitted.
    pub fn visit_end_of_stream(&mut self) -> (r: Result<(), OutputError>)
        ensures
            r is Ok,
            final(self).eof(),
    {
        self.eof_reached = true;
        Ok(())
    }

    /// Emits the start tag with its attributes in their original order.
    pub fn visit_open_start_element(&mut self, element: &XmlElement) -> (r: Result<
        (),
        OutputError,
    >)
        ensures
            final(self).eof() == old(self).eof(),
            old(self).eof() ==> (r matches Err(e) && e is InvalidState),
            !old(self).eof() ==> (r is Ok || (r matches Err(e) && e is XmlWriter)),
    {
        if self.eof_reached {
            return Err(OutputError::InvalidState);
        }
        match write_start_element(&mut self.writer, element) {
            Ok(_) => Ok(()),
            Err(e) => Err(OutputError::XmlWriter(e)),
        }
    }

    /// Emits the matching end tag; the writer itself reports an
    /// unbalanced close.
    pub fn visit_close_element(&mut self) -> (r: Result<(), OutputError>)
        ensures
            final(self).eof() == old(self).eof(),
            old(self).eof() ==> (r matches Err(e) && e is InvalidState),
            !old(self).eof() ==> (r is Ok || (r matches Err(e) && e is XmlWriter)),
    {
        if self.eof_reached {
            return Err(OutputError::InvalidState);
        }
        match write_end_element(&mut self.writer) {
            Ok(_) => Ok(()),
            Err(e) => Err(OutputError::XmlWriter(e)),
        }
    }

    /// Emits text content between the currently open tags.
    pub fn visit_characters(&mut self, value: &str) -> (r: Result<(), OutputError>)
        ensures
            final(self).eof() == old(self).eof(),
            old(self).eof() ==> (r matches Err(e) && e is InvalidState),
            !old(self).eof() ==> (r is Ok || (r matches Err(e) && e is XmlWriter)),
    {
        if self.eof_reached {
            return Err(OutputError::InvalidState);
        }
        match write_characters(&mut self.writer, value) {
            Ok(_) => Ok(()),
            Err(e) => Err(OutputError::XmlWriter(e)),
        }
    }

    /// CDATA sections are not supported by this adapter.
    pub fn visit_cdata_section(&mut self) -> (r: Result<(), OutputError>)
        ensures
            (r matches Err(e) && e is Unsupported),
            *final(self) == *old(self),
    {
        Err(OutputError::Unsupported)
    }

    /// Entity references are not supported by this adapter.
    pub fn visit_entity_reference(&mut self) -> (r: Result<(), OutputError>)
        ensures
            (r matches Err(e) && e is Unsupported),
            *final(self) == *old(self),
    {
        Err(OutputError::Unsupported)
    }

    /// Processing instructions are not supported by this adapter.
    pub fn visit_processing_instruction_target(&mut self) -> (r: Result<(), OutputError>)
        ensures
            (r matches Err(e) && e is Unsupported),
            *final(self) == *old(self),
    {
        Err(OutputError::Unsupported)
    }

    /// Processing instructions are not supported by this adapter.
    pub fn visit_processing_instruction_data(&mut self) -> (r: Result<(), OutputError>)
        ensures
            (r matches Err(e) && e is Unsupported),
            *final(self) == *old(self),
    {
        Err(OutputError::Unsupported)
    }
}

/// The protocol impl is provided at the in-memory sink; generic users
/// reach the same operations as inherent methods.
impl BinXMLOutput<Vec<u8>> for XMLOutput<Vec<u8>> {
    closed spec fn eof(&self) -> bool {
        self.eof_reached
    }

    fn with_writer(target: Vec<u8>) -> Self {
        XMLOutput::with_writer(target)
    }

    fn into_writer(self) -> Result<Vec<u8>, OutputError> {
        XMLOutput::into_writer(self)
    }

    fn visit_end_of_stream(&mut self) -> Result<(), OutputError> {
        XMLOutput::visit_end_of_stream(self)
    }

    fn visit_open_start_element(&mut self, element: &XmlElement) -> Result<(), OutputError> {
        XMLOutput::visit_open_start_element(self, element)
    }

    fn visit_close_element(&mut self) -> Result<(), OutputError> {
        XMLOutput::visit_close_element(self)
    }

    fn visit_characters(&mut self, value: &str) -> Result<(), OutputError> {
        XMLOutput::visit_characters(self, value)
    }

    fn visit_cdata_section(&mut self) -> Result<(), OutputError> {
        XMLOutput::visit_cdata_section(self)
    }

    fn visit_entity_reference(&mut self) -> Result<(), OutputError> {
        XMLOutput::visit_entity_reference(self)
    }

    fn visit_processing_instruction_target(&mut self) -> Result<(), OutputError> {
        XMLOutput::visit_processing_instruction_target(self)
    }

    fn visit_processing_instruction_data(&mut self) -> Result<(), OutputError> {
        XMLOutput::visit_processing_instruction_data(self)
    }

    fn visit_start_of_stream(&mut self) -> Result<(), OutputError> {
        XMLOutput::visit_start_of_stream(self)
    }
}

} // verus!
