//! The manifest markup reader: the one place the library leans on the
//! external streaming parser.  The stream is pulled one event at a
//! time; everything that folds events into the plan is verified in
//! `pipeline`.  Nothing is assumed about which events a given byte
//! sequence yields.

use vstd::prelude::*;

verus! {

/// One event of the manifest markup stream, reduced to what the fold
/// reads.
pub enum MarkupEvent {
    /// An opening element, by its local name.
    StartElement(String),
    /// Character data inside the current element.
    Characters(String),
    /// A closing element.
    EndElement,
    /// The end of the document; the stream yields nothing further.
    EndDocument,
    /// Anything else the parser can emit: declarations, comments,
    /// whitespace, processing instructions.
    Other,
    /// Malformed markup, fatal for the run.
    ParseError,
}

/// The external pull parser, held opaquely: Verus cannot take the
/// reader type's `Read` bound, so the one field is hidden behind this
/// struct instead of a declaration of the type itself.
#[verifier::external_body]
pub struct ManifestReader<'a> {
    inner: xml::reader::EventReader<&'a [u8]>,
}

/// Relies on xml::reader::EventReader::new: builds a pull parser over
/// an in-memory byte slice.
#[verifier::external_body]
pub fn new_manifest_reader<'a>(bytes: &'a [u8]) -> ManifestReader<'a> {
    ManifestReader { inner: xml::reader::EventReader::new(bytes) }
}

/// Relies on xml::reader::EventReader::next: pulls the next event.
/// After an error or the end of the document the reader returns that
/// same outcome on every further pull, so a loop that stops on
/// `EndDocument` and `ParseError` sees every event once.
#[verifier::external_body]
pub fn next_markup_event(rd: &mut ManifestReader<'_>) -> MarkupEvent {
    match rd.inner.next() {
        Ok(xml::reader::XmlEvent::StartElement { name, .. }) => MarkupEvent::StartElement(
            name.local_name,
        ),
        Ok(xml::reader::XmlEvent::Characters(data)) => MarkupEvent::Characters(data),
        Ok(xml::reader::XmlEvent::EndElement { .. }) => MarkupEvent::EndElement,
        Ok(xml::reader::XmlEvent::EndDocument) => MarkupEvent::EndDocument,
        Ok(_) => MarkupEvent::Other,
        Err(_) => MarkupEvent::ParseError,
    }
}

} // verus!
