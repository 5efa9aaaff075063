//! Trusted specifications of the outside crates that decode document
//! formats: ZIP archives, XML events and text encodings.
use vstd::prelude::*;
use quick_xml::events::Event;

verus! {

/// The text of the archive entry `entry` of the ZIP archive `b`, as
/// `zip::ZipArchive::new`, `ZipArchive::by_name` and `read_to_string` give
/// it; `None` when any of them fails.
pub uninterp spec fn zip_entry_text(b: Seq<u8>, entry: Seq<char>) -> Option<Seq<char>>;

/// What `encoding_rs::UTF_8.decode` returns for `b`: the text and whether
/// malformed input was replaced.
pub uninterp spec fn encoding_utf8_decode(b: Seq<u8>) -> (Seq<char>, bool);

/// The events that a `quick_xml::Reader` with text trimming reads from
/// `xml`, up to and including the end of input or the first error.
pub uninterp spec fn xml_events_of(xml: Seq<char>) -> Seq<XmlEvent>;

/// An event of an XML reader, reduced to what text extraction reads.
#[derive(Debug, PartialEq, Eq)]
pub enum XmlEvent {
    /// An opening tag with its qualified name.
    Start(Vec<u8>),
    /// A closing tag with its qualified name.
    End(Vec<u8>),
    /// Character data, unescaped, or the message of a failed unescaping.
    Text(Result<String, String>),
    /// The end of the input.
    Eof,
    /// A reading error, with its message.
    Error(String),
    /// Any other event.
    Other,
}

/// Why an entry of a ZIP archive could not be read.
#[derive(Debug, PartialEq, Eq)]
pub enum ZipEntryError {
    /// The bytes are not a ZIP archive.
    NotAnArchive(String),
    /// The archive has no such entry.
    MissingEntry(String),
    /// The entry is not readable text.
    Unreadable(String),
}

/// Opens `b` with `zip::ZipArchive::new`, looks up `entry` with `by_name`
/// and reads it with `read_to_string`; each failure is reported with its
/// message. The result is named.
#[verifier::external_body]
pub fn read_zip_entry(b: &[u8], entry: &str) -> (res: Result<String, ZipEntryError>)
    ensures
        match res {
            Ok(t) => zip_entry_text(b@, entry@) == Some(t@),
            Err(_) => zip_entry_text(b@, entry@) is None,
        },
{
    let mut archive = zip::ZipArchive::new(std::io::Cursor::new(b))
        .map_err(|e| ZipEntryError::NotAnArchive(e.to_string()))?;
    let mut file = archive.by_name(entry).map_err(|e| ZipEntryError::MissingEntry(e.to_string()))?;
    let mut text = String::new();
    std::io::Read::read_to_string(&mut file, &mut text)
        .map_err(|e| ZipEntryError::Unreadable(e.to_string()))?;
    Ok(text)
}

/// Calls `encoding_rs::UTF_8.decode`, keeping the text and the flag of
/// replaced malformed input. The result is named.
#[verifier::external_body]
pub fn decode_with_encoding_rs(b: &[u8]) -> (res: (String, bool))
    ensures
        (res.0@, res.1) == encoding_utf8_decode(b@),
{
    let (text, _, had_errors) = encoding_rs::UTF_8.decode(b);
    (text.to_string(), had_errors)
}

/// The events of `quick_xml`.
#[verifier::external_type_specification]
#[verifier::external_body]
pub struct ExQuickXmlEvent<'a>(Event<'a>);

/// The errors of `quick_xml`.
#[verifier::external_type_specification]
#[verifier::external_body]
pub struct ExQuickXmlError(quick_xml::Error);

/// Converts one result of `quick_xml::Reader::read_event`, unescaping text
/// with `BytesText::unescape`. Nothing is stated of the conversion.
#[verifier::external_body]
fn xml_event(ev: Result<Event<'_>, quick_xml::Error>) -> XmlEvent {
    match ev {
        Ok(Event::Start(e)) => XmlEvent::Start(e.name().as_ref().to_vec()),
        Ok(Event::End(e)) => XmlEvent::End(e.name().as_ref().to_vec()),
        Ok(Event::Text(e)) => XmlEvent::Text(e.unescape().map(|t| t.to_string()).map_err(|e| e.to_string())),
        Ok(Event::Eof) => XmlEvent::Eof,
        Err(e) => XmlEvent::Error(e.to_string()),
        Ok(_) => XmlEvent::Other,
    }
}

/// Reads `xml` with a `quick_xml::Reader` that trims text, converting each
/// event, until the end of input or the first error (both included). The
/// result is named.
#[verifier::external_body]
pub fn read_xml_events(xml: &str) -> (res: Vec<XmlEvent>)
    ensures
        res@ == xml_events_of(xml@),
{
    let mut reader = quick_xml::Reader::from_str(xml);
    reader.trim_text(true);
    let mut events = Vec::new();
    loop {
        let ev = xml_event(reader.read_event());
        let stop = matches!(ev, XmlEvent::Eof | XmlEvent::Error(_));
        events.push(ev);
        if stop {
            return events;
        }
    }
}

} // verus!
