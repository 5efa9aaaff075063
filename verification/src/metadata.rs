//! Document metadata: the information dictionary of a PDF and the core and
//! application properties of a DOCX package.
use vstd::prelude::*;
use vstd::utf8::*;
use crate::text::{opt_view, parse_u32, parsed_u32, str_eq};
use crate::unicode::{utf8_decode, utf8_decode_lossy, lossy_utf8};
use crate::formats::{XmlEvent, xml_events_of, read_xml_events, read_zip_entry, zip_entry_text};

verus! {

/// What is known of a document besides its text.
#[derive(Debug, Clone, Default)]
pub struct DocumentMetadata {
    /// The creation date, as RFC 3339 text.
    pub creation_date: Option<String>,
    /// The modification date, as RFC 3339 text.
    pub modification_date: Option<String>,
    pub author: Option<String>,
    pub title: Option<String>,
    pub subject: Option<String>,
    pub keywords: Option<String>,
    pub producer: Option<String>,
    pub creator: Option<String>,
    pub pages: Option<u32>,
    pub language: Option<String>,
}

/// The text fields and page count of metadata: author, title, subject,
/// keywords, producer, creator, pages, language.
pub type MetadataFields = (
    Option<Seq<char>>,
    Option<Seq<char>>,
    Option<Seq<char>>,
    Option<Seq<char>>,
    Option<Seq<char>>,
    Option<Seq<char>>,
    Option<u32>,
    Option<Seq<char>>,
);

/// The text fields and page count of `m`.
pub open spec fn fields_of(m: DocumentMetadata) -> MetadataFields {
    (
        opt_view(m.author),
        opt_view(m.title),
        opt_view(m.subject),
        opt_view(m.keywords),
        opt_view(m.producer),
        opt_view(m.creator),
        m.pages,
        opt_view(m.language),
    )
}

/// Parses a date with `dateparser::parse` and gives it as RFC 3339 text.
/// Dates without a time zone are read in the machine's local time zone, so
/// nothing is stated of the result.
#[verifier::external_body]
fn parse_date(text: &str) -> Option<String> {
    dateparser::parse(text).ok().map(|d| d.to_rfc3339())
}

/// The text of a text event: the unescaped text, or empty where unescaping
/// failed.
pub open spec fn event_text(t: Result<String, String>) -> Seq<char> {
    match t {
        Ok(s) => s@,
        Err(_) => Seq::empty(),
    }
}

/// What reading core properties has found so far: the element being read,
/// whether reading has stopped (end of input or an error), the fields read,
/// and whether a creation or modification date was met.
pub struct CoreScan {
    pub current: Seq<char>,
    pub stopped: bool,
    pub fields: MetadataFields,
    pub created_seen: bool,
    pub modified_seen: bool,
}

/// One event of reading core properties.
pub open spec fn core_step(s: CoreScan, e: XmlEvent) -> CoreScan {
    if s.stopped {
        s
    } else {
        match e {
            XmlEvent::Start(name) => CoreScan { current: lossy_utf8(name@), ..s },
            XmlEvent::Text(t) => {
                let x = event_text(t);
                let f = s.fields;
                if s.current == "dc:title"@ {
                    CoreScan { fields: (f.0, Some(x), f.2, f.3, f.4, f.5, f.6, f.7), ..s }
                } else if s.current == "dc:creator"@ {
                    CoreScan { fields: (Some(x), f.1, f.2, f.3, f.4, f.5, f.6, f.7), ..s }
                } else if s.current == "dc:subject"@ {
                    CoreScan { fields: (f.0, f.1, Some(x), f.3, f.4, f.5, f.6, f.7), ..s }
                } else if s.current == "cp:keywords"@ {
                    CoreScan { fields: (f.0, f.1, f.2, Some(x), f.4, f.5, f.6, f.7), ..s }
                } else if s.current == "dcterms:created"@ {
                    CoreScan { created_seen: true, ..s }
                } else if s.current == "dcterms:modified"@ {
                    CoreScan { modified_seen: true, ..s }
                } else {
                    s
                }
            },
            XmlEvent::Eof => CoreScan { stopped: true, ..s },
            XmlEvent::Error(_) => CoreScan { stopped: true, ..s },
            _ => s,
        }
    }
}

/// Reading the core properties events `events`, starting from `init`.
pub open spec fn core_scan(events: Seq<XmlEvent>, init: CoreScan) -> CoreScan
    decreases events.len(),
{
    if events.len() == 0 {
        init
    } else {
        core_step(core_scan(events.drop_last(), init), events.last())
    }
}

/// The state before reading the core properties into `m`.
pub open spec fn core_start(m: DocumentMetadata) -> CoreScan {
    CoreScan { current: Seq::empty(), stopped: false, fields: fields_of(m), created_seen: false, modified_seen: false }
}

/// Whether `res` is what reading the core properties XML `xml` into `m`
/// gives: title, author, subject and keywords from the text of the
/// elements `dc:title`, `dc:creator`, `dc:subject` and `cp:keywords` (the
/// last such text wins), the other fields unchanged, and a date left
/// unchanged where no element gives one.
pub open spec fn is_core_properties_of(xml: Seq<char>, m: DocumentMetadata, res: DocumentMetadata) -> bool {
    let s = core_scan(xml_events_of(xml), core_start(m));
    &&& fields_of(res) == s.fields
    &&& !s.created_seen ==> opt_view(res.creation_date) == opt_view(m.creation_date)
    &&& !s.modified_seen ==> opt_view(res.modification_date) == opt_view(m.modification_date)
    &&& m.creation_date is Some ==> res.creation_date is Some
    &&& m.modification_date is Some ==> res.modification_date is Some
}

/// Reads the core properties of a DOCX package (`docProps/core.xml`) into
/// `metadata`: title, author, subject and keywords from the Dublin Core
/// elements, the creation and modification dates where the date parser
/// reads them. Reading stops at the end of input or at the first error.
pub fn parse_docx_core_properties(xml_content: &str, metadata: DocumentMetadata) -> (res: DocumentMetadata)
    ensures
        is_core_properties_of(xml_content@, metadata, res),
{
    let events = read_xml_events(xml_content);
    let ghost init = core_start(metadata);
    let mut meta = metadata;
    let mut current = String::new();
    let mut stopped = false;
    let mut i: usize = 0;
    while i < events.len()
        invariant
            i <= events.len(),
            events@ == xml_events_of(xml_content@),
            ({
                let s = core_scan(events@.take(i as int), init);
                &&& s.current == current@
                &&& s.stopped == stopped
                &&& s.fields == fields_of(meta)
                &&& !s.created_seen ==> opt_view(meta.creation_date) == opt_view(metadata.creation_date)
                &&& !s.modified_seen ==> opt_view(meta.modification_date) == opt_view(metadata.modification_date)
            }),
            init == core_start(metadata),
            metadata.creation_date is Some ==> meta.creation_date is Some,
            metadata.modification_date is Some ==> meta.modification_date is Some,
        decreases events.len() - i,
    {
        assert(events@.take(i + 1).drop_last() == events@.take(i as int));
        assert(events@.take(i + 1).last() == events@[i as int]);
        if !stopped {
            match &events[i] {
                XmlEvent::Start(name) => {
                    current = utf8_decode_lossy(name.as_slice());
                },
                XmlEvent::Text(t) => {
                    let x = match t {
                        Ok(s) => s.clone(),
                        Err(_) => String::new(),
                    };
                    if str_eq(current.as_str(), "dc:title") {
                        meta.title = Some(x);
                    } else if str_eq(current.as_str(), "dc:creator") {
                        meta.author = Some(x);
                    } else if str_eq(current.as_str(), "dc:subject") {
                        meta.subject = Some(x);
                    } else if str_eq(current.as_str(), "cp:keywords") {
                        meta.keywords = Some(x);
                    } else if str_eq(current.as_str(), "dcterms:created") {
                        match parse_date(x.as_str()) {
                            Some(d) => {
                                meta.creation_date = Some(d);
                            },
                            None => {},
                        }
                    } else if str_eq(current.as_str(), "dcterms:modified") {
                        match parse_date(x.as_str()) {
                            Some(d) => {
                                meta.modification_date = Some(d);
                            },
                            None => {},
                        }
                    }
                },
                XmlEvent::Eof => {
                    stopped = true;
                },
                XmlEvent::Error(_) => {
                    stopped = true;
                },
                _ => {},
            }
        }
        i += 1;
    }
    assert(events@.take(events.len() as int) == events@);
    meta
}

/// One event of reading application properties: the element being read,
/// whether reading has stopped, and the fields read.
pub open spec fn app_step(s: (Seq<char>, bool, MetadataFields), e: XmlEvent) -> (Seq<char>, bool, MetadataFields) {
    let (current, stopped, f) = s;
    if stopped {
        s
    } else {
        match e {
            XmlEvent::Start(name) => (lossy_utf8(name@), stopped, f),
            XmlEvent::Text(t) => {
                let x = event_text(t);
                if current == "Application"@ {
                    (current, stopped, (f.0, f.1, f.2, f.3, f.4, Some(x), f.6, f.7))
                } else if current == "Pages"@ && parsed_u32(x) is Some {
                    (current, stopped, (f.0, f.1, f.2, f.3, f.4, f.5, parsed_u32(x), f.7))
                } else {
                    s
                }
            },
            XmlEvent::Eof => (current, true, f),
            XmlEvent::Error(_) => (current, true, f),
            _ => s,
        }
    }
}

/// Reading the application properties events `events`, starting from
/// `init`.
pub open spec fn app_scan(events: Seq<XmlEvent>, init: (Seq<char>, bool, MetadataFields)) -> (Seq<char>, bool, MetadataFields)
    decreases events.len(),
{
    if events.len() == 0 {
        init
    } else {
        app_step(app_scan(events.drop_last(), init), events.last())
    }
}

/// Reads the application properties of a DOCX package (`docProps/app.xml`)
/// into `metadata`: the creator from the `Application` element and the page
/// count from the `Pages` element where it parses as a number. Reading
/// stops at the end of input or at the first error.
pub fn parse_docx_app_properties(xml_content: &str, metadata: DocumentMetadata) -> (res: DocumentMetadata)
    ensures
        fields_of(res) == app_scan(xml_events_of(xml_content@), (Seq::empty(), false, fields_of(metadata))).2,
        opt_view(res.creation_date) == opt_view(metadata.creation_date),
        opt_view(res.modification_date) == opt_view(metadata.modification_date),
{
    let events = read_xml_events(xml_content);
    let ghost init = (Seq::<char>::empty(), false, fields_of(metadata));
    let mut meta = metadata;
    let mut current = String::new();
    let mut stopped = false;
    let mut i: usize = 0;
    while i < events.len()
        invariant
            i <= events.len(),
            events@ == xml_events_of(xml_content@),
            app_scan(events@.take(i as int), init) == (current@, stopped, fields_of(meta)),
            init == (Seq::<char>::empty(), false, fields_of(metadata)),
            opt_view(meta.creation_date) == opt_view(metadata.creation_date),
            opt_view(meta.modification_date) == opt_view(metadata.modification_date),
        decreases events.len() - i,
    {
        assert(events@.take(i + 1).drop_last() == events@.take(i as int));
        assert(events@.take(i + 1).last() == events@[i as int]);
        if !stopped {
            match &events[i] {
                XmlEvent::Start(name) => {
                    current = utf8_decode_lossy(name.as_slice());
                },
                XmlEvent::Text(t) => {
                    let x = match t {
                        Ok(s) => s.clone(),
                        Err(_) => String::new(),
                    };
                    if str_eq(current.as_str(), "Application") {
                        meta.creator = Some(x);
                    } else if str_eq(current.as_str(), "Pages") {
                        match parse_u32(x.as_str()) {
                            Some(p) => {
                                meta.pages = Some(p);
                            },
                            None => {},
                        }
                    }
                },
                XmlEvent::Eof => {
                    stopped = true;
                },
                XmlEvent::Error(_) => {
                    stopped = true;
                },
                _ => {},
            }
        }
        i += 1;
    }
    assert(events@.take(events.len() as int) == events@);
    meta
}


/// What a PDF's information dictionary gives: title, author, subject,
/// creator and producer as raw string bytes, and the page count.
pub struct PdfInfo {
    pub title: Option<Vec<u8>>,
    pub author: Option<Vec<u8>>,
    pub subject: Option<Vec<u8>>,
    pub creator: Option<Vec<u8>>,
    pub producer: Option<Vec<u8>>,
    pub pages: usize,
}

/// The content of a `PdfInfo`: title, author, subject, creator, producer,
/// pages.
pub type PdfInfoView = (Option<Seq<u8>>, Option<Seq<u8>>, Option<Seq<u8>>, Option<Seq<u8>>, Option<Seq<u8>>, nat);

/// The bytes of an optional byte string.
pub open spec fn bytes_view(o: Option<Vec<u8>>) -> Option<Seq<u8>> {
    match o {
        Some(b) => Some(b@),
        None => None,
    }
}

/// The content of `p`.
pub open spec fn pdf_info_view(p: PdfInfo) -> PdfInfoView {
    (bytes_view(p.title), bytes_view(p.author), bytes_view(p.subject), bytes_view(p.creator), bytes_view(p.producer), p.pages as nat)
}

/// The content of an optional information reading.
pub open spec fn opt_info_view(info: Option<PdfInfo>) -> Option<PdfInfoView> {
    match info {
        Some(p) => Some(pdf_info_view(p)),
        None => None,
    }
}

/// The field `old`, replaced by the text of `b` where `b` is valid UTF-8.
pub open spec fn decoded(b: Option<Seq<u8>>, old: Option<Seq<char>>) -> Option<Seq<char>> {
    match b {
        Some(bs) => if valid_utf8(bs) {
            Some(decode_utf8(bs))
        } else {
            old
        },
        None => old,
    }
}

/// The fields `f` after the reading `info` of a PDF: where the PDF loaded,
/// each string entry that is valid UTF-8 replaces its field, and the page
/// count (cut to 32 bits) is set.
pub open spec fn pdf_fields(info: Option<PdfInfoView>, f: MetadataFields) -> MetadataFields {
    match info {
        Some(i) => (
            decoded(i.1, f.0),
            decoded(i.0, f.1),
            decoded(i.2, f.2),
            f.3,
            decoded(i.4, f.4),
            decoded(i.3, f.5),
            Some(i.5 as u32),
            f.7,
        ),
        None => f,
    }
}

/// Whether `res` is `m` after the reading `info` of a PDF.
pub open spec fn is_pdf_metadata_of(info: Option<PdfInfoView>, m: DocumentMetadata, res: DocumentMetadata) -> bool {
    &&& fields_of(res) == pdf_fields(info, fields_of(m))
    &&& opt_view(res.creation_date) == opt_view(m.creation_date)
    &&& opt_view(res.modification_date) == opt_view(m.modification_date)
}

/// `field` replaced by the text of `b` where `b` is valid UTF-8.
fn decode_into(b: Option<Vec<u8>>, field: Option<String>) -> (res: Option<String>)
    ensures
        opt_view(res) == decoded(bytes_view(b), opt_view(field)),
{
    match b {
        Some(bs) => match utf8_decode(bs.as_slice()) {
            Some(s) => Some(s),
            None => field,
        },
        None => field,
    }
}

/// Reads the metadata of a PDF into `metadata`, from what the PDF reader
/// read of it (`None` where the bytes did not load as a PDF): title, author,
/// subject, creator and producer from its information dictionary where
/// they are valid UTF-8, and the page count. `metadata` is unchanged where
/// nothing was read.
pub fn extract_pdf_metadata(info: Option<PdfInfo>, metadata: DocumentMetadata) -> (res: DocumentMetadata)
    ensures
        is_pdf_metadata_of(opt_info_view(info), metadata, res),
{
    match info {
        Some(info) => {
            let ghost iv = pdf_info_view(info);
            let mut meta = metadata;
            let pages = info.pages as u32;
            meta.title = decode_into(info.title, meta.title);
            meta.author = decode_into(info.author, meta.author);
            meta.subject = decode_into(info.subject, meta.subject);
            meta.creator = decode_into(info.creator, meta.creator);
            meta.producer = decode_into(info.producer, meta.producer);
            meta.pages = Some(pages);
            assert(fields_of(meta) == pdf_fields(Some(iv), fields_of(metadata)));
            meta
        },
        None => metadata,
    }
}

/// The fields `f` after reading the core properties XML `xml`.
pub open spec fn core_fields(xml: Seq<char>, f: MetadataFields) -> MetadataFields {
    core_scan(
        xml_events_of(xml),
        CoreScan { current: Seq::empty(), stopped: false, fields: f, created_seen: false, modified_seen: false },
    ).fields
}

/// Whether `res` is `m` after reading the DOCX package `content`: the core
/// properties (`docProps/core.xml`), then the application properties
/// (`docProps/app.xml`), each where the package has it as text. A date is
/// unchanged where the core properties give none, and never removed.
pub open spec fn is_docx_metadata_of(content: Seq<u8>, m: DocumentMetadata, res: DocumentMetadata) -> bool {
    let core = zip_entry_text(content, "docProps/core.xml"@);
    let app = zip_entry_text(content, "docProps/app.xml"@);
    let mid = match core {
        Some(x) => core_fields(x, fields_of(m)),
        None => fields_of(m),
    };
    let scan = match core {
        Some(x) => core_scan(xml_events_of(x), core_start(m)),
        None => core_start(m),
    };
    &&& fields_of(res) == match app {
        Some(y) => app_scan(xml_events_of(y), (Seq::empty(), false, mid)).2,
        None => mid,
    }
    &&& !scan.created_seen ==> opt_view(res.creation_date) == opt_view(m.creation_date)
    &&& !scan.modified_seen ==> opt_view(res.modification_date) == opt_view(m.modification_date)
    &&& m.creation_date is Some ==> res.creation_date is Some
    &&& m.modification_date is Some ==> res.modification_date is Some
}

/// Reads the metadata of a DOCX package into `metadata`: its core
/// properties, then its application properties, each where the package
/// holds it.
pub fn extract_docx_metadata(content: &[u8], metadata: DocumentMetadata) -> (res: DocumentMetadata)
    ensures
        is_docx_metadata_of(content@, metadata, res),
{
    let mut meta = metadata;
    match read_zip_entry(content, "docProps/core.xml") {
        Ok(xml) => {
            meta = parse_docx_core_properties(xml.as_str(), meta);
        },
        Err(_) => {},
    }
    match read_zip_entry(content, "docProps/app.xml") {
        Ok(xml) => {
            meta = parse_docx_app_properties(xml.as_str(), meta);
        },
        Err(_) => {},
    }
    meta
}

/// Reads the format-specific metadata of a document of type `file_type`
/// into `metadata` (which holds what the file system gave): PDF metadata
/// from what the PDF reader read of it (`pdf_info`), DOCX metadata from the
/// bytes; other types are unchanged.
pub fn extract_metadata(
    content: &[u8],
    file_type: &str,
    metadata: DocumentMetadata,
    pdf_info: Option<PdfInfo>,
) -> (res: DocumentMetadata)
    ensures
        file_type@ == "pdf"@ ==> is_pdf_metadata_of(opt_info_view(pdf_info), metadata, res),
        file_type@ == "docx"@ ==> is_docx_metadata_of(content@, metadata, res),
        file_type@ != "pdf"@ && file_type@ != "docx"@ ==> res == metadata,
{
    proof {
        reveal_strlit("pdf");
        reveal_strlit("docx");
    }
    if str_eq(file_type, "pdf") {
        assert("pdf"@.len() != "docx"@.len());
        extract_pdf_metadata(pdf_info, metadata)
    } else if str_eq(file_type, "docx") {
        extract_docx_metadata(content, metadata)
    } else {
        metadata
    }
}

} // verus!
