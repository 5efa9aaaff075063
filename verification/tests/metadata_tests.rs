use std::io::Write;

use lopdf::{Dictionary, Document, Object};

use ats_scanner::metadata::{
    extract_docx_metadata, extract_metadata, extract_pdf_metadata, parse_docx_app_properties,
    parse_docx_core_properties, DocumentMetadata, PdfInfo,
};
use ats_scanner::text::parse_u32;

const CORE_XML: &str = r#"<?xml version="1.0" encoding="UTF-8"?>
<cp:coreProperties xmlns:cp="c" xmlns:dc="d" xmlns:dcterms="t">
  <dc:title>Resume of Jane</dc:title>
  <dc:creator>Jane Smith</dc:creator>
  <dc:subject>Engineering</dc:subject>
  <cp:keywords>rust, python</cp:keywords>
  <dc:description>ignored</dc:description>
  <dcterms:created>2023-01-02T03:04:05Z</dcterms:created>
</cp:coreProperties>"#;

const APP_XML: &str = r#"<?xml version="1.0" encoding="UTF-8"?>
<Properties><Application>Microsoft Office Word</Application><Pages>3</Pages></Properties>"#;

fn docx_with(entries: &[(&str, &str)]) -> Vec<u8> {
    let mut w = zip::ZipWriter::new(std::io::Cursor::new(Vec::new()));
    let options = zip::write::SimpleFileOptions::default()
        .compression_method(zip::CompressionMethod::Stored);
    for (name, body) in entries {
        w.start_file(*name, options).unwrap();
        w.write_all(body.as_bytes()).unwrap();
    }
    w.finish().unwrap().into_inner()
}

#[test]
fn core_properties_fill_text_fields() {
    let m = parse_docx_core_properties(CORE_XML, DocumentMetadata::default());
    assert_eq!(m.title.as_deref(), Some("Resume of Jane"));
    assert_eq!(m.author.as_deref(), Some("Jane Smith"));
    assert_eq!(m.subject.as_deref(), Some("Engineering"));
    assert_eq!(m.keywords.as_deref(), Some("rust, python"));
    assert!(m.creation_date.is_some());
    assert!(m.modification_date.is_none());
    assert!(m.pages.is_none());
}

#[test]
fn core_properties_keep_fields_on_other_xml() {
    let mut start = DocumentMetadata::default();
    start.title = Some("Kept".to_string());
    let m = parse_docx_core_properties("<root><other>x</other></root>", start);
    assert_eq!(m.title.as_deref(), Some("Kept"));
    assert!(m.author.is_none());
}

#[test]
fn app_properties_give_creator_and_pages() {
    let m = parse_docx_app_properties(APP_XML, DocumentMetadata::default());
    assert_eq!(m.creator.as_deref(), Some("Microsoft Office Word"));
    assert_eq!(m.pages, Some(3));
    let bad = parse_docx_app_properties("<Properties><Pages>many</Pages></Properties>", DocumentMetadata::default());
    assert_eq!(bad.pages, None);
}

#[test]
fn docx_metadata_reads_both_parts() {
    let bytes = docx_with(&[("docProps/core.xml", CORE_XML), ("docProps/app.xml", APP_XML)]);
    let m = extract_docx_metadata(&bytes, DocumentMetadata::default());
    assert_eq!(m.title.as_deref(), Some("Resume of Jane"));
    assert_eq!(m.creator.as_deref(), Some("Microsoft Office Word"));
    assert_eq!(m.pages, Some(3));
    let only_app = docx_with(&[("docProps/app.xml", APP_XML)]);
    let m2 = extract_metadata(&only_app, "docx", DocumentMetadata::default(), None);
    assert!(m2.title.is_none());
    assert_eq!(m2.pages, Some(3));
}

#[test]
fn metadata_of_other_types_is_unchanged() {
    let mut start = DocumentMetadata::default();
    start.language = Some("en".to_string());
    let m = extract_metadata(b"plain text", "txt", start, None);
    assert_eq!(m.language.as_deref(), Some("en"));
    assert!(m.title.is_none());
    let not_pdf = extract_pdf_metadata(pdf_info_of(b"not a pdf"), DocumentMetadata::default());
    assert!(not_pdf.pages.is_none());
    let not_zip = extract_docx_metadata(b"not a zip", DocumentMetadata::default());
    assert!(not_zip.creator.is_none());
}

fn pdf_info_of(content: &[u8]) -> Option<PdfInfo> {
    let doc = Document::load_mem(content).ok()?;
    let info = doc.trailer.get(b"Info").ok().and_then(|o| o.as_dict().ok());
    let text = |key: &[u8]| match info.map(|d| d.get(key)) {
        Some(Ok(Object::String(bytes, _))) => Some(bytes.clone()),
        _ => None,
    };
    Some(PdfInfo {
        title: text(b"Title"),
        author: text(b"Author"),
        subject: text(b"Subject"),
        creator: text(b"Creator"),
        producer: text(b"Producer"),
        pages: doc.get_pages().len(),
    })
}

fn small_pdf() -> Vec<u8> {
    let mut doc = Document::with_version("1.5");
    let pages_id = doc.new_object_id();
    let mut page = Dictionary::new();
    page.set("Type", Object::Name(b"Page".to_vec()));
    page.set("Parent", Object::Reference(pages_id));
    let page_id = doc.add_object(Object::Dictionary(page));
    let mut pages = Dictionary::new();
    pages.set("Type", Object::Name(b"Pages".to_vec()));
    pages.set("Kids", Object::Array(vec![Object::Reference(page_id)]));
    pages.set("Count", Object::Integer(1));
    doc.objects.insert(pages_id, Object::Dictionary(pages));
    let mut catalog = Dictionary::new();
    catalog.set("Type", Object::Name(b"Catalog".to_vec()));
    catalog.set("Pages", Object::Reference(pages_id));
    let catalog_id = doc.add_object(Object::Dictionary(catalog));
    doc.trailer.set("Root", Object::Reference(catalog_id));
    let mut info = Dictionary::new();
    info.set("Title", Object::string_literal("My Resume"));
    info.set("Author", Object::string_literal("Jane"));
    doc.trailer.set("Info", Object::Dictionary(info));
    let mut bytes = Vec::new();
    doc.save_to(&mut bytes).unwrap();
    bytes
}

#[test]
fn pdf_metadata_from_information_dictionary() {
    let bytes = small_pdf();
    let m = extract_metadata(&bytes, "pdf", DocumentMetadata::default(), pdf_info_of(&bytes));
    assert_eq!(m.title.as_deref(), Some("My Resume"));
    assert_eq!(m.author.as_deref(), Some("Jane"));
    assert!(m.subject.is_none());
    assert_eq!(m.pages, Some(1));
}

#[test]
fn u32_parsing_follows_std() {
    assert_eq!(parse_u32("42"), Some(42));
    assert_eq!(parse_u32("+7"), Some(7));
    assert_eq!(parse_u32("-7"), None);
    assert_eq!(parse_u32("+"), None);
    assert_eq!(parse_u32(""), None);
    assert_eq!(parse_u32("4294967295"), Some(4294967295));
    assert_eq!(parse_u32("4294967296"), None);
    assert_eq!(parse_u32("12a"), None);
}
