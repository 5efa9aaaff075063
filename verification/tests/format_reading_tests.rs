use std::io::Write;

use ats_scanner::document::{DocumentError, DocumentParser};
use lopdf::content::{Content, Operation};
use lopdf::{Dictionary, Document, Object, Stream};

fn zip_with(entries: &[(&str, &str)]) -> Vec<u8> {
    let mut w = zip::ZipWriter::new(std::io::Cursor::new(Vec::new()));
    let options = zip::write::SimpleFileOptions::default().compression_method(zip::CompressionMethod::Stored);
    for (name, text) in entries {
        w.start_file(*name, options).unwrap();
        w.write_all(text.as_bytes()).unwrap();
    }
    w.finish().unwrap().into_inner()
}

const DOCUMENT_XML: &str = r#"<?xml version="1.0" encoding="UTF-8"?>
<w:document xmlns:w="http://schemas.openxmlformats.org/wordprocessingml/2006/main"><w:body>
<w:p><w:r><w:t>Jane Smith</w:t></w:r></w:p>
<w:p><w:r><w:t>Data &amp; Analytics</w:t></w:r><w:r><w:t> Lead</w:t></w:r></w:p>
</w:body></w:document>"#;

#[test]
fn docx_text_comes_from_the_runs() {
    let bytes = zip_with(&[("word/document.xml", DOCUMENT_XML)]);
    let text = DocumentParser::parse_docx(&bytes).unwrap();
    // the reader trims the text of each run
    assert_eq!(text, "Jane Smith\nData & AnalyticsLead\n");
    let doc = DocumentParser::parse_content(&bytes, "cv.docx", None).unwrap();
    assert_eq!(doc.file_type, "docx");
    assert!(doc.content.contains("Data & AnalyticsLead"));
}

#[test]
fn docx_errors_name_what_is_wrong() {
    let no_body = zip_with(&[("docProps/app.xml", "<Properties/>")]);
    assert!(matches!(DocumentParser::parse_docx(&no_body), Err(DocumentError::DocxMissingDocument(_))));
    assert!(matches!(DocumentParser::parse_docx(b"plain bytes"), Err(DocumentError::DocxNotAnArchive(_))));
    let broken = zip_with(&[("word/document.xml", "<w:p><w:t>open</w:p>")]);
    assert!(matches!(DocumentParser::parse_docx(&broken), Err(DocumentError::Xml(_))));
}

fn pdf_saying(text: &str) -> Vec<u8> {
    let mut doc = Document::with_version("1.5");
    let pages_id = doc.new_object_id();
    let mut font = Dictionary::new();
    font.set("Type", Object::Name(b"Font".to_vec()));
    font.set("Subtype", Object::Name(b"Type1".to_vec()));
    font.set("BaseFont", Object::Name(b"Helvetica".to_vec()));
    let font_id = doc.add_object(Object::Dictionary(font));
    let mut fonts = Dictionary::new();
    fonts.set("F1", Object::Reference(font_id));
    let mut resources = Dictionary::new();
    resources.set("Font", Object::Dictionary(fonts));
    let resources_id = doc.add_object(Object::Dictionary(resources));
    let content = Content {
        operations: vec![
            Operation::new("BT", vec![]),
            Operation::new("Tf", vec![Object::Name(b"F1".to_vec()), Object::Integer(12)]),
            Operation::new("Td", vec![Object::Integer(72), Object::Integer(700)]),
            Operation::new("Tj", vec![Object::string_literal(text)]),
            Operation::new("ET", vec![]),
        ],
    };
    let content_id = doc.add_object(Stream::new(Dictionary::new(), content.encode().unwrap()));
    let mut page = Dictionary::new();
    page.set("Type", Object::Name(b"Page".to_vec()));
    page.set("Parent", Object::Reference(pages_id));
    page.set("Contents", Object::Reference(content_id));
    page.set("Resources", Object::Reference(resources_id));
    page.set(
        "MediaBox",
        Object::Array(vec![Object::Integer(0), Object::Integer(0), Object::Integer(612), Object::Integer(792)]),
    );
    let page_id = doc.add_object(Object::Dictionary(page));
    let mut pages = Dictionary::new();
    pages.set("Type", Object::Name(b"Pages".to_vec()));
    pages.set("Kids", Object::Array(vec![Object::Reference(page_id)]));
    pages.set("Count", Object::Integer(1));
    doc.objects.insert(pages_id, Object::Dictionary(pages));
    let mut catalog = Dictionary::new();
    catalog.set("Type", Object::Name(b"Catalog".to_vec()));
    catalog.set("Pages", Object::Reference(pages_id));
    let catalog_id = doc.add_object(Object::Dictionary(catalog));
    doc.trailer.set("Root", Object::Reference(catalog_id));
    let mut bytes = Vec::new();
    doc.save_to(&mut bytes).unwrap();
    bytes
}

#[test]
fn pdf_text_is_extracted() {
    let bytes = pdf_saying("Resume of Jane");
    let reading = pdf_extract::extract_text_from_mem(&bytes).map_err(|e| e.to_string());
    let text = DocumentParser::parse_pdf(reading.clone()).unwrap();
    assert!(text.contains("Resume of Jane"));
    let doc = DocumentParser::parse_content(&bytes, "cv.pdf", Some(reading)).unwrap();
    assert_eq!(doc.file_type, "pdf");
    assert!(doc.content.contains("Resume of Jane"));
    assert_eq!(
        DocumentParser::parse_pdf(Err("bad xref".to_string())),
        Err(DocumentError::Pdf("bad xref".to_string()))
    );
    // a PDF that the reader was not run on cannot be parsed
    assert!(matches!(DocumentParser::parse_content(&bytes, "cv.pdf", None), Err(DocumentError::Pdf(_))));
    // the reading is ignored for other types
    let txt = DocumentParser::parse_content(b"plain words", "a.txt", Some(Err("unused".to_string()))).unwrap();
    assert_eq!(txt.content, "plain words");
}

#[test]
fn plain_text_decoding() {
    assert_eq!(DocumentParser::parse_text("café".as_bytes()), "café");
    // malformed UTF-8 is replaced, not kept
    assert_eq!(DocumentParser::parse_text(&[b'a', 0xff, b'b']), "a\u{FFFD}b");
}
