use ats_scanner::document::{DocumentContactInfo, DocumentParser};

const SAMPLE_RESUME_TEXT: &str = r#"
John Doe
Software Engineer
john.doe@email.com
(555) 123-4567
linkedin.com/in/johndoe

SUMMARY
Experienced software engineer with 5+ years in web development

EXPERIENCE
Senior Software Engineer - Tech Corp (2020-2023)
• Developed scalable web applications using React and Node.js
• Led team of 4 developers on critical projects
• Improved system performance by 40%

Software Engineer - StartupCo (2018-2020)
• Built REST APIs using Python and Django
• Implemented CI/CD pipelines

EDUCATION
Bachelor of Computer Science - State University (2018)
• GPA: 3.8/4.0

SKILLS
Python, JavaScript, React, Node.js, Docker, AWS
"#;

#[test]
fn test_parse_text_content() {
    let content = SAMPLE_RESUME_TEXT.as_bytes();
    let result = DocumentParser::parse_content(content, "resume.txt", None);
    assert!(result.is_ok());
    let doc_info = result.unwrap();
    assert_eq!(doc_info.filename, "resume.txt");
    assert_eq!(doc_info.file_type, "txt");
    assert!(doc_info.content.contains("John Doe"));
    assert!(doc_info.content.contains("Software Engineer"));
}

#[test]
fn test_determine_file_type_from_filename() {
    assert_eq!(DocumentParser::determine_file_type_from_filename("resume.pdf"), "pdf");
    assert_eq!(DocumentParser::determine_file_type_from_filename("document.docx"), "docx");
    assert_eq!(DocumentParser::determine_file_type_from_filename("document.doc"), "doc");
    assert_eq!(DocumentParser::determine_file_type_from_filename("file.txt"), "txt");
    assert_eq!(DocumentParser::determine_file_type_from_filename("unknown.xyz"), "txt");
}

#[test]
fn test_extract_text_from_xml() {
    let sample_docx_xml = r#"
        <w:document xmlns:w="http://schemas.openxmlformats.org/wordprocessingml/2006/main">
            <w:body>
                <w:p>
                    <w:r>
                        <w:t>John Doe</w:t>
                    </w:r>
                </w:p>
                <w:p>
                    <w:r>
                        <w:t>Software Engineer</w:t>
                    </w:r>
                </w:p>
                <w:p>
                    <w:r>
                        <w:t>john.doe@email.com</w:t>
                    </w:r>
                </w:p>
            </w:body>
        </w:document>
        "#;
    let result = DocumentParser::extract_text_from_xml(sample_docx_xml);
    assert!(result.is_ok());
    let text = result.unwrap();
    assert!(text.contains("John Doe"));
    assert!(text.contains("Software Engineer"));
    assert!(text.contains("john.doe@email.com"));
}

#[test]
fn test_clean_text() {
    let dirty_text = "  Multiple   spaces   \n\n\n\nExcessive\r\nLine\rBreaks  ";
    let cleaned = DocumentParser::clean_text(dirty_text);
    assert!(!cleaned.starts_with(' '));
    assert!(!cleaned.ends_with(' '));
    assert!(!cleaned.contains("   "));
    assert!(!cleaned.contains("\n\n\n"));
}

#[test]
fn test_extract_contact_info() {
    let contact = DocumentParser::extract_contact_info(SAMPLE_RESUME_TEXT);
    assert!(contact.email.is_some());
    assert_eq!(contact.email.unwrap(), "john.doe@email.com");
    assert!(contact.phone.is_some());
    assert!(contact.phone.unwrap().contains("555"));
    assert!(contact.linkedin.is_some());
    assert!(contact.linkedin.unwrap().contains("johndoe"));
}

#[test]
fn test_extract_sections() {
    let result = DocumentParser::extract_sections(SAMPLE_RESUME_TEXT);
    assert!(result.is_ok());
    let structure = result.unwrap();
    assert!(structure.experience.is_some());
    let experience = structure.experience.unwrap();
    assert!(experience.contains("Senior Software Engineer"));
    assert!(experience.contains("Tech Corp"));
    assert!(structure.education.is_some());
    let education = structure.education.unwrap();
    assert!(education.contains("Bachelor of Computer Science"));
    assert!(education.contains("State University"));
    assert!(structure.skills.is_some());
    let skills = structure.skills.unwrap();
    assert!(skills.contains("Python"));
    assert!(skills.contains("JavaScript"));
    assert!(structure.summary.is_some());
    let summary = structure.summary.unwrap();
    assert!(summary.contains("Experienced software engineer"));
}

#[test]
fn test_is_section_header() {
    assert!(DocumentParser::is_section_header("EXPERIENCE"));
    assert!(DocumentParser::is_section_header("Education"));
    assert!(DocumentParser::is_section_header("Technical Skills"));
    assert!(DocumentParser::is_section_header("WORK EXPERIENCE"));
    assert!(!DocumentParser::is_section_header("This is a very long line that should not be considered a header because it exceeds the length limit"));
    assert!(!DocumentParser::is_section_header("Regular content line"));
}

#[test]
fn test_extract_section_with_different_headers() {
    let content_with_work_experience = r#"
WORK EXPERIENCE
Senior Developer at XYZ Corp
Built amazing software

EDUCATION
Computer Science Degree
"#;
    let result = DocumentParser::extract_sections(content_with_work_experience);
    assert!(result.is_ok());
    let structure = result.unwrap();
    assert!(structure.experience.is_some());
    let experience = structure.experience.unwrap();
    assert!(experience.contains("Senior Developer"));
    assert!(experience.contains("XYZ Corp"));
}

#[test]
fn test_contact_info_extraction_edge_cases() {
    let no_contact = "Just some random text without any contact information";
    let contact = DocumentParser::extract_contact_info(no_contact);
    assert!(contact.email.is_none());
    assert!(contact.phone.is_none());
    assert!(contact.linkedin.is_none());
    let partial_contact = "Email: test@example.com\nSome other text";
    let contact = DocumentParser::extract_contact_info(partial_contact);
    assert!(contact.email.is_some());
    assert_eq!(contact.email.unwrap(), "test@example.com");
    assert!(contact.phone.is_none());
}

#[test]
fn test_different_phone_formats() {
    let phone_formats = vec![
        "(555) 123-4567",
        "555-123-4567",
        "555.123.4567",
        "5551234567",
        "+1 555 123 4567",
    ];
    for phone in phone_formats {
        let text = format!("Contact: {}", phone);
        let contact = DocumentParser::extract_contact_info(&text);
        assert!(contact.phone.is_some(), "Failed to extract phone: {}", phone);
    }
}

#[test]
fn test_empty_and_whitespace_content() {
    let empty_result = DocumentParser::parse_content(b"", "empty.txt", None);
    assert!(empty_result.is_ok());
    let doc = empty_result.unwrap();
    assert!(doc.content.is_empty());
    let whitespace_result = DocumentParser::parse_content(b"   \n\n   \t  ", "whitespace.txt", None);
    assert!(whitespace_result.is_ok());
    let doc = whitespace_result.unwrap();
    assert!(doc.content.trim().is_empty());
}

#[test]
fn test_enhanced_document_info_structure() {
    let content = SAMPLE_RESUME_TEXT.as_bytes();
    let result = DocumentParser::parse_content(content, "resume.txt", None);
    assert!(result.is_ok());
    let doc_info = result.unwrap();
    let structure = doc_info.structure;
    assert!(!structure.sections.is_empty());
    assert!(structure.contact_info.email.is_some());
    let quality = doc_info.quality_metrics;
    assert!(quality.overall_quality_x300 > 0);
    assert!(quality.ats_compatibility_score > 0);
}

#[test]
fn test_document_structure_analysis() {
    let structure = DocumentParser::analyze_document_structure(SAMPLE_RESUME_TEXT);
    assert!(structure.contact_info.email.is_some());
    assert_eq!(structure.contact_info.email.unwrap(), "john.doe@email.com");
    assert!(structure.contact_info.phone.is_some());
    assert!(structure.contact_info.linkedin.is_some());
    assert!(structure.total_sections > 0);
    assert!(!structure.sections.is_empty());
    let section_names: Vec<String> = structure.sections.iter().map(|s| s.name.to_lowercase()).collect();
    assert!(section_names.iter().any(|name| name.contains("experience")));
    assert!(section_names.iter().any(|name| name.contains("summary")));
}

#[test]
fn test_quality_metrics_calculation() {
    let structure = DocumentParser::analyze_document_structure(SAMPLE_RESUME_TEXT);
    let quality = DocumentParser::calculate_quality_metrics(SAMPLE_RESUME_TEXT, &structure);

    // Test quality score ranges (the overall score is kept as 300 times its value)
    assert!(quality.overall_quality_x300 <= 30000);
    assert!(quality.ats_compatibility_score <= 100);
    assert!(quality.readability_score <= 100);
    assert!(quality.sections_found <= 3);

    // Test that recommendations are provided for improvements
    assert!(!quality.recommendations.is_empty());
}

#[test]
fn quality_metrics_of_complete_resume() {
    let structure = DocumentParser::analyze_document_structure(SAMPLE_RESUME_TEXT);
    let quality = DocumentParser::calculate_quality_metrics(SAMPLE_RESUME_TEXT, &structure);
    assert_eq!(quality.ats_compatibility_score, 100);
    assert_eq!(quality.sections_found, 3);
    assert_eq!(quality.contact_info_completeness, 100);
    // no section is missing; the sentences are short, so readability is 90
    assert_eq!(quality.readability_score, 90);
    assert_eq!(
        quality.recommendations,
        vec!["Improve readability: aim for sentences of 15 to 25 words and words of 4 to 7 letters"]
    );
}

#[test]
fn test_doc_text_extraction() {
    let sample_doc_data = b"PK\x03\x04Microsoft Word Document Text content here\x00\x00Another text chunk\x00";
    let result = DocumentParser::extract_doc_text_simple(sample_doc_data);
    assert!(result.is_ok());
    let text = result.unwrap();
    assert!(text.contains("Text content here"));
    assert!(text.contains("Another text chunk"));
    assert!(!text.contains("Microsoft Word"));
}

#[test]
fn test_doc_cleaning() {
    let dirty_text = "Microsoft Word Normal.dot Some actual content Times New Roman More content";
    let cleaned = DocumentParser::clean_extracted_doc_text(dirty_text);
    assert!(!cleaned.contains("Microsoft Word"));
    assert!(!cleaned.contains("Normal.dot"));
    assert!(!cleaned.contains("Times New Roman"));
    assert!(cleaned.contains("Some actual content"));
    assert!(cleaned.contains("More content"));
}

#[test]
fn test_enhanced_contact_info_extraction() {
    let contact_info = DocumentParser::extract_contact_info_enhanced(SAMPLE_RESUME_TEXT);
    assert!(contact_info.email.is_some());
    assert_eq!(contact_info.email.unwrap(), "john.doe@email.com");
    assert!(contact_info.phone.is_some());
    assert!(contact_info.phone.unwrap().contains("555"));
    assert!(contact_info.linkedin.is_some());
    assert!(contact_info.linkedin.unwrap().contains("johndoe"));
}

#[test]
fn test_heading_detection_and_formatting() {
    let test_content = r#"
EXPERIENCE
This is not a heading
Education
SKILLS AND TECHNOLOGIES
Another regular line
Summary
"#;
    let structure = DocumentParser::analyze_document_structure(test_content);
    assert!(!structure.headings.is_empty());
    let experience_heading = structure.headings.iter().find(|h| h.text.contains("EXPERIENCE"));
    assert!(experience_heading.is_some());
    assert_eq!(experience_heading.unwrap().level, 1);
    let education_heading = structure.headings.iter().find(|h| h.text.contains("Education"));
    assert!(education_heading.is_some());
    assert_eq!(education_heading.unwrap().level, 2);
}

#[test]
fn test_ats_compatibility_scoring() {
    let structure = DocumentParser::analyze_document_structure(SAMPLE_RESUME_TEXT);
    let mut issues = Vec::new();
    let score = DocumentParser::calculate_ats_compatibility(SAMPLE_RESUME_TEXT, &structure, &mut issues);
    assert!(score <= 100);
    let bad_content = "No sections\tHas tabs\nNo email or phone";
    let bad_structure = DocumentParser::analyze_document_structure(bad_content);
    let mut bad_issues = Vec::new();
    let bad_score = DocumentParser::calculate_ats_compatibility(bad_content, &bad_structure, &mut bad_issues);
    assert!(bad_score < score);
    assert!(!bad_issues.is_empty());
}

#[test]
fn test_keyword_density_calculation() {
    let test_content = "I have experience in software development. I managed teams and led projects. I created innovative solutions and implemented best practices.";
    let (keywords, total) = DocumentParser::calculate_keyword_density(test_content);
    assert!(keywords > 0);
    assert!(keywords <= total);
}

#[test]
fn test_section_completeness_scoring() {
    let good_structure = DocumentParser::analyze_document_structure(SAMPLE_RESUME_TEXT);
    let mut recommendations = Vec::new();
    let score = DocumentParser::calculate_section_completeness(&good_structure, &mut recommendations);
    assert!(score > 0);
    let incomplete_content = "John Doe\nSome random content without proper sections";
    let incomplete_structure = DocumentParser::analyze_document_structure(incomplete_content);
    let mut incomplete_recommendations = Vec::new();
    let incomplete_score = DocumentParser::calculate_section_completeness(&incomplete_structure, &mut incomplete_recommendations);
    assert!(incomplete_score < score);
    assert!(!incomplete_recommendations.is_empty());
}

#[test]
fn test_contact_completeness_scoring() {
    let complete_contact = DocumentContactInfo {
        email: Some("test@example.com".to_string()),
        phone: Some("555-123-4567".to_string()),
        linkedin: Some("linkedin.com/in/test".to_string()),
    };
    let mut issues = Vec::new();
    let complete_score = DocumentParser::calculate_contact_completeness(&complete_contact, &mut issues);
    assert_eq!(complete_score, 100);
    assert!(issues.is_empty());
    let incomplete_contact = DocumentContactInfo {
        email: None,
        phone: Some("555-123-4567".to_string()),
        linkedin: None,
    };
    let mut incomplete_issues = Vec::new();
    let incomplete_score = DocumentParser::calculate_contact_completeness(&incomplete_contact, &mut incomplete_issues);
    assert!(incomplete_score < complete_score);
    assert!(!incomplete_issues.is_empty());
}

#[test]
fn test_readability_scoring() {
    let readable_text = "This is a well written document. It has good sentence structure. The words are not too long or complex.";
    let score = DocumentParser::calculate_readability_score(readable_text);
    assert!(score <= 100);
    let unreadable_text = "Thisisaveryverylongwordthatissuperdifficulttoreadeventhoughitcontainsnospaces";
    let bad_score = DocumentParser::calculate_readability_score(unreadable_text);
    assert!(bad_score < score);
}
