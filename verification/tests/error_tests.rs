use ats_scanner::errors::{ATSError, ErrorCategory, ErrorSeverity, IntoATSError};

#[test]
fn test_error_codes() {
    assert_eq!(ATSError::database("test").error_code(), "DATABASE_ERROR");
    assert_eq!(ATSError::document_parsing("test").error_code(), "DOCUMENT_ERROR");
    assert_eq!(ATSError::security("test").error_code(), "SECURITY_ERROR");
}

#[test]
fn test_error_severity() {
    assert!(matches!(ATSError::security("test").severity(), ErrorSeverity::Critical));
    assert!(matches!(ATSError::database("test").severity(), ErrorSeverity::High));
    assert!(matches!(ATSError::validation("test").severity(), ErrorSeverity::Low));
}

#[test]
fn test_error_conversion() {
    let io_error = std::io::Error::new(std::io::ErrorKind::NotFound, "File not found");
    let result: std::result::Result<(), _> = Err(io_error);
    let ats_result = result.into_file_error("Failed to read file");
    assert!(ats_result.is_err());
    if let Err(ats_error) = ats_result {
        assert_eq!(ats_error.error_code(), "FILE_ERROR");
    }
}

#[test]
fn conversion_with_error_text() {
    let io_error = std::io::Error::new(std::io::ErrorKind::NotFound, "File not found");
    let result: std::result::Result<(), _> = Err(io_error);
    let ats_result = result.into_document_error("Failed to parse");
    match ats_result {
        Err(e) => {
            assert_eq!(e.error_code(), "DOCUMENT_ERROR");
            assert_eq!(e.message(), "Failed to parse: File not found");
        }
        Ok(_) => panic!("expected an error"),
    }
    let ok: std::result::Result<u32, std::io::Error> = Ok(7);
    assert!(matches!(ok.into_file_error("unused"), Ok(7)));
}

#[test]
fn error_codes_and_severities_of_every_category() {
    let cases: Vec<(ATSError, &str, ErrorSeverity)> = vec![
        (ATSError::ollama_api("x"), "OLLAMA_ERROR", ErrorSeverity::Medium),
        (ATSError::configuration("x"), "CONFIG_ERROR", ErrorSeverity::High),
        (ATSError::file_operation("x"), "FILE_ERROR", ErrorSeverity::Medium),
        (ATSError::memory("x"), "MEMORY_ERROR", ErrorSeverity::High),
        (ATSError::plugin("x"), "PLUGIN_ERROR", ErrorSeverity::Medium),
        (ATSError::migration("x"), "MIGRATION_ERROR", ErrorSeverity::High),
        (ATSError::external_service("x"), "EXTERNAL_SERVICE_ERROR", ErrorSeverity::Medium),
    ];
    for (e, code, sev) in cases {
        assert_eq!(e.error_code(), code);
        assert_eq!(e.severity(), sev);
        assert_eq!(e.message(), "x");
    }
}

#[test]
fn messages_are_classified_by_keywords() {
    assert!(matches!(ATSError::classify_message("SQL syntax"), Some(ErrorCategory::Database)));
    assert!(matches!(ATSError::classify_message("IO failure"), Some(ErrorCategory::FileOperation)));
    assert!(matches!(ATSError::classify_message("Security alert"), Some(ErrorCategory::Security)));
    // "permission" holds "io", which is checked first
    assert!(matches!(ATSError::classify_message("Permission denied"), Some(ErrorCategory::FileOperation)));
    assert!(matches!(ATSError::classify_message("bad config"), Some(ErrorCategory::Configuration)));
    assert!(matches!(ATSError::classify_message("out of memory"), Some(ErrorCategory::Memory)));
    assert!(ATSError::classify_message("something else").is_none());
    let e = ATSError::from_anyhow(anyhow::Error::msg("database is locked"));
    assert_eq!(e.error_code(), "DATABASE_ERROR");
    let e = ATSError::from_anyhow(anyhow::Error::msg("weird"));
    assert_eq!(e.error_code(), "DOCUMENT_ERROR");
    assert_eq!(e.message(), "Unknown error");
}

#[test]
fn errors_are_shown_with_their_category() {
    assert_eq!(ATSError::database("no table").display_text(), "Database operation failed: no table");
    assert_eq!(ATSError::security("bad path").display_text(), "Security violation: bad path");
    assert_eq!(ATSError::external_service("down").display_text(), "External service error: down");
}
