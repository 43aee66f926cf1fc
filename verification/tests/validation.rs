use mabar_backend::validation::{InputValidator, ValidationConfig, ValidationError};

#[test]
fn test_email_validation() {
    let validator = InputValidator::new(ValidationConfig::default());

    assert!(validator.validate_email("test@example.com").is_ok());
    assert!(validator.validate_email("invalid-email").is_err());
    assert!(validator.validate_email("").is_err());
}

#[test]
fn test_malicious_pattern_detection() {
    let validator = InputValidator::new(ValidationConfig::default());

    assert!(validator.validate_text("SELECT * FROM users", "input").is_err());
    assert!(validator.validate_text("<script>alert('xss')</script>", "input").is_err());
    assert!(validator.validate_text("normal text", "input").is_ok());
}

#[test]
fn test_file_validation() {
    let validator = InputValidator::new(ValidationConfig::default());

    assert!(validator.validate_file_upload("test.jpg", 1000).is_ok());
    assert!(validator.validate_file_upload("test.exe", 1000).is_err());
    assert!(validator.validate_file_upload("../../../etc/passwd", 1000).is_err());
}

fn strict() -> InputValidator {
    InputValidator::new(ValidationConfig::production_config())
}

fn lenient() -> InputValidator {
    InputValidator::new(ValidationConfig::development_config())
}

#[test]
fn configurations() {
    let p = ValidationConfig::production_config();
    assert_eq!(p.max_text_length, 1000);
    assert_eq!(p.max_email_length, 254);
    assert_eq!(p.max_file_size, 10 * 1024 * 1024);
    assert!(p.strict_mode);
    assert_eq!(p.allowed_file_extensions, vec!["jpg", "jpeg", "png", "pdf"]);
    let d = ValidationConfig::development_config();
    assert_eq!(d.max_text_length, 5000);
    assert_eq!(d.max_email_length, 254);
    assert!(!d.strict_mode);
    assert_eq!(d.allowed_file_extensions, vec!["jpg", "jpeg", "png", "pdf"]);
    assert_eq!(ValidationConfig::default().max_text_length, 1000);
}

#[test]
fn email_errors_by_kind() {
    let v = strict();
    assert_eq!(v.validate_email(""), Err(ValidationError::Empty));
    let long = format!("{}@example.com", "a".repeat(243));
    assert_eq!(long.len(), 255);
    assert_eq!(v.validate_email(&long), Err(ValidationError::TooLong));
    assert_eq!(v.validate_email("invalid-email"), Err(ValidationError::InvalidEmailFormat));
    assert_eq!(v.validate_email("a@-b.com"), Err(ValidationError::InvalidEmailFormat));
    assert_eq!(v.validate_email("a@b"), Ok(()));
    assert_eq!(v.validate_email("select@example.com"), Err(ValidationError::MaliciousContent));
    assert_eq!(lenient().validate_email("select@example.com"), Ok(()));
    assert_eq!(v.validate_email("o'brien@example.com"), Ok(()));
}

#[test]
fn text_limits_and_patterns() {
    let v = strict();
    assert_eq!(v.validate_text(&"a".repeat(1000), "bio"), Ok(()));
    assert_eq!(v.validate_text(&"a".repeat(1001), "bio"), Err(ValidationError::TooLong));
    assert_eq!(lenient().validate_text(&"a".repeat(1001), "bio"), Ok(()));
    assert_eq!(lenient().validate_text(&"a".repeat(5001), "bio"), Err(ValidationError::TooLong));
    // bytes, not characters
    assert_eq!(v.validate_text(&"é".repeat(501), "bio"), Err(ValidationError::TooLong));
    assert_eq!(v.validate_text("Drop by later", "bio"), Err(ValidationError::MaliciousContent));
    assert_eq!(v.validate_text("<SCRIPT>", "bio"), Err(ValidationError::ScriptContent));
    assert_eq!(v.validate_text("JavaScript:void(0)", "bio"), Err(ValidationError::ScriptContent));
    assert_eq!(v.validate_text("select <script", "bio"), Err(ValidationError::MaliciousContent));
    assert_eq!(v.check_malicious_patterns("plain"), Ok(()));
    assert_eq!(v.check_path_traversal("a/../b"), Err(ValidationError::PathTraversal));
    assert_eq!(v.check_path_traversal("a/./b"), Ok(()));
}

#[test]
fn password_input() {
    let v = strict();
    assert_eq!(v.validate_password_input(""), Err(ValidationError::Empty));
    assert_eq!(v.validate_password_input(&"a".repeat(129)), Err(ValidationError::TooLong));
    assert_eq!(v.validate_password_input(&"a".repeat(128)), Ok(()));
    assert_eq!(v.validate_password_input("a\0b"), Err(ValidationError::InvalidCharacters));
    assert_eq!(v.validate_password_input("a\u{7}b"), Err(ValidationError::InvalidCharacters));
    assert_eq!(v.validate_password_input("a\u{7f}b"), Err(ValidationError::InvalidCharacters));
    assert_eq!(v.validate_password_input("a\u{85}b"), Err(ValidationError::InvalidCharacters));
    assert_eq!(v.validate_password_input("a\tb\nc\rd"), Ok(()));
    assert_eq!(v.validate_password_input("select"), Ok(()));
}

#[test]
fn uploads() {
    let v = strict();
    assert_eq!(v.validate_file_upload("", 1), Err(ValidationError::Empty));
    assert_eq!(
        v.validate_file_upload("a.jpg", 10 * 1024 * 1024 + 1),
        Err(ValidationError::FileTooLarge)
    );
    assert_eq!(v.validate_file_upload("a.jpg", 10 * 1024 * 1024), Ok(()));
    assert_eq!(v.validate_file_upload("a.JPG", 1), Ok(()));
    assert_eq!(v.validate_file_upload("a.tar.pdf", 1), Ok(()));
    assert_eq!(v.validate_file_upload("a.pdf.exe", 1), Err(ValidationError::FileTypeNotAllowed));
    assert_eq!(v.validate_file_upload("jpg", 1), Ok(()));
    assert_eq!(v.validate_file_upload("noextension", 1), Err(ValidationError::FileTypeNotAllowed));
    assert_eq!(v.validate_file_upload("a.", 1), Err(ValidationError::FileTypeNotAllowed));
    assert_eq!(v.validate_file_upload("..png", 1), Err(ValidationError::PathTraversal));
    assert_eq!(v.validate_file_upload("a..b.png", 1), Err(ValidationError::PathTraversal));
    assert_eq!(v.validate_file_upload("test.exe", 1000), Err(ValidationError::FileTypeNotAllowed));
    assert_eq!(
        v.validate_file_upload("../../../etc/passwd", 1000),
        Err(ValidationError::FileTypeNotAllowed)
    );
}

#[test]
fn urls() {
    let v = strict();
    assert_eq!(v.validate_url(""), Err(ValidationError::Empty));
    assert_eq!(v.validate_url("ftp://example.com"), Err(ValidationError::UnsupportedScheme));
    assert_eq!(v.validate_url("http:/example.com"), Err(ValidationError::UnsupportedScheme));
    assert_eq!(v.validate_url("HTTP://example.com"), Err(ValidationError::UnsupportedScheme));
    assert_eq!(v.validate_url("http://example.com"), Ok(()));
    assert_eq!(v.validate_url("https://example.com/a?b=c"), Ok(()));
    assert_eq!(v.validate_url("https://example.com/?q=select"), Err(ValidationError::MaliciousContent));
    let long = format!("https://example.com/{}", "a".repeat(2029));
    assert_eq!(long.len(), 2049);
    assert_eq!(v.validate_url(&long), Err(ValidationError::TooLong));
}

#[test]
fn sanitizing() {
    let v = strict();
    assert_eq!(v.sanitize_text("  hello\u{0}\u{7} world \n"), "hello world");
    assert_eq!(v.sanitize_text("a\tb\nc\rd"), "a\tb\nc\rd");
    assert_eq!(v.sanitize_text("\u{1b}[31mred\u{1b}[0m"), "[31mred[0m");
    assert_eq!(v.sanitize_text(""), "");
    assert_eq!(v.sanitize_text(" \u{9f} "), "");
    // a no-break space is whitespace and is trimmed; inside the text it stays
    assert_eq!(v.sanitize_text("é\u{a0}"), "é");
    assert_eq!(v.sanitize_text("é\u{a0}è"), "é\u{a0}è");
}

#[test]
fn json_and_user_agent() {
    let v = strict();
    assert_eq!(v.validate_json(r#"{"a":[1,2,{"b":null}]}"#, None), Ok(()));
    assert_eq!(v.validate_json("{", None), Err(ValidationError::InvalidJson));
    assert_eq!(v.validate_json("", None), Err(ValidationError::InvalidJson));
    assert_eq!(v.validate_json(r#"{"a":1}"#, Some(6)), Err(ValidationError::TooLong));
    assert_eq!(v.validate_json(r#"{"a":1}"#, Some(7)), Ok(()));
    assert_eq!(v.validate_json(r#"{"q":"delete"}"#, None), Err(ValidationError::MaliciousContent));
    assert_eq!(v.validate_json(&" ".repeat(1024 * 1024 + 1), None), Err(ValidationError::TooLong));
    assert_eq!(v.validate_user_agent("Mozilla/5.0"), Ok(()));
    assert_eq!(v.validate_user_agent(&"a".repeat(513)), Err(ValidationError::TooLong));
    assert_eq!(v.validate_user_agent("<script>"), Err(ValidationError::ScriptContent));
}
