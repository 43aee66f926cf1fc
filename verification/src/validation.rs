//! Validation of text that arrives from clients.
//!
//! Lengths are lengths in bytes of the UTF-8 text. Patterns are regular
//! expressions matched by the `regex` crate.

use vstd::prelude::*;
use crate::chars::{is_control, is_control_char};
use crate::json::{json_is_valid, json_parses};
use crate::text::{
    chars_of, is_prefix, lowercase_of, regex_is_match, regex_search, starts_with_chars, string_of,
    suffix_from, to_lowercase, trim, trimmed,
};

verus! {

/// Limits for input validation.
pub struct ValidationConfig {
    /// Most bytes a text field may have.
    pub max_text_length: usize,
    /// Most bytes an email address may have.
    pub max_email_length: usize,
    /// File extensions accepted for uploads, in lower case.
    pub allowed_file_extensions: Vec<String>,
    /// Most bytes an uploaded file may have.
    pub max_file_size: usize,
    /// Whether email addresses are also searched for suspicious content.
    pub strict_mode: bool,
}

/// Validates input against a configuration.
pub struct InputValidator {
    config: ValidationConfig,
}

/// What is wrong with an input.
#[derive(Clone, Copy, Debug, PartialEq, Eq, Structural)]
pub enum ValidationError {
    Empty,
    TooLong,
    InvalidEmailFormat,
    /// The input holds a word of SQL.
    MaliciousContent,
    /// The input holds the start of a script.
    ScriptContent,
    /// A password holds a control character other than tab, line feed or
    /// carriage return.
    InvalidCharacters,
    FileTooLarge,
    FileTypeNotAllowed,
    PathTraversal,
    /// A URL starts with neither `http://` nor `https://`.
    UnsupportedScheme,
    InvalidJson,
}

/// The pattern of an email address.
pub open spec fn strict_email_pattern() -> Seq<char> {
    "^[a-zA-Z0-9.!#$%&'*+/=?^_`{|}~-]+@[a-zA-Z0-9](?:[a-zA-Z0-9-]{0,61}[a-zA-Z0-9])?(?:\\.[a-zA-Z0-9](?:[a-zA-Z0-9-]{0,61}[a-zA-Z0-9])?)*$"@
}

/// The words of SQL that are searched for, in any letter case.
pub open spec fn sql_pattern() -> Seq<char> {
    "(?i)(union|select|insert|update|delete|drop|create|alter|exec|execute)"@
}

/// The start of a script element, in any letter case.
pub open spec fn script_tag_pattern() -> Seq<char> {
    "(?i)<script"@
}

/// The scheme of a script address, in any letter case.
pub open spec fn script_url_pattern() -> Seq<char> {
    "(?i)javascript:"@
}

/// Two dots in a row.
pub open spec fn traversal_pattern() -> Seq<char> {
    "\\.\\."@
}

/// A pattern counts as found unless the matcher says that it is not there.
pub open spec fn pattern_found(pattern: Seq<char>, text: Seq<char>) -> bool {
    regex_search(pattern, text) != Some(false)
}

/// The search of an input for suspicious content: SQL first, scripts second.
pub open spec fn malice_verdict(input: Seq<char>) -> Result<(), ValidationError> {
    if pattern_found(sql_pattern(), input) {
        Err(ValidationError::MaliciousContent)
    } else if pattern_found(script_tag_pattern(), input) || pattern_found(
        script_url_pattern(),
        input,
    ) {
        Err(ValidationError::ScriptContent)
    } else {
        Ok(())
    }
}

/// What follows the last `.` of a name; the whole name where it has none.
pub open spec fn after_last_dot(name: Seq<char>) -> Seq<char>
    decreases name.len(),
{
    if name.len() == 0 {
        Seq::empty()
    } else if name.last() == '.' {
        Seq::empty()
    } else {
        after_last_dot(name.drop_last()).push(name.last())
    }
}

/// Whether a list of extensions holds the given one.
pub open spec fn extension_listed(allowed: Seq<String>, extension: Seq<char>) -> bool {
    exists|i: int| 0 <= i < allowed.len() && (#[trigger] allowed[i])@ == extension
}

/// A character that sanitizing keeps: anything but a control character, and
/// among those tab, line feed and carriage return.
pub open spec fn kept_by_sanitizing(c: char) -> bool {
    !is_control_char(c) || c == '\t' || c == '\n' || c == '\r'
}

/// The characters of a text that sanitizing keeps, in order.
pub open spec fn without_controls(text: Seq<char>) -> Seq<char>
    decreases text.len(),
{
    if text.len() == 0 {
        Seq::empty()
    } else if kept_by_sanitizing(text.last()) {
        without_controls(text.drop_last()).push(text.last())
    } else {
        without_controls(text.drop_last())
    }
}

/// Whether a text holds a character that a password may not hold.
pub open spec fn has_forbidden_control(text: Seq<char>) -> bool {
    exists|i: int| 0 <= i < text.len() && !kept_by_sanitizing(#[trigger] text[i])
}

proof fn lemma_after_last_dot(name: Seq<char>, from: int)
    requires
        0 <= from <= name.len(),
        from > 0 ==> name[from - 1] == '.',
        forall|j: int| from <= j < name.len() ==> name[j] != '.',
    ensures
        after_last_dot(name) == name.subrange(from, name.len() as int),
    decreases name.len() - from,
{
    if name.len() == 0 {
    } else if from == name.len() {
        if from > 0 {
            assert(name.last() == '.');
        }
    } else {
        let shorter = name.drop_last();
        lemma_after_last_dot(shorter, from);
        assert(shorter.subrange(from, shorter.len() as int).push(name.last()) == name.subrange(
            from,
            name.len() as int,
        ));
    }
}

fn pattern_present(pattern: &str, text: &str) -> (found: bool)
    ensures
        found == pattern_found(pattern@, text@),
{
    match regex_is_match(pattern, text) {
        Some(false) => false,
        _ => true,
    }
}

fn extension(filename: &str) -> (ext: String)
    ensures
        ext@ == lowercase_of(after_last_dot(filename@)),
{
    let chars = chars_of(filename);
    let mut from: usize = chars.len();
    while from > 0 && chars[from - 1] != '.'
        invariant
            from <= chars.len(),
            forall|j: int| from <= j < chars.len() ==> chars@[j] != '.',
        decreases from,
    {
        from -= 1;
    }
    proof {
        lemma_after_last_dot(chars@, from as int);
    }
    let rest = suffix_from(&chars, from);
    let raw = string_of(&rest);
    to_lowercase(raw.as_str())
}

fn listed(allowed: &Vec<String>, ext: &String) -> (found: bool)
    ensures
        found == extension_listed(allowed@, ext@),
{
    let mut i: usize = 0;
    while i < allowed.len()
        invariant
            i <= allowed.len(),
            forall|j: int| 0 <= j < i ==> (#[trigger] allowed@[j])@ != ext@,
        decreases allowed.len() - i,
    {
        if allowed[i].eq(ext) {
            return true;
        }
        i += 1;
    }
    false
}

fn holds_forbidden_control(chars: &Vec<char>) -> (found: bool)
    ensures
        found == has_forbidden_control(chars@),
{
    let mut i: usize = 0;
    while i < chars.len()
        invariant
            i <= chars.len(),
            forall|j: int| 0 <= j < i ==> kept_by_sanitizing(#[trigger] chars@[j]),
        decreases chars.len() - i,
    {
        let c = chars[i];
        if is_control(c) && c != '\t' && c != '\n' && c != '\r' {
            return true;
        }
        i += 1;
    }
    false
}

impl ValidationConfig {
    /// The limits for production: 1000 bytes of text, 254 of email, uploads of
    /// `jpg`, `jpeg`, `png` and `pdf` up to 10 MiB, strict mode.
    pub fn production_config() -> (config: Self)
        ensures
            config.max_text_length == 1000,
            config.max_email_length == 254,
            config.max_file_size == 10 * 1024 * 1024,
            config.strict_mode,
            config.allowed_file_extensions@.len() == 4,
            config.allowed_file_extensions@[0]@ == "jpg"@,
            config.allowed_file_extensions@[1]@ == "jpeg"@,
            config.allowed_file_extensions@[2]@ == "png"@,
            config.allowed_file_extensions@[3]@ == "pdf"@,
    {
        let mut allowed: Vec<String> = Vec::new();
        allowed.push("jpg".to_owned());
        allowed.push("jpeg".to_owned());
        allowed.push("png".to_owned());
        allowed.push("pdf".to_owned());
        ValidationConfig {
            max_text_length: 1000,
            max_email_length: 254,
            allowed_file_extensions: allowed,
            max_file_size: 10 * 1024 * 1024,
            strict_mode: true,
        }
    }

    /// The limits for development: as in production, but 5000 bytes of text and
    /// no strict mode.
    pub fn development_config() -> (config: Self)
        ensures
            config.max_text_length == 5000,
            config.max_email_length == 254,
            config.max_file_size == 10 * 1024 * 1024,
            !config.strict_mode,
            config.allowed_file_extensions@.len() == 4,
            config.allowed_file_extensions@[0]@ == "jpg"@,
            config.allowed_file_extensions@[1]@ == "jpeg"@,
            config.allowed_file_extensions@[2]@ == "png"@,
            config.allowed_file_extensions@[3]@ == "pdf"@,
    {
        let mut config = ValidationConfig::production_config();
        config.strict_mode = false;
        config.max_text_length = 5000;
        config
    }
}

impl Default for ValidationConfig {
    fn default() -> (config: Self)
        ensures
            config.max_text_length == 1000,
            config.max_email_length == 254,
            config.max_file_size == 10 * 1024 * 1024,
            config.strict_mode,
            config.allowed_file_extensions@.len() == 4,
    {
        ValidationConfig::production_config()
    }
}

impl InputValidator {
    /// The limits in force.
    pub closed spec fn limits(&self) -> ValidationConfig {
        self.config
    }

    /// What `validate_email` decides.
    pub open spec fn email_verdict(&self, email: &str) -> Result<(), ValidationError> {
        if email@.len() == 0 {
            Err(ValidationError::Empty)
        } else if email.len() > self.limits().max_email_length {
            Err(ValidationError::TooLong)
        } else if regex_search(strict_email_pattern(), email@) != Some(true) {
            Err(ValidationError::InvalidEmailFormat)
        } else if self.limits().strict_mode {
            malice_verdict(email@)
        } else {
            Ok(())
        }
    }

    /// What `validate_file_upload` decides.
    pub open spec fn upload_verdict(&self, filename: &str, file_size: usize) -> Result<
        (),
        ValidationError,
    > {
        if filename@.len() == 0 {
            Err(ValidationError::Empty)
        } else if file_size > self.limits().max_file_size {
            Err(ValidationError::FileTooLarge)
        } else if !extension_listed(
            self.limits().allowed_file_extensions@,
            lowercase_of(after_last_dot(filename@)),
        ) {
            Err(ValidationError::FileTypeNotAllowed)
        } else if pattern_found(traversal_pattern(), filename@) {
            Err(ValidationError::PathTraversal)
        } else {
            Ok(())
        }
    }

    /// What `validate_url` decides.
    pub open spec fn url_verdict(&self, url: &str) -> Result<(), ValidationError> {
        if url@.len() == 0 {
            Err(ValidationError::Empty)
        } else if url.len() > 2048 {
            Err(ValidationError::TooLong)
        } else if !is_prefix("http://"@, url@) && !is_prefix("https://"@, url@) {
            Err(ValidationError::UnsupportedScheme)
        } else {
            malice_verdict(url@)
        }
    }

    /// A validator for the given limits.
    pub fn new(config: ValidationConfig) -> (validator: Self)
        ensures
            validator.limits() == config,
    {
        InputValidator { config }
    }

    /// Searches an input for words of SQL and for the start of a script.
    pub fn check_malicious_patterns(&self, input: &str) -> (verdict: Result<(), ValidationError>)
        ensures
            verdict == malice_verdict(input@),
    {
        if pattern_present(
            "(?i)(union|select|insert|update|delete|drop|create|alter|exec|execute)",
            input,
        ) {
            return Err(ValidationError::MaliciousContent);
        }
        if pattern_present("(?i)<script", input) || pattern_present("(?i)javascript:", input) {
            return Err(ValidationError::ScriptContent);
        }
        Ok(())
    }

    /// Searches an input for `..`.
    pub fn check_path_traversal(&self, input: &str) -> (verdict: Result<(), ValidationError>)
        ensures
            verdict == (if pattern_found(traversal_pattern(), input@) {
                Err::<(), ValidationError>(ValidationError::PathTraversal)
            } else {
                Ok::<(), ValidationError>(())
            }),
    {
        if pattern_present("\\.\\.", input) {
            Err(ValidationError::PathTraversal)
        } else {
            Ok(())
        }
    }

    /// Validates an email address: not empty, within the length limit, of the
    /// right form, and in strict mode free of suspicious content.
    pub fn validate_email(&self, email: &str) -> (verdict: Result<(), ValidationError>)
        ensures
            verdict == self.email_verdict(email),
    {
        if email.is_empty() {
            return Err(ValidationError::Empty);
        }
        if email.len() > self.config.max_email_length {
            return Err(ValidationError::TooLong);
        }
        match regex_is_match(
            "^[a-zA-Z0-9.!#$%&'*+/=?^_`{|}~-]+@[a-zA-Z0-9](?:[a-zA-Z0-9-]{0,61}[a-zA-Z0-9])?(?:\\.[a-zA-Z0-9](?:[a-zA-Z0-9-]{0,61}[a-zA-Z0-9])?)*$",
            email,
        ) {
            Some(true) => {},
            _ => {
                return Err(ValidationError::InvalidEmailFormat);
            },
        }
        if self.config.strict_mode {
            self.check_malicious_patterns(email)
        } else {
            Ok(())
        }
    }

    /// Validates the text of the field called `field_name`: within the length
    /// limit and free of suspicious content. The name plays no part in the
    /// decision.
    pub fn validate_text(&self, text: &str, field_name: &str) -> (verdict: Result<
        (),
        ValidationError,
    >)
        ensures
            verdict == (if text.len() > self.limits().max_text_length {
                Err::<(), ValidationError>(ValidationError::TooLong)
            } else {
                malice_verdict(text@)
            }),
    {
        if text.len() > self.config.max_text_length {
            return Err(ValidationError::TooLong);
        }
        self.check_malicious_patterns(text)
    }

    /// Validates a password as input, before any policy: not empty, at most 128
    /// bytes, no control characters but tab, line feed and carriage return.
    pub fn validate_password_input(&self, password: &str) -> (verdict: Result<(), ValidationError>)
        ensures
            verdict == (if password@.len() == 0 {
                Err::<(), ValidationError>(ValidationError::Empty)
            } else if password.len() > 128 {
                Err::<(), ValidationError>(ValidationError::TooLong)
            } else if has_forbidden_control(password@) {
                Err::<(), ValidationError>(ValidationError::InvalidCharacters)
            } else {
                Ok::<(), ValidationError>(())
            }),
    {
        if password.is_empty() {
            return Err(ValidationError::Empty);
        }
        if password.len() > 128 {
            return Err(ValidationError::TooLong);
        }
        let chars = chars_of(password);
        if holds_forbidden_control(&chars) {
            return Err(ValidationError::InvalidCharacters);
        }
        Ok(())
    }

    /// Validates an upload by its name and size: a name, a size within the
    /// limit, an accepted extension (what follows the last dot, in lower case),
    /// and no `..` in the name.
    pub fn validate_file_upload(&self, filename: &str, file_size: usize) -> (verdict: Result<
        (),
        ValidationError,
    >)
        ensures
            verdict == self.upload_verdict(filename, file_size),
    {
        if filename.is_empty() {
            return Err(ValidationError::Empty);
        }
        if file_size > self.config.max_file_size {
            return Err(ValidationError::FileTooLarge);
        }
        let ext = extension(filename);
        if !listed(&self.config.allowed_file_extensions, &ext) {
            return Err(ValidationError::FileTypeNotAllowed);
        }
        self.check_path_traversal(filename)
    }

    /// Validates a URL: not empty, at most 2048 bytes, `http` or `https`, and
    /// free of suspicious content.
    pub fn validate_url(&self, url: &str) -> (verdict: Result<(), ValidationError>)
        ensures
            verdict == self.url_verdict(url),
    {
        if url.is_empty() {
            return Err(ValidationError::Empty);
        }
        if url.len() > 2048 {
            return Err(ValidationError::TooLong);
        }
        let chars = chars_of(url);
        let plain = chars_of("http://");
        let secure = chars_of("https://");
        if !starts_with_chars(&chars, &plain) && !starts_with_chars(&chars, &secure) {
            return Err(ValidationError::UnsupportedScheme);
        }
        self.check_malicious_patterns(url)
    }

    /// Removes control characters other than tab, line feed and carriage
    /// return, then trims.
    pub fn sanitize_text(&self, input: &str) -> (clean: String)
        ensures
            clean@ == trimmed(without_controls(input@)),
    {
        let chars = chars_of(input);
        let mut kept: Vec<char> = Vec::new();
        let mut i: usize = 0;
        while i < chars.len()
            invariant
                i <= chars.len(),
                kept@ == without_controls(chars@.subrange(0, i as int)),
            decreases chars.len() - i,
        {
            let c = chars[i];
            proof {
                let next = chars@.subrange(0, i + 1);
                assert(next.drop_last() == chars@.subrange(0, i as int));
                assert(next.last() == c);
            }
            if !is_control(c) || c == '\t' || c == '\n' || c == '\r' {
                kept.push(c);
            }
            i += 1;
        }
        assert(chars@.subrange(0, chars.len() as int) == chars@);
        let filtered = string_of(&kept);
        trim(filtered.as_str()).to_owned()
    }

    /// Validates JSON text: within the size limit (1 MiB unless another is
    /// given), well-formed, and free of suspicious content.
    pub fn validate_json(&self, json_str: &str, max_size: Option<usize>) -> (verdict: Result<
        (),
        ValidationError,
    >)
        ensures
            verdict == (if json_str.len() > (match max_size {
                Some(n) => n,
                None => 1_048_576usize,
            }) {
                Err::<(), ValidationError>(ValidationError::TooLong)
            } else if !json_is_valid(json_str@) {
                Err::<(), ValidationError>(ValidationError::InvalidJson)
            } else {
                malice_verdict(json_str@)
            }),
    {
        let limit = match max_size {
            Some(n) => n,
            None => 1024 * 1024,
        };
        if json_str.len() > limit {
            return Err(ValidationError::TooLong);
        }
        if !json_parses(json_str) {
            return Err(ValidationError::InvalidJson);
        }
        self.check_malicious_patterns(json_str)
    }

    /// Validates a user agent string: at most 512 bytes and free of suspicious
    /// content.
    pub fn validate_user_agent(&self, user_agent: &str) -> (verdict: Result<(), ValidationError>)
        ensures
            verdict == (if user_agent.len() > 512 {
                Err::<(), ValidationError>(ValidationError::TooLong)
            } else {
                malice_verdict(user_agent@)
            }),
    {
        if user_agent.len() > 512 {
            return Err(ValidationError::TooLong);
        }
        self.check_malicious_patterns(user_agent)
    }
}

/// Sanitizing leaves no control character but tab, line feed and carriage
/// return, and never makes a text longer.
pub proof fn sanitizing_removes_controls(text: Seq<char>)
    ensures
        without_controls(text).len() <= text.len(),
        forall|i: int|
            0 <= i < without_controls(text).len() ==> kept_by_sanitizing(
                #[trigger] without_controls(text)[i],
            ),
        !has_forbidden_control(without_controls(text)),
    decreases text.len(),
{
    if text.len() > 0 {
        sanitizing_removes_controls(text.drop_last());
    }
}

} // verus!
