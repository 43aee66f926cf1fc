//! The configuration of a deployment, built from the variables of its
//! environment and validated against the rules of that environment.
//!
//! Nothing here reads the process environment: the caller collects the
//! variables and hands them in.

use vstd::prelude::*;
use crate::text::{
    all_digits, chars_of, digits_value, join_text, read_digits, str_equals, string_of, suffix_from,
    trim, trimmed,
};

verus! {

/// The text without a leading `+`.
pub open spec fn unsigned_part(text: Seq<char>) -> Seq<char> {
    if text.len() > 0 && text[0] == '+' {
        text.subrange(1, text.len() as int)
    } else {
        text
    }
}

/// The 16-bit number that a text denotes: an optional `+`, then one or more
/// decimal digits whose value is at most 65535. Anything else, whitespace
/// included, denotes none.
pub open spec fn parsed_u16(text: Seq<char>) -> Option<u16> {
    let digits = unsigned_part(text);
    if digits.len() > 0 && all_digits(digits) && digits_value(digits) <= 65535 {
        Some(digits_value(digits) as u16)
    } else {
        None
    }
}

/// Reads a 16-bit number from decimal text, as `str::parse::<u16>` does.
pub fn parse_u16(text: &str) -> (number: Option<u16>)
    ensures
        number == parsed_u16(text@),
{
    let chars = chars_of(text);
    let start: usize = if chars.len() > 0 && chars[0] == '+' {
        1
    } else {
        0
    };
    let digits = suffix_from(&chars, start);
    assert(digits@ == unsigned_part(text@));
    match read_digits(&digits, 65535) {
        Some(value) => Some(value as u16),
        None => None,
    }
}

/// The variables of an environment, as pairs of name and value. Where a name
/// occurs more than once, its first value counts.
pub struct Environment {
    pub variables: Vec<(String, String)>,
}

/// How the server presents itself and where it listens.
#[derive(Debug)]
pub struct AppConfig {
    pub name: String,
    pub version: String,
    pub host: String,
    pub port: u16,
    pub base_url: String,
    pub frontend_url: String,
    pub debug_mode: bool,
    pub maintenance_mode: bool,
}

/// How the document store is reached.
#[derive(Debug)]
pub struct DatabaseConfig {
    pub uri: String,
    pub name: String,
    pub pool_size: u32,
    pub timeout_seconds: u64,
    pub ssl_enabled: bool,
    pub backup_enabled: bool,
}

/// The password rules of a deployment.
#[derive(Clone, Copy, Debug, PartialEq, Eq, Structural)]
pub struct PasswordPolicyConfig {
    pub min_length: usize,
    pub require_uppercase: bool,
    pub require_lowercase: bool,
    pub require_numbers: bool,
    pub require_special: bool,
    pub min_strength_score: u8,
    pub history_length: usize,
    pub max_age_days: i64,
}

/// How sessions are kept.
#[derive(Debug)]
pub struct SessionConfigData {
    pub timeout_minutes: i64,
    pub max_concurrent: usize,
    pub secure_cookies: bool,
    pub same_site: String,
}

/// How requests are limited.
#[derive(Debug)]
pub struct RateLimitingConfig {
    pub enabled: bool,
    pub requests_per_minute: u32,
    pub burst_size: u32,
    pub whitelist_ips: Vec<String>,
}

/// Secrets and security rules.
#[derive(Debug)]
pub struct SecurityConfig {
    pub jwt_secret: String,
    pub jwt_expiry: String,
    pub encryption_key: String,
    pub password_policy: PasswordPolicyConfig,
    pub session_config: SessionConfigData,
    pub rate_limiting: RateLimitingConfig,
    pub cors_origins: Vec<String>,
    pub csrf_protection: bool,
    pub security_headers: bool,
}

/// Where and how the server logs.
#[derive(Debug)]
pub struct LoggingConfig {
    pub level: String,
    pub format: String,
    pub file_enabled: bool,
    pub file_path: String,
    pub rotation_size: String,
    pub retention_days: u32,
    pub structured_logging: bool,
}

/// What is monitored.
#[derive(Clone, Copy, Debug, PartialEq, Eq, Structural)]
pub struct MonitoringConfig {
    pub metrics_enabled: bool,
    pub health_check_enabled: bool,
    pub performance_monitoring: bool,
    pub error_tracking: bool,
    pub audit_logging: bool,
}

/// Which features are switched on.
#[derive(Clone, Copy, Debug, PartialEq, Eq, Structural)]
pub struct FeatureFlags {
    pub oauth_enabled: bool,
    pub mfa_enabled: bool,
    pub email_verification: bool,
    pub password_reset: bool,
    pub user_registration: bool,
    pub admin_panel: bool,
    pub api_versioning: bool,
}

/// The whole configuration of a deployment.
#[derive(Debug)]
pub struct EnvironmentConfig {
    /// `development`, `staging` or `production`.
    pub environment: String,
    pub app: AppConfig,
    pub database: DatabaseConfig,
    pub security: SecurityConfig,
    pub logging: LoggingConfig,
    pub monitoring: MonitoringConfig,
    pub features: FeatureFlags,
}

/// The credentials of the administrator that a deployment starts with.
#[derive(Debug)]
pub struct AdminCredentialsConfig {
    pub email: String,
    pub password: String,
    pub encrypted: bool,
    pub rotation_required: bool,
}

/// A variable that production does not start without.
#[derive(Clone, Copy, Debug, PartialEq, Eq, Structural)]
pub enum RequiredVariable {
    BackendBaseUrl,
    FrontendBaseUrl,
    MongodbUri,
    JwtSecret,
    EncryptionMasterKey,
    AdminEmail,
    AdminPassword,
}

/// Why a configuration could not be built or is not acceptable.
#[derive(Clone, Copy, Debug, PartialEq, Eq, Structural)]
pub enum ConfigError {
    UnknownEnvironment,
    InvalidPort,
    Missing(RequiredVariable),
    /// The signing secret is shorter than the environment asks: 32 bytes in
    /// production, 16 in staging.
    JwtSecretTooShort,
    /// The encryption key is shorter than 32 bytes in production.
    EncryptionKeyTooShort,
    /// Production runs with database TLS switched off.
    SslRequired,
    /// Production runs with CSRF protection switched off.
    CsrfRequired,
}

/// The value of a variable: that of the first pair with the name.
pub open spec fn variable(variables: Seq<(String, String)>, name: Seq<char>) -> Option<Seq<char>>
    decreases variables.len(),
{
    if variables.len() == 0 {
        None
    } else if variables[0].0@ == name {
        Some(variables[0].1@)
    } else {
        variable(variables.drop_first(), name)
    }
}

/// The value of a variable, or a default where it is not set.
pub open spec fn variable_or(variables: Seq<(String, String)>, name: Seq<char>, default: Seq<char>) -> Seq<
    char,
> {
    match variable(variables, name) {
        Some(value) => value,
        None => default,
    }
}

/// The port as text: `BACKEND_PORT`, else `PORT`, else `5000`.
pub open spec fn port_text(variables: Seq<(String, String)>) -> Seq<char> {
    match variable(variables, "BACKEND_PORT"@) {
        Some(value) => value,
        None => variable_or(variables, "PORT"@, "5000"@),
    }
}

/// The database a connection string names: what stands between its last `/`
/// and the first `?` after it; `mabar` for a string without `/`.
pub open spec fn db_name_of(uri: Seq<char>) -> Seq<char> {
    if !uri.contains('/') {
        "mabar"@
    } else {
        let tail = after_last_slash(uri);
        before_first_question(tail)
    }
}

/// What follows the last `/`.
pub open spec fn after_last_slash(s: Seq<char>) -> Seq<char>
    decreases s.len(),
{
    if s.len() == 0 {
        Seq::empty()
    } else if s.last() == '/' {
        Seq::empty()
    } else {
        after_last_slash(s.drop_last()).push(s.last())
    }
}

/// What stands before the first `?`; everything where there is none.
pub open spec fn before_first_question(s: Seq<char>) -> Seq<char>
    decreases s.len(),
{
    if s.len() == 0 {
        Seq::empty()
    } else if s[0] == '?' {
        Seq::empty()
    } else {
        seq![s[0]] + before_first_question(s.drop_first())
    }
}

/// The fields of a comma-separated text, as they stand between the commas.
pub open spec fn fields(text: Seq<char>) -> Seq<Seq<char>>
    decreases text.len(),
{
    if text.len() == 0 {
        seq![Seq::empty()]
    } else {
        let earlier = fields(text.drop_last());
        if text.last() == ',' {
            earlier.push(Seq::empty())
        } else {
            earlier.drop_last().push(earlier.last().push(text.last()))
        }
    }
}

/// The given fields, each trimmed, the empty ones left out.
pub open spec fn kept_items(raw: Seq<Seq<char>>) -> Seq<Seq<char>>
    decreases raw.len(),
{
    if raw.len() == 0 {
        Seq::empty()
    } else {
        kept_items(raw.drop_last()) + kept_item(raw.last())
    }
}

/// The items of a comma-separated list, each trimmed, the empty ones left out.
pub open spec fn list_items(text: Seq<char>) -> Seq<Seq<char>> {
    kept_items(fields(text))
}

/// One item of a list, trimmed, or nothing where that leaves nothing.
pub open spec fn kept_item(raw: Seq<char>) -> Seq<Seq<char>> {
    if trimmed(raw).len() == 0 {
        Seq::empty()
    } else {
        seq![trimmed(raw)]
    }
}

/// The views of a list of strings.
pub open spec fn texts(list: Seq<String>) -> Seq<Seq<char>> {
    list.map_values(|s: String| s@)
}

/// The length of a text in bytes of UTF-8.
pub open spec fn utf8_len(text: Seq<char>) -> usize {
    vstd::utf8::encode_utf8(text).len() as usize
}

/// The rules that a configuration has to meet in its environment.
pub open spec fn config_verdict(config: EnvironmentConfig) -> Result<(), ConfigError> {
    if config.environment@ == "production"@ {
        if utf8_len(config.security.jwt_secret@) < 32 {
            Err(ConfigError::JwtSecretTooShort)
        } else if utf8_len(config.security.encryption_key@) < 32 {
            Err(ConfigError::EncryptionKeyTooShort)
        } else if !config.database.ssl_enabled {
            Err(ConfigError::SslRequired)
        } else if !config.security.csrf_protection {
            Err(ConfigError::CsrfRequired)
        } else {
            Ok(())
        }
    } else if config.environment@ == "staging"@ {
        if utf8_len(config.security.jwt_secret@) < 16 {
            Err(ConfigError::JwtSecretTooShort)
        } else {
            Ok(())
        }
    } else {
        Ok(())
    }
}

proof fn lemma_after_last_slash(s: Seq<char>, from: int)
    requires
        0 <= from <= s.len(),
        from > 0 ==> s[from - 1] == '/',
        forall|j: int| from <= j < s.len() ==> s[j] != '/',
    ensures
        after_last_slash(s) == s.subrange(from, s.len() as int),
    decreases s.len() - from,
{
    if s.len() == 0 {
    } else if from == s.len() {
        if from > 0 {
            assert(s.last() == '/');
        }
    } else {
        let shorter = s.drop_last();
        lemma_after_last_slash(shorter, from);
        assert(shorter.subrange(from, shorter.len() as int).push(s.last()) == s.subrange(
            from,
            s.len() as int,
        ));
    }
}

proof fn lemma_before_first_question(s: Seq<char>, to: int)
    requires
        0 <= to <= s.len(),
        to < s.len() ==> s[to] == '?',
        forall|j: int| 0 <= j < to ==> s[j] != '?',
    ensures
        before_first_question(s) == s.subrange(0, to),
    decreases s.len(),
{
    if s.len() == 0 {
    } else if to == 0 {
    } else {
        lemma_before_first_question(s.drop_first(), to - 1);
        assert(seq![s[0]] + s.drop_first().subrange(0, to - 1) == s.subrange(0, to));
    }
}

/// The database that a connection string names.
pub fn extract_db_name(uri: &str) -> (name: String)
    ensures
        name@ == db_name_of(uri@),
{
    let chars = chars_of(uri);
    let mut from: usize = chars.len();
    while from > 0 && chars[from - 1] != '/'
        invariant
            from <= chars.len(),
            forall|j: int| from <= j < chars.len() ==> chars@[j] != '/',
        decreases from,
    {
        from -= 1;
    }
    if from == 0 {
        assert(!chars@.contains('/'));
        return "mabar".to_owned();
    }
    assert(chars@[from - 1] == '/');
    proof {
        lemma_after_last_slash(chars@, from as int);
    }
    let tail = suffix_from(&chars, from);
    let mut to: usize = 0;
    while to < tail.len() && tail[to] != '?'
        invariant
            to <= tail.len(),
            forall|j: int| 0 <= j < to ==> tail@[j] != '?',
        decreases tail.len() - to,
    {
        to += 1;
    }
    proof {
        lemma_before_first_question(tail@, to as int);
    }
    let mut name: Vec<char> = Vec::new();
    let mut i: usize = 0;
    while i < to
        invariant
            i <= to <= tail.len(),
            name@ == tail@.subrange(0, i as int),
        decreases to - i,
    {
        name.push(tail[i]);
        i += 1;
    }
    string_of(&name)
}

impl Environment {
    /// The value of the variable `name`, if it is set.
    pub fn get(&self, name: &str) -> (value: Option<&str>)
        ensures
            match value {
                Some(v) => variable(self.variables@, name@) == Some(v@),
                None => variable(self.variables@, name@) is None,
            },
    {
        let wanted = name.to_owned();
        let mut i: usize = 0;
        assert(self.variables@.subrange(0, self.variables@.len() as int) == self.variables@);
        while i < self.variables.len()
            invariant
                i <= self.variables.len(),
                wanted@ == name@,
                variable(self.variables@, name@) == variable(
                    self.variables@.subrange(i as int, self.variables@.len() as int),
                    name@,
                ),
            decreases self.variables.len() - i,
        {
            let ghost rest = self.variables@.subrange(i as int, self.variables@.len() as int);
            assert(rest[0] == self.variables@[i as int]);
            assert(rest.drop_first() == self.variables@.subrange(
                i + 1,
                self.variables@.len() as int,
            ));
            if self.variables[i].0.eq(&wanted) {
                return Some(self.variables[i].1.as_str());
            }
            i += 1;
        }
        None
    }

    /// The value of the variable `name`, or `default` where it is not set.
    pub fn get_or(&self, name: &str, default: &str) -> (value: String)
        ensures
            value@ == variable_or(self.variables@, name@, default@),
    {
        match self.get(name) {
            Some(v) => v.to_owned(),
            None => default.to_owned(),
        }
    }

    fn port(&self) -> (text: String)
        ensures
            text@ == port_text(self.variables@),
    {
        match self.get("BACKEND_PORT") {
            Some(v) => v.to_owned(),
            None => self.get_or("PORT", "5000"),
        }
    }

    fn require(&self, name: &str, which: RequiredVariable) -> (value: Result<String, ConfigError>)
        ensures
            match value {
                Ok(v) => variable(self.variables@, name@) == Some(v@),
                Err(e) => variable(self.variables@, name@) is None && e == ConfigError::Missing(
                    which,
                ),
            },
    {
        match self.get(name) {
            Some(v) => Ok(v.to_owned()),
            None => Err(ConfigError::Missing(which)),
        }
    }
}

proof fn lemma_fields_nonempty(text: Seq<char>)
    ensures
        fields(text).len() >= 1,
    decreases text.len(),
{
    if text.len() > 0 {
        lemma_fields_nonempty(text.drop_last());
    }
}

/// Splits a comma-separated list into its items, trimmed, without the empty ones.
pub fn split_list(text: &str) -> (items: Vec<String>)
    ensures
        texts(items@) == list_items(text@),
{
    let chars = chars_of(text);
    let mut items: Vec<String> = Vec::new();
    let mut current: Vec<char> = Vec::new();
    let ghost mut closed: Seq<Seq<char>> = Seq::empty();
    let mut i: usize = 0;
    assert(chars@.subrange(0, 0) == Seq::<char>::empty());
    assert(fields(Seq::<char>::empty()) == closed.push(current@));
    assert(texts(items@) == kept_items(closed));
    while i < chars.len()
        invariant
            i <= chars.len(),
            fields(chars@.subrange(0, i as int)) == closed.push(current@),
            texts(items@) == kept_items(closed),
        decreases chars.len() - i,
    {
        let c = chars[i];
        proof {
            let next = chars@.subrange(0, i + 1);
            assert(next.drop_last() == chars@.subrange(0, i as int));
            assert(next.last() == c);
            assert(closed.push(current@).drop_last() == closed);
        }
        if c == ',' {
            let raw = string_of(&current);
            let item = trim(raw.as_str());
            let ghost before = items@;
            if item.unicode_len() > 0 {
                items.push(item.to_owned());
                assert(texts(items@) == texts(before) + seq![item@]);
            }
            proof {
                assert(closed.push(current@).drop_last() == closed);
                closed = closed.push(current@);
            }
            current = Vec::new();
        } else {
            current.push(c);
        }
        i += 1;
    }
    assert(chars@.subrange(0, chars.len() as int) == chars@);
    let raw = string_of(&current);
    let item = trim(raw.as_str());
    let ghost before = items@;
    if item.unicode_len() > 0 {
        items.push(item.to_owned());
        assert(texts(items@) == texts(before) + seq![item@]);
    }
    proof {
        assert(closed.push(current@).drop_last() == closed);
    }
    items
}

/// The first reason for which production cannot be configured from the
/// variables, in the order in which they are needed.
pub open spec fn production_obstacle(variables: Seq<(String, String)>) -> Option<ConfigError> {
    if parsed_u16(port_text(variables)) is None {
        Some(ConfigError::InvalidPort)
    } else if variable(variables, "BACKEND_BASE_URL"@) is None {
        Some(ConfigError::Missing(RequiredVariable::BackendBaseUrl))
    } else if variable(variables, "FRONTEND_BASE_URL"@) is None {
        Some(ConfigError::Missing(RequiredVariable::FrontendBaseUrl))
    } else if variable(variables, "MONGODB_URI"@) is None {
        Some(ConfigError::Missing(RequiredVariable::MongodbUri))
    } else if variable(variables, "JWT_SECRET"@) is None {
        Some(ConfigError::Missing(RequiredVariable::JwtSecret))
    } else if variable(variables, "ENCRYPTION_MASTER_KEY"@) is None {
        Some(ConfigError::Missing(RequiredVariable::EncryptionMasterKey))
    } else {
        None
    }
}

/// The password rules of production.
pub open spec fn production_password_policy() -> PasswordPolicyConfig {
    PasswordPolicyConfig {
        min_length: 12,
        require_uppercase: true,
        require_lowercase: true,
        require_numbers: true,
        require_special: true,
        min_strength_score: 3,
        history_length: 12,
        max_age_days: 90,
    }
}

/// The password rules of development.
pub open spec fn development_password_policy() -> PasswordPolicyConfig {
    PasswordPolicyConfig {
        min_length: 8,
        require_uppercase: true,
        require_lowercase: true,
        require_numbers: true,
        require_special: true,
        min_strength_score: 1,
        history_length: 0,
        max_age_days: 365,
    }
}

/// What a production or staging configuration holds, given the variables it
/// was built from. Staging is production with a debug flag, a shorter minimum
/// password length and score, a day-long session, `info` logging and no
/// performance monitoring.
pub open spec fn is_deployed_config(
    config: EnvironmentConfig,
    variables: Seq<(String, String)>,
    staging: bool,
) -> bool {
    &&& config.environment@ == (if staging {
        "staging"@
    } else {
        "production"@
    })
    &&& config.app.name@ == "MaBar"@
    &&& config.app.version@ == variable_or(variables, "APP_VERSION"@, "1.0.0"@)
    &&& config.app.host@ == variable_or(variables, "HOST"@, "0.0.0.0"@)
    &&& Some(config.app.port) == parsed_u16(port_text(variables))
    &&& config.app.base_url@ == variable(variables, "BACKEND_BASE_URL"@)->Some_0 + ":"@ + port_text(
        variables,
    )
    &&& config.app.frontend_url@ == variable(variables, "FRONTEND_BASE_URL"@)->Some_0 + ":"@
        + variable_or(variables, "FRONTEND_PORT"@, "5173"@)
    &&& config.app.debug_mode == staging
    &&& config.app.maintenance_mode == (variable(variables, "MAINTENANCE_MODE"@) == Some("true"@))
    &&& Some(config.database.uri@) == variable(variables, "MONGODB_URI"@)
    &&& config.database.name@ == variable_or(variables, "DB_NAME"@, "mabar_production"@)
    &&& config.database.pool_size == 20
    &&& config.database.timeout_seconds == 30
    &&& config.database.ssl_enabled
    &&& config.database.backup_enabled
    &&& Some(config.security.jwt_secret@) == variable(variables, "JWT_SECRET"@)
    &&& config.security.jwt_expiry@ == variable_or(variables, "JWT_EXPIRE"@, "7d"@)
    &&& Some(config.security.encryption_key@) == variable(variables, "ENCRYPTION_MASTER_KEY"@)
    &&& config.security.password_policy == (if staging {
        PasswordPolicyConfig { min_length: 8, min_strength_score: 2, ..production_password_policy() }
    } else {
        production_password_policy()
    })
    &&& config.security.session_config.timeout_minutes == (if staging {
        1440i64
    } else {
        480i64
    })
    &&& config.security.session_config.max_concurrent == 3
    &&& config.security.session_config.secure_cookies
    &&& config.security.session_config.same_site@ == "Strict"@
    &&& config.security.rate_limiting.enabled
    &&& config.security.rate_limiting.requests_per_minute == 60
    &&& config.security.rate_limiting.burst_size == 10
    &&& config.security.rate_limiting.whitelist_ips@.len() == 0
    &&& texts(config.security.cors_origins@) == list_items(
        variable_or(variables, "CORS_ORIGINS"@, ""@),
    )
    &&& config.security.csrf_protection
    &&& config.security.security_headers
    &&& config.logging.level@ == (if staging {
        "info"@
    } else {
        variable_or(variables, "LOG_LEVEL"@, "warn"@)
    })
    &&& config.logging.format@ == "json"@
    &&& config.logging.file_enabled
    &&& config.logging.file_path@ == variable_or(variables, "LOG_FILE"@, "/var/log/mabar/app.log"@)
    &&& config.logging.rotation_size@ == "100MB"@
    &&& config.logging.retention_days == 30
    &&& config.logging.structured_logging
    &&& config.monitoring == (MonitoringConfig {
        metrics_enabled: true,
        health_check_enabled: true,
        performance_monitoring: !staging,
        error_tracking: true,
        audit_logging: true,
    })
    &&& config.features == (FeatureFlags {
        oauth_enabled: true,
        mfa_enabled: true,
        email_verification: true,
        password_reset: true,
        user_registration: true,
        admin_panel: true,
        api_versioning: true,
    })
}

/// What a production configuration holds.
pub open spec fn is_production_config(
    config: EnvironmentConfig,
    variables: Seq<(String, String)>,
) -> bool {
    is_deployed_config(config, variables, false)
}

/// What a staging configuration holds.
pub open spec fn is_staging_config(config: EnvironmentConfig, variables: Seq<(String, String)>) -> bool {
    is_deployed_config(config, variables, true)
}

/// What a development configuration holds, given the variables it was built from.
pub open spec fn is_development_config(
    config: EnvironmentConfig,
    variables: Seq<(String, String)>,
) -> bool {
    &&& config.environment@ == "development"@
    &&& config.app.name@ == "MaBar-Dev"@
    &&& config.app.version@ == "dev"@
    &&& config.app.host@ == variable_or(variables, "BACKEND_HOST"@, "127.0.0.1"@)
    &&& config.app.port == (match parsed_u16(port_text(variables)) {
        Some(port) => port,
        None => 5000u16,
    })
    &&& config.app.base_url@ == variable_or(variables, "BACKEND_BASE_URL"@, "http://localhost"@)
        + ":"@ + port_text(variables)
    &&& config.app.frontend_url@ == variable_or(
        variables,
        "FRONTEND_BASE_URL"@,
        "http://localhost"@,
    ) + ":"@ + variable_or(variables, "FRONTEND_PORT"@, "5173"@)
    &&& config.app.debug_mode
    &&& !config.app.maintenance_mode
    &&& config.database.uri@ == variable_or(
        variables,
        "MONGODB_URI"@,
        "mongodb://localhost:27017/mabar_dev"@,
    )
    &&& config.database.name@ == "mabar_dev"@
    &&& config.database.pool_size == 5
    &&& config.database.timeout_seconds == 10
    &&& !config.database.ssl_enabled
    &&& !config.database.backup_enabled
    &&& config.security.jwt_secret@ == variable_or(
        variables,
        "JWT_SECRET"@,
        "dev_jwt_secret_change_in_production"@,
    )
    &&& config.security.jwt_expiry@ == "7d"@
    &&& config.security.encryption_key@ == variable_or(
        variables,
        "ENCRYPTION_MASTER_KEY"@,
        "dev_encryption_key_change_in_production"@,
    )
    &&& config.security.password_policy == development_password_policy()
    &&& config.security.session_config.timeout_minutes == 1440
    &&& config.security.session_config.max_concurrent == 5
    &&& !config.security.session_config.secure_cookies
    &&& config.security.session_config.same_site@ == "Lax"@
    &&& !config.security.rate_limiting.enabled
    &&& config.security.rate_limiting.requests_per_minute == 1000
    &&& config.security.rate_limiting.burst_size == 100
    &&& texts(config.security.rate_limiting.whitelist_ips@) == seq!["127.0.0.1"@]
    &&& texts(config.security.cors_origins@) == seq![config.app.frontend_url@]
    &&& !config.security.csrf_protection
    &&& config.security.security_headers
    &&& config.logging.level@ == "debug"@
    &&& config.logging.format@ == "pretty"@
    &&& config.logging.file_enabled
    &&& config.logging.file_path@ == "./logs/app.log"@
    &&& config.logging.rotation_size@ == "10MB"@
    &&& config.logging.retention_days == 7
    &&& !config.logging.structured_logging
    &&& config.monitoring == (MonitoringConfig {
        metrics_enabled: true,
        health_check_enabled: true,
        performance_monitoring: false,
        error_tracking: true,
        audit_logging: true,
    })
    &&& config.features == (FeatureFlags {
        oauth_enabled: true,
        mfa_enabled: false,
        email_verification: false,
        password_reset: true,
        user_registration: true,
        admin_panel: true,
        api_versioning: false,
    })
}

fn with_port(base: &str, port: &str) -> (url: String)
    ensures
        url@ == base@ + ":"@ + port@,
{
    let head = join_text(base, ":");
    join_text(head.as_str(), port)
}

impl EnvironmentConfig {
    /// The configuration of production. It needs a port that parses and the
    /// variables `BACKEND_BASE_URL`, `FRONTEND_BASE_URL`, `MONGODB_URI`,
    /// `JWT_SECRET` and `ENCRYPTION_MASTER_KEY`; the first of these that is
    /// missing is the error.
    pub fn production_config(env: &Environment) -> (built: Result<Self, ConfigError>)
        ensures
            match production_obstacle(env.variables@) {
                Some(e) => built is Err && built->Err_0 == e,
                None => built is Ok && is_production_config(built->Ok_0, env.variables@),
            },
    {
        let version = env.get_or("APP_VERSION", "1.0.0");
        let host = env.get_or("HOST", "0.0.0.0");
        let port_text = env.port();
        let port = match parse_u16(port_text.as_str()) {
            Some(port) => port,
            None => {
                return Err(ConfigError::InvalidPort);
            },
        };
        let backend = match env.require("BACKEND_BASE_URL", RequiredVariable::BackendBaseUrl) {
            Ok(v) => v,
            Err(e) => {
                return Err(e);
            },
        };
        let base_url = with_port(backend.as_str(), port_text.as_str());
        let frontend = match env.require("FRONTEND_BASE_URL", RequiredVariable::FrontendBaseUrl) {
            Ok(v) => v,
            Err(e) => {
                return Err(e);
            },
        };
        let frontend_port = env.get_or("FRONTEND_PORT", "5173");
        let frontend_url = with_port(frontend.as_str(), frontend_port.as_str());
        let maintenance_mode = match env.get("MAINTENANCE_MODE") {
            Some(v) => str_equals(v, "true"),
            None => false,
        };
        let uri = match env.require("MONGODB_URI", RequiredVariable::MongodbUri) {
            Ok(v) => v,
            Err(e) => {
                return Err(e);
            },
        };
        let jwt_secret = match env.require("JWT_SECRET", RequiredVariable::JwtSecret) {
            Ok(v) => v,
            Err(e) => {
                return Err(e);
            },
        };
        let encryption_key = match env.require(
            "ENCRYPTION_MASTER_KEY",
            RequiredVariable::EncryptionMasterKey,
        ) {
            Ok(v) => v,
            Err(e) => {
                return Err(e);
            },
        };
        let origins = env.get_or("CORS_ORIGINS", "");
        Ok(
            EnvironmentConfig {
                environment: "production".to_owned(),
                app: AppConfig {
                    name: "MaBar".to_owned(),
                    version,
                    host,
                    port,
                    base_url,
                    frontend_url,
                    debug_mode: false,
                    maintenance_mode,
                },
                database: DatabaseConfig {
                    uri,
                    name: env.get_or("DB_NAME", "mabar_production"),
                    pool_size: 20,
                    timeout_seconds: 30,
                    ssl_enabled: true,
                    backup_enabled: true,
                },
                security: SecurityConfig {
                    jwt_secret,
                    jwt_expiry: env.get_or("JWT_EXPIRE", "7d"),
                    encryption_key,
                    password_policy: PasswordPolicyConfig {
                        min_length: 12,
                        require_uppercase: true,
                        require_lowercase: true,
                        require_numbers: true,
                        require_special: true,
                        min_strength_score: 3,
                        history_length: 12,
                        max_age_days: 90,
                    },
                    session_config: SessionConfigData {
                        timeout_minutes: 480,
                        max_concurrent: 3,
                        secure_cookies: true,
                        same_site: "Strict".to_owned(),
                    },
                    rate_limiting: RateLimitingConfig {
                        enabled: true,
                        requests_per_minute: 60,
                        burst_size: 10,
                        whitelist_ips: Vec::new(),
                    },
                    cors_origins: split_list(origins.as_str()),
                    csrf_protection: true,
                    security_headers: true,
                },
                logging: LoggingConfig {
                    level: env.get_or("LOG_LEVEL", "warn"),
                    format: "json".to_owned(),
                    file_enabled: true,
                    file_path: env.get_or("LOG_FILE", "/var/log/mabar/app.log"),
                    rotation_size: "100MB".to_owned(),
                    retention_days: 30,
                    structured_logging: true,
                },
                monitoring: MonitoringConfig {
                    metrics_enabled: true,
                    health_check_enabled: true,
                    performance_monitoring: true,
                    error_tracking: true,
                    audit_logging: true,
                },
                features: FeatureFlags {
                    oauth_enabled: true,
                    mfa_enabled: true,
                    email_verification: true,
                    password_reset: true,
                    user_registration: true,
                    admin_panel: true,
                    api_versioning: true,
                },
            },
        )
    }

    /// The configuration of staging: that of production with a debug flag, a
    /// shorter minimum password length and score, a day-long session, `info`
    /// logging and no performance monitoring.
    pub fn staging_config(env: &Environment) -> (built: Result<Self, ConfigError>)
        ensures
            match production_obstacle(env.variables@) {
                Some(e) => built is Err && built->Err_0 == e,
                None => built is Ok && is_staging_config(built->Ok_0, env.variables@),
            },
    {
        let mut config = match EnvironmentConfig::production_config(env) {
            Ok(c) => c,
            Err(e) => {
                return Err(e);
            },
        };
        config.environment = "staging".to_owned();
        config.app.debug_mode = true;
        config.security.password_policy.min_length = 8;
        config.security.password_policy.min_strength_score = 2;
        config.security.session_config.timeout_minutes = 1440;
        config.logging.level = "info".to_owned();
        config.monitoring.performance_monitoring = false;
        Ok(config)
    }

    /// The configuration of development. Every variable has a default, and a
    /// port that does not parse means 5000.
    pub fn development_config(env: &Environment) -> (built: Result<Self, ConfigError>)
        ensures
            built is Ok,
            is_development_config(built->Ok_0, env.variables@),
    {
        let port_text = env.port();
        let port = match parse_u16(port_text.as_str()) {
            Some(port) => port,
            None => 5000,
        };
        let backend = env.get_or("BACKEND_BASE_URL", "http://localhost");
        let frontend = env.get_or("FRONTEND_BASE_URL", "http://localhost");
        let frontend_port = env.get_or("FRONTEND_PORT", "5173");
        let frontend_url = with_port(frontend.as_str(), frontend_port.as_str());
        let mut whitelist: Vec<String> = Vec::new();
        whitelist.push("127.0.0.1".to_owned());
        assert(texts(whitelist@) == seq!["127.0.0.1"@]);
        let mut origins: Vec<String> = Vec::new();
        origins.push(frontend_url.clone());
        assert(texts(origins@) == seq![frontend_url@]);
        Ok(
            EnvironmentConfig {
                environment: "development".to_owned(),
                app: AppConfig {
                    name: "MaBar-Dev".to_owned(),
                    version: "dev".to_owned(),
                    host: env.get_or("BACKEND_HOST", "127.0.0.1"),
                    port,
                    base_url: with_port(backend.as_str(), port_text.as_str()),
                    frontend_url,
                    debug_mode: true,
                    maintenance_mode: false,
                },
                database: DatabaseConfig {
                    uri: env.get_or("MONGODB_URI", "mongodb://localhost:27017/mabar_dev"),
                    name: "mabar_dev".to_owned(),
                    pool_size: 5,
                    timeout_seconds: 10,
                    ssl_enabled: false,
                    backup_enabled: false,
                },
                security: SecurityConfig {
                    jwt_secret: env.get_or("JWT_SECRET", "dev_jwt_secret_change_in_production"),
                    jwt_expiry: "7d".to_owned(),
                    encryption_key: env.get_or(
                        "ENCRYPTION_MASTER_KEY",
                        "dev_encryption_key_change_in_production",
                    ),
                    password_policy: PasswordPolicyConfig {
                        min_length: 8,
                        require_uppercase: true,
                        require_lowercase: true,
                        require_numbers: true,
                        require_special: true,
                        min_strength_score: 1,
                        history_length: 0,
                        max_age_days: 365,
                    },
                    session_config: SessionConfigData {
                        timeout_minutes: 1440,
                        max_concurrent: 5,
                        secure_cookies: false,
                        same_site: "Lax".to_owned(),
                    },
                    rate_limiting: RateLimitingConfig {
                        enabled: false,
                        requests_per_minute: 1000,
                        burst_size: 100,
                        whitelist_ips: whitelist,
                    },
                    cors_origins: origins,
                    csrf_protection: false,
                    security_headers: true,
                },
                logging: LoggingConfig {
                    level: "debug".to_owned(),
                    format: "pretty".to_owned(),
                    file_enabled: true,
                    file_path: "./logs/app.log".to_owned(),
                    rotation_size: "10MB".to_owned(),
                    retention_days: 7,
                    structured_logging: false,
                },
                monitoring: MonitoringConfig {
                    metrics_enabled: true,
                    health_check_enabled: true,
                    performance_monitoring: false,
                    error_tracking: true,
                    audit_logging: true,
                },
                features: FeatureFlags {
                    oauth_enabled: true,
                    mfa_enabled: false,
                    email_verification: false,
                    password_reset: true,
                    user_registration: true,
                    admin_panel: true,
                    api_versioning: false,
                },
            },
        )
    }

    /// The configuration for the environment that the variable `ENVIRONMENT`
    /// names, `development` where it is not set. Any name but `production`,
    /// `staging` and `development` is refused.
    pub fn from_environment(env: &Environment) -> (built: Result<Self, ConfigError>)
        ensures
            ({
                let named = variable_or(env.variables@, "ENVIRONMENT"@, "development"@);
                if named == "production"@ {
                    match production_obstacle(env.variables@) {
                        Some(e) => built is Err && built->Err_0 == e,
                        None => built is Ok && is_production_config(built->Ok_0, env.variables@),
                    }
                } else if named == "staging"@ {
                    match production_obstacle(env.variables@) {
                        Some(e) => built is Err && built->Err_0 == e,
                        None => built is Ok && is_staging_config(built->Ok_0, env.variables@),
                    }
                } else if named == "development"@ {
                    built is Ok && is_development_config(built->Ok_0, env.variables@)
                } else {
                    built is Err && built->Err_0 == ConfigError::UnknownEnvironment
                }
            }),
    {
        let named = env.get_or("ENVIRONMENT", "development");
        if str_equals(named.as_str(), "production") {
            EnvironmentConfig::production_config(env)
        } else if str_equals(named.as_str(), "staging") {
            EnvironmentConfig::staging_config(env)
        } else if str_equals(named.as_str(), "development") {
            EnvironmentConfig::development_config(env)
        } else {
            Err(ConfigError::UnknownEnvironment)
        }
    }

    /// Holds the configuration against the rules of its environment.
    ///
    /// Production needs a signing secret and an encryption key of 32 bytes or
    /// more, database TLS and CSRF protection; staging needs a signing secret of
    /// 16 bytes or more; any other environment needs nothing.
    pub fn validate(&self) -> (verdict: Result<(), ConfigError>)
        ensures
            verdict == config_verdict(*self),
    {
        if str_equals(self.environment.as_str(), "production") {
            if self.security.jwt_secret.as_str().len() < 32 {
                return Err(ConfigError::JwtSecretTooShort);
            }
            if self.security.encryption_key.as_str().len() < 32 {
                return Err(ConfigError::EncryptionKeyTooShort);
            }
            if !self.database.ssl_enabled {
                return Err(ConfigError::SslRequired);
            }
            if !self.security.csrf_protection {
                return Err(ConfigError::CsrfRequired);
            }
            Ok(())
        } else if str_equals(self.environment.as_str(), "staging") {
            if self.security.jwt_secret.as_str().len() < 16 {
                return Err(ConfigError::JwtSecretTooShort);
            }
            Ok(())
        } else {
            Ok(())
        }
    }

    /// The administrator credentials for this configuration's environment.
    pub fn get_admin_credentials(&self, env: &Environment) -> (credentials: Result<
        AdminCredentialsConfig,
        ConfigError,
    >)
        ensures
            admin_credentials_as_specified(credentials, self.environment@, env.variables@),
    {
        AdminCredentialsConfig::from_environment(self.environment.as_str(), env)
    }
}

/// What the administrator credentials are for an environment: in production
/// both variables must be set; elsewhere each has a default.
pub open spec fn admin_credentials_as_specified(
    credentials: Result<AdminCredentialsConfig, ConfigError>,
    environment: Seq<char>,
    variables: Seq<(String, String)>,
) -> bool {
    if environment == "production"@ {
        if variable(variables, "ADMIN_EMAIL"@) is None {
            credentials is Err && credentials->Err_0 == ConfigError::Missing(
                RequiredVariable::AdminEmail,
            )
        } else if variable(variables, "ADMIN_PASSWORD"@) is None {
            credentials is Err && credentials->Err_0 == ConfigError::Missing(
                RequiredVariable::AdminPassword,
            )
        } else {
            &&& credentials is Ok
            &&& Some(credentials->Ok_0.email@) == variable(variables, "ADMIN_EMAIL"@)
            &&& Some(credentials->Ok_0.password@) == variable(variables, "ADMIN_PASSWORD"@)
            &&& !credentials->Ok_0.encrypted
            &&& !credentials->Ok_0.rotation_required
        }
    } else {
        &&& credentials is Ok
        &&& credentials->Ok_0.email@ == variable_or(variables, "ADMIN_EMAIL"@, "admin@mabar.local"@)
        &&& credentials->Ok_0.password@ == variable_or(variables, "ADMIN_PASSWORD"@, "DevAdmin123!"@)
        &&& !credentials->Ok_0.encrypted
        &&& !credentials->Ok_0.rotation_required
    }
}

impl AdminCredentialsConfig {
    /// The administrator credentials for the named environment.
    pub fn from_environment(environment: &str, env: &Environment) -> (credentials: Result<
        Self,
        ConfigError,
    >)
        ensures
            admin_credentials_as_specified(credentials, environment@, env.variables@),
    {
        if str_equals(environment, "production") {
            let email = match env.require("ADMIN_EMAIL", RequiredVariable::AdminEmail) {
                Ok(v) => v,
                Err(e) => {
                    return Err(e);
                },
            };
            let password = match env.require("ADMIN_PASSWORD", RequiredVariable::AdminPassword) {
                Ok(v) => v,
                Err(e) => {
                    return Err(e);
                },
            };
            Ok(AdminCredentialsConfig { email, password, encrypted: false, rotation_required: false })
        } else {
            Ok(
                AdminCredentialsConfig {
                    email: env.get_or("ADMIN_EMAIL", "admin@mabar.local"),
                    password: env.get_or("ADMIN_PASSWORD", "DevAdmin123!"),
                    encrypted: false,
                    rotation_required: false,
                },
            )
        }
    }
}

/// A production configuration passes validation exactly when its signing
/// secret and its encryption key are 32 bytes or longer: database TLS and CSRF
/// protection are always on.
pub proof fn production_config_validity(config: EnvironmentConfig, variables: Seq<(String, String)>)
    requires
        is_production_config(config, variables),
    ensures
        config_verdict(config) is Ok <==> (utf8_len(config.security.jwt_secret@) >= 32 && utf8_len(
            config.security.encryption_key@,
        ) >= 32),
        config_verdict(config) matches Err(e) ==> e == ConfigError::JwtSecretTooShort || e
            == ConfigError::EncryptionKeyTooShort,
{
}

/// A staging configuration passes validation exactly when its signing secret
/// is 16 bytes or longer.
pub proof fn staging_config_validity(config: EnvironmentConfig, variables: Seq<(String, String)>)
    requires
        is_staging_config(config, variables),
    ensures
        config_verdict(config) is Ok <==> utf8_len(config.security.jwt_secret@) >= 16,
{
    reveal_strlit("production");
    reveal_strlit("staging");
    assert("production"@.len() == 10);
    assert("staging"@.len() == 7);
}

/// A development configuration passes validation whatever its variables hold.
pub proof fn development_config_is_valid(config: EnvironmentConfig, variables: Seq<(String, String)>)
    requires
        is_development_config(config, variables),
    ensures
        config_verdict(config) == Ok::<(), ConfigError>(()),
{
    reveal_strlit("development");
    reveal_strlit("production");
    reveal_strlit("staging");
    assert("development"@.len() == 11);
    assert("production"@.len() == 10);
    assert("staging"@.len() == 7);
}

} // verus!
