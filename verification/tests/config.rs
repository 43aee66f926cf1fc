use mabar_backend::config::{
    extract_db_name, parse_u16, split_list, AdminCredentialsConfig, ConfigError, Environment,
    EnvironmentConfig, RequiredVariable,
};

fn env(pairs: &[(&str, &str)]) -> Environment {
    Environment {
        variables: pairs.iter().map(|(k, v)| (k.to_string(), v.to_string())).collect(),
    }
}

fn production() -> Vec<(&'static str, &'static str)> {
    vec![
        ("ENVIRONMENT", "production"),
        ("BACKEND_BASE_URL", "https://api.mabar.example"),
        ("FRONTEND_BASE_URL", "https://mabar.example"),
        ("MONGODB_URI", "mongodb+srv://db.example/mabar?retryWrites=true"),
        ("JWT_SECRET", "0123456789abcdef0123456789abcdef"),
        ("ENCRYPTION_MASTER_KEY", "fedcba9876543210fedcba9876543210"),
    ]
}

#[test]
fn test_development_config() {
    let config = EnvironmentConfig::development_config(&env(&[])).unwrap();
    assert_eq!(config.environment, "development");
    assert!(config.app.debug_mode);
    assert!(!config.security.csrf_protection);
}

#[test]
fn test_config_validation() {
    let config = EnvironmentConfig::development_config(&env(&[])).unwrap();
    assert!(config.validate().is_ok());
}

#[test]
fn development_defaults() {
    let c = EnvironmentConfig::development_config(&env(&[])).unwrap();
    assert_eq!(c.app.name, "MaBar-Dev");
    assert_eq!(c.app.version, "dev");
    assert_eq!(c.app.host, "127.0.0.1");
    assert_eq!(c.app.port, 5000);
    assert_eq!(c.app.base_url, "http://localhost:5000");
    assert_eq!(c.app.frontend_url, "http://localhost:5173");
    assert!(!c.app.maintenance_mode);
    assert_eq!(c.database.uri, "mongodb://localhost:27017/mabar_dev");
    assert_eq!(c.database.name, "mabar_dev");
    assert_eq!(c.database.pool_size, 5);
    assert_eq!(c.database.timeout_seconds, 10);
    assert!(!c.database.ssl_enabled);
    assert_eq!(c.security.jwt_secret, "dev_jwt_secret_change_in_production");
    assert_eq!(c.security.jwt_expiry, "7d");
    assert_eq!(c.security.encryption_key, "dev_encryption_key_change_in_production");
    assert_eq!(c.security.password_policy.min_length, 8);
    assert_eq!(c.security.password_policy.min_strength_score, 1);
    assert_eq!(c.security.password_policy.max_age_days, 365);
    assert_eq!(c.security.session_config.timeout_minutes, 1440);
    assert_eq!(c.security.session_config.same_site, "Lax");
    assert!(!c.security.rate_limiting.enabled);
    assert_eq!(c.security.rate_limiting.whitelist_ips, vec!["127.0.0.1"]);
    assert_eq!(c.security.cors_origins, vec!["http://localhost:5173"]);
    assert_eq!(c.logging.level, "debug");
    assert_eq!(c.logging.retention_days, 7);
    assert!(!c.features.mfa_enabled);
    assert!(c.features.oauth_enabled);
    assert!(!c.monitoring.performance_monitoring);
}

#[test]
fn development_reads_its_variables() {
    let c = EnvironmentConfig::development_config(&env(&[
        ("PORT", "8080"),
        ("BACKEND_HOST", "0.0.0.0"),
        ("BACKEND_BASE_URL", "http://dev.local"),
        ("FRONTEND_BASE_URL", "http://ui.local"),
        ("FRONTEND_PORT", "3000"),
        ("JWT_SECRET", "s"),
    ]))
    .unwrap();
    assert_eq!(c.app.port, 8080);
    assert_eq!(c.app.host, "0.0.0.0");
    assert_eq!(c.app.base_url, "http://dev.local:8080");
    assert_eq!(c.app.frontend_url, "http://ui.local:3000");
    assert_eq!(c.security.cors_origins, vec!["http://ui.local:3000"]);
    assert_eq!(c.security.jwt_secret, "s");
    assert_eq!(c.validate(), Ok(()));
    // BACKEND_PORT wins over PORT; a port that does not parse means 5000
    let c = EnvironmentConfig::development_config(&env(&[("PORT", "8080"), ("BACKEND_PORT", "x")]))
        .unwrap();
    assert_eq!(c.app.port, 5000);
    assert_eq!(c.app.base_url, "http://localhost:x");
}

#[test]
fn production_needs_its_variables() {
    let full = production();
    let c = EnvironmentConfig::production_config(&env(&full)).unwrap();
    assert_eq!(c.environment, "production");
    assert_eq!(c.app.name, "MaBar");
    assert_eq!(c.app.version, "1.0.0");
    assert_eq!(c.app.host, "0.0.0.0");
    assert_eq!(c.app.port, 5000);
    assert_eq!(c.app.base_url, "https://api.mabar.example:5000");
    assert_eq!(c.app.frontend_url, "https://mabar.example:5173");
    assert!(!c.app.debug_mode);
    assert_eq!(c.database.name, "mabar_production");
    assert_eq!(c.database.pool_size, 20);
    assert!(c.database.ssl_enabled);
    assert_eq!(c.security.password_policy.min_length, 12);
    assert_eq!(c.security.password_policy.min_strength_score, 3);
    assert_eq!(c.security.session_config.timeout_minutes, 480);
    assert!(c.security.cors_origins.is_empty());
    assert!(c.security.csrf_protection);
    assert_eq!(c.logging.level, "warn");
    assert_eq!(c.logging.file_path, "/var/log/mabar/app.log");
    assert_eq!(c.validate(), Ok(()));

    let missing = [
        ("BACKEND_BASE_URL", RequiredVariable::BackendBaseUrl),
        ("FRONTEND_BASE_URL", RequiredVariable::FrontendBaseUrl),
        ("MONGODB_URI", RequiredVariable::MongodbUri),
        ("JWT_SECRET", RequiredVariable::JwtSecret),
        ("ENCRYPTION_MASTER_KEY", RequiredVariable::EncryptionMasterKey),
    ];
    for (name, which) in missing {
        let partial: Vec<_> = full.iter().cloned().filter(|(k, _)| *k != name).collect();
        assert_eq!(
            EnvironmentConfig::production_config(&env(&partial)).err(),
            Some(ConfigError::Missing(which))
        );
    }
    assert_eq!(
        EnvironmentConfig::production_config(&env(&[])).err(),
        Some(ConfigError::Missing(RequiredVariable::BackendBaseUrl))
    );
    for port in ["http", "65536", "-1", "", " 80"] {
        let mut with_port = full.clone();
        with_port.push(("PORT", port));
        assert_eq!(
            EnvironmentConfig::production_config(&env(&with_port)).err(),
            Some(ConfigError::InvalidPort),
            "{:?}",
            port
        );
    }
}

#[test]
fn production_reads_optional_variables() {
    let mut vars = production();
    vars.extend([
        ("MAINTENANCE_MODE", "true"),
        ("CORS_ORIGINS", " https://a.example ,, https://b.example,"),
        ("BACKEND_PORT", "443"),
        ("JWT_EXPIRE", "1h"),
        ("DB_NAME", "mabar"),
        ("LOG_LEVEL", "error"),
    ]);
    let c = EnvironmentConfig::production_config(&env(&vars)).unwrap();
    assert!(c.app.maintenance_mode);
    assert_eq!(c.app.port, 443);
    assert_eq!(c.app.base_url, "https://api.mabar.example:443");
    assert_eq!(c.security.cors_origins, vec!["https://a.example", "https://b.example"]);
    assert_eq!(c.security.jwt_expiry, "1h");
    assert_eq!(c.database.name, "mabar");
    assert_eq!(c.logging.level, "error");
    let mut vars = production();
    vars.push(("MAINTENANCE_MODE", "yes"));
    assert!(!EnvironmentConfig::production_config(&env(&vars)).unwrap().app.maintenance_mode);
}

#[test]
fn staging_relaxes_production() {
    let c = EnvironmentConfig::staging_config(&env(&production())).unwrap();
    assert_eq!(c.environment, "staging");
    assert!(c.app.debug_mode);
    assert_eq!(c.security.password_policy.min_length, 8);
    assert_eq!(c.security.password_policy.min_strength_score, 2);
    assert_eq!(c.security.password_policy.history_length, 12);
    assert_eq!(c.security.session_config.timeout_minutes, 1440);
    assert_eq!(c.logging.level, "info");
    assert!(!c.monitoring.performance_monitoring);
    assert!(c.monitoring.metrics_enabled);
    assert_eq!(c.validate(), Ok(()));
    assert_eq!(
        EnvironmentConfig::staging_config(&env(&[])).err(),
        Some(ConfigError::Missing(RequiredVariable::BackendBaseUrl))
    );
}

#[test]
fn environment_is_selected_by_name() {
    assert_eq!(EnvironmentConfig::from_environment(&env(&[])).unwrap().environment, "development");
    assert_eq!(
        EnvironmentConfig::from_environment(&env(&production())).unwrap().environment,
        "production"
    );
    let mut staging = production();
    staging[0] = ("ENVIRONMENT", "staging");
    assert_eq!(EnvironmentConfig::from_environment(&env(&staging)).unwrap().environment, "staging");
    for name in ["test", "Production", ""] {
        assert_eq!(
            EnvironmentConfig::from_environment(&env(&[("ENVIRONMENT", name)])).err(),
            Some(ConfigError::UnknownEnvironment)
        );
    }
}

#[test]
fn validation_rules() {
    let mut c = EnvironmentConfig::production_config(&env(&production())).unwrap();
    c.security.jwt_secret = "a".repeat(31);
    assert_eq!(c.validate(), Err(ConfigError::JwtSecretTooShort));
    c.security.jwt_secret = "a".repeat(32);
    c.security.encryption_key = "b".repeat(31);
    assert_eq!(c.validate(), Err(ConfigError::EncryptionKeyTooShort));
    c.security.encryption_key = "b".repeat(32);
    c.database.ssl_enabled = false;
    assert_eq!(c.validate(), Err(ConfigError::SslRequired));
    c.database.ssl_enabled = true;
    c.security.csrf_protection = false;
    assert_eq!(c.validate(), Err(ConfigError::CsrfRequired));
    c.environment = "staging".to_string();
    assert_eq!(c.validate(), Ok(()));
    c.security.jwt_secret = "a".repeat(15);
    assert_eq!(c.validate(), Err(ConfigError::JwtSecretTooShort));
    c.security.jwt_secret = "a".repeat(16);
    assert_eq!(c.validate(), Ok(()));
    c.environment = "development".to_string();
    c.security.jwt_secret = String::new();
    assert_eq!(c.validate(), Ok(()));
}

#[test]
fn administrator_credentials() {
    let dev = AdminCredentialsConfig::from_environment("development", &env(&[])).unwrap();
    assert_eq!(dev.email, "admin@mabar.local");
    assert_eq!(dev.password, "DevAdmin123!");
    assert!(!dev.encrypted);
    assert!(!dev.rotation_required);
    let vars = env(&[("ADMIN_EMAIL", "root@mabar.example"), ("ADMIN_PASSWORD", "S3cret!")]);
    let prod = AdminCredentialsConfig::from_environment("production", &vars).unwrap();
    assert_eq!(prod.email, "root@mabar.example");
    assert_eq!(prod.password, "S3cret!");
    assert_eq!(
        AdminCredentialsConfig::from_environment("production", &env(&[])).err(),
        Some(ConfigError::Missing(RequiredVariable::AdminEmail))
    );
    assert_eq!(
        AdminCredentialsConfig::from_environment("production", &env(&[("ADMIN_EMAIL", "a@b.c")]))
            .err(),
        Some(ConfigError::Missing(RequiredVariable::AdminPassword))
    );
    let config = EnvironmentConfig::development_config(&env(&[])).unwrap();
    assert_eq!(config.get_admin_credentials(&vars).unwrap().email, "root@mabar.example");
}

#[test]
fn variables_are_looked_up_by_first_occurrence() {
    let e = env(&[("A", "1"), ("B", "2"), ("A", "3")]);
    assert_eq!(e.get("A"), Some("1"));
    assert_eq!(e.get("B"), Some("2"));
    assert_eq!(e.get("C"), None);
    assert_eq!(e.get_or("C", "x"), "x");
    assert_eq!(e.get_or("B", "x"), "2");
}

#[test]
fn database_names() {
    assert_eq!(extract_db_name("mongodb://localhost:27017/mabar_dev"), "mabar_dev");
    assert_eq!(extract_db_name("mongodb+srv://h.example/mabar?retryWrites=true&w=1"), "mabar");
    assert_eq!(extract_db_name("mongodb://localhost:27017/"), "");
    assert_eq!(extract_db_name("mongodb://localhost:27017"), "localhost:27017");
    assert_eq!(extract_db_name("localhost"), "mabar");
    assert_eq!(extract_db_name(""), "mabar");
    assert_eq!(extract_db_name("a/b?c/d"), "d");
    assert_eq!(extract_db_name("a/?x"), "");
}

#[test]
fn ports_are_read_as_the_standard_library_reads_them() {
    for text in ["0", "7", "80", "+80", "0080", "+0", "65535", "+65535", "065535"] {
        assert_eq!(parse_u16(text), text.parse::<u16>().ok(), "{:?}", text);
        assert!(parse_u16(text).is_some());
    }
    assert_eq!(parse_u16("+80"), Some(80));
    assert_eq!(parse_u16("0080"), Some(80));
    for text in [
        "", "+", "-", "-0", "++1", "+-1", "65536", "99999", "4294967296", "1 ", " 1", "1_0", "0x10",
        "١٢", "1.0", "1e3", "８０",
    ] {
        assert_eq!(parse_u16(text), None, "{:?}", text);
        assert_eq!(text.parse::<u16>().ok(), None, "{:?}", text);
    }
    for n in 0u32..70_000 {
        let text = n.to_string();
        assert_eq!(parse_u16(&text), text.parse::<u16>().ok());
    }
}

#[test]
fn lists() {
    assert_eq!(split_list(""), Vec::<String>::new());
    assert_eq!(split_list(" , ,"), Vec::<String>::new());
    assert_eq!(split_list("a"), vec!["a"]);
    assert_eq!(split_list("a,b"), vec!["a", "b"]);
    assert_eq!(split_list(" a , b ,, c c ,"), vec!["a", "b", "c c"]);
}
