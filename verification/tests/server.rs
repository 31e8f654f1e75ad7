use epaper_album::server::config::{settings_from_env, EnvValue, EnvVars, SettingsError};
use epaper_album::server::models::{LoginRequest, SpritePayload};
use epaper_album::server::paths::{
    display_image_path, display_image_temp_path, original_image_path, sprite_cache_path,
};
use epaper_album::server::requests::{
    normalized_tags, parse_days, parse_decimal, parse_tags_param, validate_sha256, validate_sprite_payload,
    SpriteKind, SpriteRequestError,
};

fn vars(values: &[(&str, &str)]) -> EnvVars {
    let get = |name: &str| {
        values
            .iter()
            .find(|(key, _)| *key == name)
            .map(|(_, value)| EnvValue::Present(value.to_string()))
            .unwrap_or(EnvValue::NotPresent)
    };
    EnvVars {
        production: get("EPAPER_ALBUM_PRODUCTION"),
        listen_host: get("LISTEN_HOST"),
        listen_port: get("LISTEN_PORT"),
        database_url: get("DATABASE_URL"),
        secret_key: get("SECRET_KEY"),
        admin_username: get("ADMIN_USERNAME"),
        admin_password: get("ADMIN_PASSWORD"),
    }
}

#[test]
fn display_image_path_uses_bmp_extension() {
    let path = display_image_path("data", "abc");
    assert_eq!(path, "data/images/display/abc.bmp");
}

#[test]
fn image_paths_sit_under_the_data_directory() {
    assert_eq!(original_image_path("data", "abc", "jpg"), "data/images/original/abc.jpg");
    assert_eq!(display_image_temp_path("data/", "abc"), "data/images/display/abc.tmp");
    assert_eq!(sprite_cache_path("", "abc"), "sprites/abc.bmp");
}

#[test]
fn development_defaults_bind_loopback() {
    let settings = settings_from_env(&vars(&[])).expect("development config");

    assert_eq!(settings.listen_host, "127.0.0.1");
    assert_eq!(settings.listen_port, 3000);
    assert_eq!(settings.secret_key, "local-secret-key");
    assert_eq!(settings.admin_username, "admin");
    assert_eq!(settings.admin_password, "admin");
    assert_eq!(settings.database_url, "sqlite:data/epaper-album.db?mode=rwc");
}

#[test]
fn production_requires_credentials() {
    let error = settings_from_env(&vars(&[("EPAPER_ALBUM_PRODUCTION", "true")]))
        .expect_err("production credentials should be required");

    assert!(error.message().contains("SECRET_KEY must be set"));
}

#[test]
fn production_rejects_development_defaults_and_placeholders() {
    let default_error = settings_from_env(&vars(&[
        ("EPAPER_ALBUM_PRODUCTION", "true"),
        ("SECRET_KEY", "local-secret-key"),
        ("ADMIN_USERNAME", "operator"),
        ("ADMIN_PASSWORD", "strong-password"),
    ]))
    .expect_err("production secret should reject development default");
    assert!(default_error.message().contains("must not use the development default"));

    let placeholder_error = settings_from_env(&vars(&[
        ("EPAPER_ALBUM_PRODUCTION", "true"),
        ("SECRET_KEY", "change-me-device-secret"),
        ("ADMIN_USERNAME", "operator"),
        ("ADMIN_PASSWORD", "strong-password"),
    ]))
    .expect_err("production secret should reject placeholder");
    assert!(placeholder_error.message().contains("must not use the development default"));
}

#[test]
fn production_uses_explicit_public_binding_and_credentials() {
    let settings = settings_from_env(&vars(&[
        ("EPAPER_ALBUM_PRODUCTION", "true"),
        ("SECRET_KEY", "device-secret"),
        ("ADMIN_USERNAME", "operator"),
        ("ADMIN_PASSWORD", "strong-password"),
    ]))
    .expect("production config");

    assert_eq!(settings.listen_host, "0.0.0.0");
    assert_eq!(settings.listen_port, 3000);
    assert_eq!(settings.secret_key, "device-secret");
    assert_eq!(settings.admin_username, "operator");
    assert_eq!(settings.admin_password, "strong-password");
}

#[test]
fn settings_errors_name_their_variable() {
    let flag = settings_from_env(&vars(&[("EPAPER_ALBUM_PRODUCTION", "maybe")])).unwrap_err();
    assert_eq!(flag, SettingsError::InvalidBool("EPAPER_ALBUM_PRODUCTION".to_string()));
    assert_eq!(flag.message(), "EPAPER_ALBUM_PRODUCTION must be true or false");

    let port = settings_from_env(&vars(&[("LISTEN_PORT", "70000")])).unwrap_err();
    assert_eq!(port, SettingsError::InvalidPort);

    let mut unreadable = vars(&[]);
    unreadable.database_url = EnvValue::NotUnicode;
    let error = settings_from_env(&unreadable).unwrap_err();
    assert_eq!(error.message(), "failed to read DATABASE_URL");

    let replaced = settings_from_env(&vars(&[
        ("EPAPER_ALBUM_PRODUCTION", " ON "),
        ("SECRET_KEY", "device-secret"),
        ("ADMIN_USERNAME", "replace-me"),
        ("ADMIN_PASSWORD", "strong-password"),
    ]))
    .unwrap_err();
    assert_eq!(replaced, SettingsError::WeakInProduction("ADMIN_USERNAME".to_string()));
}

#[test]
fn flag_words_and_ports_are_read_exactly() {
    let settings = settings_from_env(&vars(&[("EPAPER_ALBUM_PRODUCTION", "Off"), ("LISTEN_PORT", "+8080")]))
        .unwrap();
    assert!(!settings.production);
    assert_eq!(settings.listen_port, 8080);
    assert_eq!(parse_decimal("0065535", 65535), Some(65535));
    assert_eq!(parse_decimal("65536", 65535), None);
    assert_eq!(parse_decimal("+", 65535), None);
    assert_eq!(parse_decimal("-1", 65535), None);
    assert_eq!(parse_decimal("", 65535), None);
}

#[test]
fn days_default_to_three_and_stay_within_a_week() {
    assert_eq!(parse_days(None), 3);
    assert_eq!(parse_days(Some("x")), 3);
    assert_eq!(parse_days(Some("0")), 1);
    assert_eq!(parse_days(Some("5")), 5);
    assert_eq!(parse_days(Some("99")), 7);
}

#[test]
fn tags_are_trimmed_and_kept_once() {
    let tags = vec![" sea ".to_string(), "".to_string(), "sea".to_string(), "cat".to_string()];
    assert_eq!(normalized_tags(&tags), vec!["sea".to_string(), "cat".to_string()]);
    assert_eq!(parse_tags_param(Some("a, b,,a")), vec!["a".to_string(), "b".to_string()]);
    assert!(parse_tags_param(None).is_empty());
}

#[test]
fn image_names_are_sixty_four_hex_digits() {
    assert!(validate_sha256(&"aB3".repeat(21).chars().chain("f".chars()).collect::<String>()));
    assert!(!validate_sha256("abc"));
    assert!(!validate_sha256(&"g".repeat(64)));
}

#[test]
fn sprite_requests_need_a_kind_and_a_short_text() {
    let payload = |kind: &str, text: &str| SpritePayload { kind: kind.to_string(), text: text.to_string() };
    assert_eq!(validate_sprite_payload(&payload("caption", " hi ")), Ok(SpriteKind::Caption));
    assert_eq!(validate_sprite_payload(&payload("status", "x")), Ok(SpriteKind::Status));
    assert_eq!(validate_sprite_payload(&payload("banner", "x")), Err(SpriteRequestError::InvalidKind));
    assert_eq!(validate_sprite_payload(&payload("date", "   ")), Err(SpriteRequestError::EmptyText));
    assert_eq!(
        validate_sprite_payload(&payload("date", &"x".repeat(65))),
        Err(SpriteRequestError::TextTooLong)
    );
}

#[test]
fn login_matches_only_the_administrator() {
    let settings = settings_from_env(&vars(&[])).expect("development config");
    let good = LoginRequest {
        username: settings.admin_username.clone(),
        password: settings.admin_password.clone(),
    };
    assert!(good.matches_admin(&settings));
    let wrong_password = LoginRequest {
        username: settings.admin_username.clone(),
        password: format!("{}x", settings.admin_password),
    };
    assert!(!wrong_password.matches_admin(&settings));
    let wrong_user = LoginRequest {
        username: "guest".to_string(),
        password: settings.admin_password.clone(),
    };
    assert!(!wrong_user.matches_admin(&settings));
}
