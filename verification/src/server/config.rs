use crate::server::requests::{parse_decimal, spec_parse_decimal};
use crate::text::{ascii_lower, lowercase_equals, spec_trim, trim};
use vstd::prelude::*;

verus! {

/// What the environment holds for a variable.
#[derive(Clone, Debug, PartialEq, Eq)]
pub enum EnvValue {
    Present(String),
    NotPresent,
    NotUnicode,
}

/// The server's environment variables, as read.
#[derive(Clone, Debug, PartialEq, Eq)]
pub struct EnvVars {
    pub production: EnvValue,
    pub listen_host: EnvValue,
    pub listen_port: EnvValue,
    pub database_url: EnvValue,
    pub secret_key: EnvValue,
    pub admin_username: EnvValue,
    pub admin_password: EnvValue,
}

/// The server's settings.
#[derive(Clone, Debug, PartialEq, Eq)]
pub struct ServerSettings {
    pub production: bool,
    pub listen_host: String,
    pub listen_port: u16,
    pub database_url: String,
    pub secret_key: String,
    pub admin_username: String,
    pub admin_password: String,
}

/// Why the settings could not be made; each names its variable.
#[derive(Clone, Debug, PartialEq, Eq)]
pub enum SettingsError {
    Unreadable(String),
    InvalidBool(String),
    InvalidPort,
    WeakInProduction(String),
    MissingInProduction(String, String),
}

/// A settings error with its texts.
pub ghost enum SettingsErrorView {
    Unreadable(Seq<char>),
    InvalidBool(Seq<char>),
    InvalidPort,
    WeakInProduction(Seq<char>),
    MissingInProduction(Seq<char>, Seq<char>),
}

impl View for SettingsError {
    type V = SettingsErrorView;

    open spec fn view(&self) -> SettingsErrorView {
        match self {
            SettingsError::Unreadable(name) => SettingsErrorView::Unreadable(name@),
            SettingsError::InvalidBool(name) => SettingsErrorView::InvalidBool(name@),
            SettingsError::InvalidPort => SettingsErrorView::InvalidPort,
            SettingsError::WeakInProduction(name) => SettingsErrorView::WeakInProduction(name@),
            SettingsError::MissingInProduction(name, label) => SettingsErrorView::MissingInProduction(
                name@,
                label@,
            ),
        }
    }
}

/// The settings with their texts.
pub ghost struct SettingsView {
    pub production: bool,
    pub listen_host: Seq<char>,
    pub listen_port: u16,
    pub database_url: Seq<char>,
    pub secret_key: Seq<char>,
    pub admin_username: Seq<char>,
    pub admin_password: Seq<char>,
}

impl View for ServerSettings {
    type V = SettingsView;

    open spec fn view(&self) -> SettingsView {
        SettingsView {
            production: self.production,
            listen_host: self.listen_host@,
            listen_port: self.listen_port,
            database_url: self.database_url@,
            secret_key: self.secret_key@,
            admin_username: self.admin_username@,
            admin_password: self.admin_password@,
        }
    }
}

impl SettingsError {
    pub open spec fn spec_message(&self) -> Seq<char> {
        match self@ {
            SettingsErrorView::Unreadable(name) => "failed to read "@ + name,
            SettingsErrorView::InvalidBool(name) => name + " must be true or false"@,
            SettingsErrorView::InvalidPort => "LISTEN_PORT must be a valid TCP port"@,
            SettingsErrorView::WeakInProduction(name) => name
                + " must not use the development default or placeholder in production"@,
            SettingsErrorView::MissingInProduction(name, label) => name + " must be set in production for "@
                + label,
        }
    }

    /// The message the server stops with.
    pub fn message(&self) -> (message: String)
        ensures
            message@ == self.spec_message(),
    {
        match self {
            SettingsError::Unreadable(name) => String::from_str("failed to read ").concat(name.as_str()),
            SettingsError::InvalidBool(name) => name.clone().concat(" must be true or false"),
            SettingsError::InvalidPort => String::from_str("LISTEN_PORT must be a valid TCP port"),
            SettingsError::WeakInProduction(name) => name.clone().concat(
                " must not use the development default or placeholder in production",
            ),
            SettingsError::MissingInProduction(name, label) => name.clone().concat(
                " must be set in production for ",
            ).concat(label.as_str()),
        }
    }
}

/// A flag variable: `1`, `true`, `yes` or `on` is set; `0`, `false`, `no`,
/// `off` or nothing is not, in any case and with white space around it.
pub open spec fn spec_env_bool(name: Seq<char>, value: EnvValue) -> Result<bool, SettingsErrorView> {
    match value {
        EnvValue::Present(text) => {
            let word = ascii_lower(spec_trim(text@));
            if word == "1"@ || word == "true"@ || word == "yes"@ || word == "on"@ {
                Ok(true)
            } else if word == "0"@ || word == "false"@ || word == "no"@ || word == "off"@ || word == ""@ {
                Ok(false)
            } else {
                Err(SettingsErrorView::InvalidBool(name))
            }
        },
        EnvValue::NotPresent => Ok(false),
        EnvValue::NotUnicode => Err(SettingsErrorView::Unreadable(name)),
    }
}

fn env_bool(name: &str, value: &EnvValue) -> (flag: Result<bool, SettingsError>)
    ensures
        match spec_env_bool(name@, *value) {
            Ok(flag_value) => flag == Ok::<bool, SettingsError>(flag_value),
            Err(error) => flag matches Err(e) && e@ == error,
        },
{
    match value {
        EnvValue::Present(text) => {
            let word = trim(text.as_str());
            if lowercase_equals(word, "1") || lowercase_equals(word, "true") || lowercase_equals(word, "yes")
                || lowercase_equals(word, "on") {
                Ok(true)
            } else if lowercase_equals(word, "0") || lowercase_equals(word, "false") || lowercase_equals(
                word,
                "no",
            ) || lowercase_equals(word, "off") || lowercase_equals(word, "") {
                Ok(false)
            } else {
                Err(SettingsError::InvalidBool(String::from_str(name)))
            }
        },
        EnvValue::NotPresent => Ok(false),
        EnvValue::NotUnicode => Err(SettingsError::Unreadable(String::from_str(name))),
    }
}

/// A value a production server refuses: the development default or a placeholder.
pub open spec fn spec_is_weak_production_value(value: Seq<char>, dev_default: Seq<char>) -> bool {
    ||| value == dev_default
    ||| (value.len() >= 9 && value.subrange(0, 9) == "change-me"@)
    ||| (value.len() >= 8 && value.subrange(0, 8) == "replace-"@)
}

fn starts_with(value: &str, prefix: &str) -> (starts: bool)
    ensures
        starts == (value@.len() >= prefix@.len() && value@.subrange(0, prefix@.len() as int) == prefix@),
{
    let length = prefix.unicode_len();
    if value.unicode_len() < length {
        return false;
    }
    let head = String::from_str(value.substring_char(0, length));
    let expected = String::from_str(prefix);
    head == expected
}

pub fn is_weak_production_value(value: &str, dev_default: &str) -> (weak: bool)
    ensures
        weak == spec_is_weak_production_value(value@, dev_default@),
{
    proof {
        reveal_strlit("change-me");
        reveal_strlit("replace-");
    }
    let given = String::from_str(value);
    let default = String::from_str(dev_default);
    given == default || starts_with(value, "change-me") || starts_with(value, "replace-")
}

/// A credential: refused in production when weak or missing, the development
/// default outside production when missing.
pub open spec fn spec_required_or_default(
    name: Seq<char>,
    dev_default: Seq<char>,
    production: bool,
    label: Seq<char>,
    value: EnvValue,
) -> Result<Seq<char>, SettingsErrorView> {
    match value {
        EnvValue::Present(text) => if production && spec_is_weak_production_value(spec_trim(text@), dev_default) {
            Err(SettingsErrorView::WeakInProduction(name))
        } else if spec_trim(text@).len() > 0 {
            Ok(text@)
        } else if production {
            Err(SettingsErrorView::MissingInProduction(name, label))
        } else {
            Ok(dev_default)
        },
        EnvValue::NotPresent => if production {
            Err(SettingsErrorView::MissingInProduction(name, label))
        } else {
            Ok(dev_default)
        },
        EnvValue::NotUnicode => Err(SettingsErrorView::Unreadable(name)),
    }
}

fn required_or_default(
    name: &str,
    dev_default: &str,
    production: bool,
    label: &str,
    value: &EnvValue,
) -> (result: Result<String, SettingsError>)
    ensures
        match spec_required_or_default(name@, dev_default@, production, label@, *value) {
            Ok(text) => result matches Ok(s) && s@ == text,
            Err(error) => result matches Err(e) && e@ == error,
        },
{
    match value {
        EnvValue::Present(text) => {
            let trimmed = trim(text.as_str());
            if production && is_weak_production_value(trimmed, dev_default) {
                Err(SettingsError::WeakInProduction(String::from_str(name)))
            } else if trimmed.unicode_len() > 0 {
                Ok(text.clone())
            } else if production {
                Err(SettingsError::MissingInProduction(String::from_str(name), String::from_str(label)))
            } else {
                Ok(String::from_str(dev_default))
            }
        },
        EnvValue::NotPresent => if production {
            Err(SettingsError::MissingInProduction(String::from_str(name), String::from_str(label)))
        } else {
            Ok(String::from_str(dev_default))
        },
        EnvValue::NotUnicode => Err(SettingsError::Unreadable(String::from_str(name))),
    }
}

/// A text variable with a default for when it is missing or blank.
pub open spec fn spec_text_or_default(name: Seq<char>, default: Seq<char>, value: EnvValue) -> Result<Seq<char>, SettingsErrorView> {
    match value {
        EnvValue::Present(text) => if spec_trim(text@).len() > 0 {
            Ok(text@)
        } else {
            Ok(default)
        },
        EnvValue::NotPresent => Ok(default),
        EnvValue::NotUnicode => Err(SettingsErrorView::Unreadable(name)),
    }
}

fn text_or_default(name: &str, default: &str, value: &EnvValue) -> (result: Result<String, SettingsError>)
    ensures
        match spec_text_or_default(name@, default@, *value) {
            Ok(text) => result matches Ok(s) && s@ == text,
            Err(error) => result matches Err(e) && e@ == error,
        },
{
    match value {
        EnvValue::Present(text) => if trim(text.as_str()).unicode_len() > 0 {
            Ok(text.clone())
        } else {
            Ok(String::from_str(default))
        },
        EnvValue::NotPresent => Ok(String::from_str(default)),
        EnvValue::NotUnicode => Err(SettingsError::Unreadable(String::from_str(name))),
    }
}

/// The listening port: the variable, or 3000 when it is missing, read as a TCP port.
pub open spec fn spec_listen_port(value: EnvValue) -> Result<u16, SettingsErrorView> {
    match value {
        EnvValue::Present(text) => match spec_parse_decimal(text@, 65535) {
            Some(port) => Ok(port as u16),
            None => Err(SettingsErrorView::InvalidPort),
        },
        EnvValue::NotPresent => Ok(3000),
        EnvValue::NotUnicode => Err(SettingsErrorView::Unreadable("LISTEN_PORT"@)),
    }
}

fn listen_port(value: &EnvValue) -> (result: Result<u16, SettingsError>)
    ensures
        match spec_listen_port(*value) {
            Ok(port) => result == Ok::<u16, SettingsError>(port),
            Err(error) => result matches Err(e) && e@ == error,
        },
{
    match value {
        EnvValue::Present(text) => match parse_decimal(text.as_str(), 65535) {
            Some(port) => Ok(port as u16),
            None => Err(SettingsError::InvalidPort),
        },
        EnvValue::NotPresent => Ok(3000),
        EnvValue::NotUnicode => Err(SettingsError::Unreadable(String::from_str("LISTEN_PORT"))),
    }
}

/// The server's settings from its environment: the production flag, the
/// address to listen on (public in production, local otherwise), the database,
/// and the device secret and administrator credentials, which production
/// requires and refuses as development defaults or placeholders.
pub open spec fn spec_settings(vars: EnvVars) -> Result<SettingsView, SettingsErrorView> {
    match spec_env_bool("EPAPER_ALBUM_PRODUCTION"@, vars.production) {
        Err(error) => Err(error),
        Ok(production) => match spec_text_or_default(
            "LISTEN_HOST"@,
            if production { "0.0.0.0"@ } else { "127.0.0.1"@ },
            vars.listen_host,
        ) {
            Err(error) => Err(error),
            Ok(host) => match spec_listen_port(vars.listen_port) {
                Err(error) => Err(error),
                Ok(port) => match spec_text_or_default(
                    "DATABASE_URL"@,
                    "sqlite:data/epaper-album.db?mode=rwc"@,
                    vars.database_url,
                ) {
                    Err(error) => Err(error),
                    Ok(database_url) => match spec_required_or_default(
                        "SECRET_KEY"@,
                        "local-secret-key"@,
                        production,
                        "device secret key"@,
                        vars.secret_key,
                    ) {
                        Err(error) => Err(error),
                        Ok(secret_key) => match spec_required_or_default(
                            "ADMIN_USERNAME"@,
                            "admin"@,
                            production,
                            "admin username"@,
                            vars.admin_username,
                        ) {
                            Err(error) => Err(error),
                            Ok(admin_username) => match spec_required_or_default(
                                "ADMIN_PASSWORD"@,
                                "admin"@,
                                production,
                                "admin password"@,
                                vars.admin_password,
                            ) {
                                Err(error) => Err(error),
                                Ok(admin_password) => Ok(
                                    SettingsView {
                                        production,
                                        listen_host: host,
                                        listen_port: port,
                                        database_url,
                                        secret_key,
                                        admin_username,
                                        admin_password,
                                    },
                                ),
                            },
                        },
                    },
                },
            },
        },
    }
}

/// Makes the server's settings from its environment.
pub fn settings_from_env(vars: &EnvVars) -> (settings: Result<ServerSettings, SettingsError>)
    ensures
        match spec_settings(*vars) {
            Ok(view) => settings matches Ok(s) && s@ == view,
            Err(error) => settings matches Err(e) && e@ == error,
        },
{
    let production = env_bool("EPAPER_ALBUM_PRODUCTION", &vars.production)?;
    let default_host = if production {
        "0.0.0.0"
    } else {
        "127.0.0.1"
    };
    let listen_host = text_or_default("LISTEN_HOST", default_host, &vars.listen_host)?;
    let port = listen_port(&vars.listen_port)?;
    let database_url = text_or_default("DATABASE_URL", "sqlite:data/epaper-album.db?mode=rwc", &vars.database_url)?;
    let secret_key = required_or_default("SECRET_KEY", "local-secret-key", production, "device secret key", &vars.secret_key)?;
    let admin_username = required_or_default("ADMIN_USERNAME", "admin", production, "admin username", &vars.admin_username)?;
    let admin_password = required_or_default("ADMIN_PASSWORD", "admin", production, "admin password", &vars.admin_password)?;
    Ok(
        ServerSettings {
            production,
            listen_host,
            listen_port: port,
            database_url,
            secret_key,
            admin_username,
            admin_password,
        },
    )
}

} // verus!
