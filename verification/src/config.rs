//! The configuration of the service, read from the values of its
//! environment variables.

use crate::errors::{AppError, AppErrorView};
use crate::outside::strings::{parse_u16, u16_parse_error, u16_reading};
use crate::text::{join2, join3, trim, trimmed};
use vstd::prelude::*;

verus! {

/// The price of an appointment where none is given, in kobo: 10000 naira.
pub const DEFAULT_APPOINTMENT_PRICE: u64 = 1_000_000;

/// The configuration of the service.
pub struct AppConfig {
    pub database_url: String,
    pub server_port: u16,
    /// Where payments are initialized.
    pub paystack_url: String,
    pub paystack_secret_key: String,
    /// The secret that tokens are signed with.
    pub secret_key: String,
}

/// The values of the environment variables that the service reads, each
/// `None` where the variable is not set or does not hold Unicode text.
pub struct Environment {
    /// `DATABASE_URL`
    pub database_url: Option<String>,
    /// `SERVER_PORT`
    pub server_port: Option<String>,
    /// `PAYSTACK_PAYMENT_URL`
    pub paystack_payment_url: Option<String>,
    /// `PAYSTACK_SECRET_KEY`
    pub paystack_secret_key: Option<String>,
    /// `SECRET_KEY`
    pub secret_key: Option<String>,
}

/// An [`AppConfig`] with its texts as sequences of characters.
pub struct AppConfigView {
    pub database_url: Seq<char>,
    pub server_port: u16,
    pub paystack_url: Seq<char>,
    pub paystack_secret_key: Seq<char>,
    pub secret_key: Seq<char>,
}

impl View for AppConfig {
    type V = AppConfigView;

    open spec fn view(&self) -> AppConfigView {
        AppConfigView {
            database_url: self.database_url@,
            server_port: self.server_port,
            paystack_url: self.paystack_url@,
            paystack_secret_key: self.paystack_secret_key@,
            secret_key: self.secret_key@,
        }
    }
}

/// The text of a variable: its value without surrounding white space, and
/// `MissingEnvironmentVarible` with the variable's name where it has none.
pub open spec fn env_text(key: Seq<char>, value: Option<String>) -> Result<
    Seq<char>,
    AppErrorView,
> {
    match value {
        Some(value) => Ok(trimmed(value@)),
        None => Err(AppErrorView::MissingEnvironmentVarible(key)),
    }
}

/// The port in a variable: the `u16` that its trimmed value denotes,
/// `MissingEnvironmentVarible` where it has no value and `ParsingError`
/// where the value denotes none.
pub open spec fn env_port(key: Seq<char>, value: Option<String>) -> Result<u16, AppErrorView> {
    match value {
        Some(value) => match u16_reading(trimmed(value@)) {
            Some(port) => Ok(port),
            None => Err(unreadable_port(key, u16_parse_error(trimmed(value@)))),
        },
        None => Err(AppErrorView::MissingEnvironmentVarible(key)),
    }
}

/// The configuration that an environment gives, or the error for the first
/// variable, in the order of the fields, that is missing or malformed.
pub open spec fn config_read(env: Environment) -> Result<AppConfigView, AppErrorView> {
    match env_text("DATABASE_URL"@, env.database_url) {
        Err(e) => Err(e),
        Ok(database_url) => match env_port("SERVER_PORT"@, env.server_port) {
            Err(e) => Err(e),
            Ok(server_port) => match env_text("PAYSTACK_PAYMENT_URL"@, env.paystack_payment_url) {
                Err(e) => Err(e),
                Ok(paystack_url) => match env_text(
                    "PAYSTACK_SECRET_KEY"@,
                    env.paystack_secret_key,
                ) {
                    Err(e) => Err(e),
                    Ok(paystack_secret_key) => match env_text("SECRET_KEY"@, env.secret_key) {
                        Err(e) => Err(e),
                        Ok(secret_key) => Ok(
                            AppConfigView {
                                database_url,
                                server_port,
                                paystack_url,
                                paystack_secret_key,
                                secret_key,
                            },
                        ),
                    },
                },
            },
        },
    }
}

/// The text of the variable `key`, trimmed.
pub fn get_env_text(key: &str, value: &Option<String>) -> (r: Result<String, AppError>)
    ensures
        match r {
            Ok(text) => env_text(key@, *value) == Ok::<Seq<char>, AppErrorView>(text@),
            Err(e) => env_text(key@, *value) == Err::<Seq<char>, AppErrorView>(e@),
        },
{
    match value {
        Some(value) => Ok(trim(value.as_str()).to_owned()),
        None => Err(AppError::MissingEnvironmentVarible(key.to_owned())),
    }
}

/// The error for a port that is no number, with the parser's message.
pub open spec fn unreadable_port(key: Seq<char>, why: Seq<char>) -> AppErrorView {
    AppErrorView::ParsingError("Failed to parse environment variable '"@ + key + "': "@ + why)
}

/// What parsing the port of the variable `key` came to: the port, or
/// `ParsingError` with the variable's name and the parser's message.
pub fn port_or_unreadable(key: &str, parsed: Result<u16, String>) -> (r: Result<u16, AppError>)
    ensures
        match parsed {
            Ok(port) => r == Ok::<u16, AppError>(port),
            Err(why) => r is Err && r->Err_0@ == unreadable_port(key@, why@),
        },
{
    match parsed {
        Ok(port) => Ok(port),
        Err(why) => {
            let head = join3("Failed to parse environment variable '", key, "': ");
            Err(AppError::ParsingError(join2(head.as_str(), why.as_str())))
        },
    }
}

/// The port in the variable `key`.
pub fn get_env_port(key: &str, value: &Option<String>) -> (r: Result<u16, AppError>)
    ensures
        match r {
            Ok(port) => env_port(key@, *value) == Ok::<u16, AppErrorView>(port),
            Err(e) => env_port(key@, *value) == Err::<u16, AppErrorView>(e@),
        },
{
    match value {
        Some(value) => port_or_unreadable(key, parse_u16(trim(value.as_str()))),
        None => Err(AppError::MissingEnvironmentVarible(key.to_owned())),
    }
}

impl AppConfig {
    /// The configuration that the environment gives. Fails on the first
    /// variable that is missing, and on a port that is no number up to
    /// 65535.
    pub fn from_env(env: &Environment) -> (r: Result<AppConfig, AppError>)
        ensures
            match r {
                Ok(config) => config_read(*env) == Ok::<AppConfigView, AppErrorView>(config@),
                Err(e) => config_read(*env) == Err::<AppConfigView, AppErrorView>(e@),
            },
    {
        let database_url = match get_env_text("DATABASE_URL", &env.database_url) {
            Ok(text) => text,
            Err(e) => {
                return Err(e);
            },
        };
        let server_port = match get_env_port("SERVER_PORT", &env.server_port) {
            Ok(port) => port,
            Err(e) => {
                return Err(e);
            },
        };
        let paystack_url = match get_env_text("PAYSTACK_PAYMENT_URL", &env.paystack_payment_url) {
            Ok(text) => text,
            Err(e) => {
                return Err(e);
            },
        };
        let paystack_secret_key = match get_env_text(
            "PAYSTACK_SECRET_KEY",
            &env.paystack_secret_key,
        ) {
            Ok(text) => text,
            Err(e) => {
                return Err(e);
            },
        };
        let secret_key = match get_env_text("SECRET_KEY", &env.secret_key) {
            Ok(text) => text,
            Err(e) => {
                return Err(e);
            },
        };
        Ok(AppConfig { database_url, server_port, paystack_url, paystack_secret_key, secret_key })
    }
}

} // verus!
