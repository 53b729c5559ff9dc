use vstd::prelude::*;

use crate::domain::subscriber_email::email_parse_result;
use crate::domain::{SubscriberEmail, SubscriberEmailParseError};
use crate::hkt::{K1, RefHKT, SharedPointerHKT};
use crate::text::same_text;

verus! {

/// The whole configuration: each part behind a pointer of kind `P`.
pub struct Settings<P: RefHKT<str> + RefHKT<DatabaseSettings<P>> + RefHKT<ApplicationSettings<P>> + RefHKT<EmailClientSettings<P>>> {
    pub database: K1<P, DatabaseSettings<P>>,
    pub application: K1<P, ApplicationSettings<P>>,
    pub email_client: K1<P, EmailClientSettings<P>>,
}

impl<P: RefHKT<str> + RefHKT<DatabaseSettings<P>> + RefHKT<ApplicationSettings<P>> + RefHKT<EmailClientSettings<P>>> Settings<P> {
    pub fn new(
        database: K1<P, DatabaseSettings<P>>,
        application: K1<P, ApplicationSettings<P>>,
        email_client: K1<P, EmailClientSettings<P>>,
    ) -> (r: Self)
        ensures
            r.database == database,
            r.application == application,
            r.email_client == email_client,
    {
        Settings { database, application, email_client }
    }
}

impl<P: SharedPointerHKT<str> + SharedPointerHKT<DatabaseSettings<P>> + SharedPointerHKT<ApplicationSettings<P>> + SharedPointerHKT<EmailClientSettings<P>>> Clone for Settings<P> {
    /// Shares each part with the copy.
    fn clone(&self) -> (r: Self)
        ensures
            r.database.pointee() == self.database.pointee(),
            r.application.pointee() == self.application.pointee(),
            r.email_client.pointee() == self.email_client.pointee(),
    {
        Settings {
            database: self.database.clone(),
            application: self.application.clone(),
            email_client: self.email_client.clone(),
        }
    }
}

/// How to reach the database.
pub struct DatabaseSettings<P: RefHKT<str>> {
    pub username: K1<P, str>,
    pub password: K1<P, str>,
    pub port: u16,
    pub host: K1<P, str>,
    pub database_name: K1<P, str>,
    pub require_ssl: bool,
}

impl<P: RefHKT<str>> DatabaseSettings<P> {
    pub fn new(
        username: K1<P, str>,
        password: K1<P, str>,
        port: u16,
        host: K1<P, str>,
        database_name: K1<P, str>,
        require_ssl: bool,
    ) -> (r: Self)
        ensures
            r.username == username,
            r.password == password,
            r.port == port,
            r.host == host,
            r.database_name == database_name,
            r.require_ssl == require_ssl,
    {
        DatabaseSettings { username, password, port, host, database_name, require_ssl }
    }
}

/// Whether a database connection must be encrypted.
#[derive(Debug, Clone, Copy, PartialEq, Eq, Structural)]
pub enum SslMode {
    /// Only an encrypted connection is accepted.
    Require,
    /// An encrypted connection is tried first, a plain one accepted.
    Prefer,
}

/// The level at which `sqlx` logs the statements it runs, as `log::LevelFilter` names them.
#[derive(Debug, Clone, Copy, PartialEq, Eq, Structural)]
pub enum LogLevel {
    Off,
    Error,
    Warn,
    Info,
    Debug,
    Trace,
}

/// What the connection options to the database are made of: the server, the
/// credentials, the SSL mode, and optionally the database to choose and the level at
/// which statements are logged.
pub struct PgConnectSettings {
    pub host: String,
    pub username: String,
    pub password: String,
    pub port: u16,
    pub ssl_mode: SslMode,
    pub database: Option<String>,
    pub log_level: Option<LogLevel>,
}

/// Calls `PgConnectOptions::new()` and sets host, user name, password, port and the
/// `sqlx` SSL mode that `ssl` names. The options are opaque here, so nothing is stated.
#[verifier::external_body]
fn pg_connect_options(host: &str, username: &str, password: &str, port: u16, ssl: SslMode) -> (r: sqlx::postgres::PgConnectOptions) {
    let mode = match ssl {
        SslMode::Require => sqlx::postgres::PgSslMode::Require,
        SslMode::Prefer => sqlx::postgres::PgSslMode::Prefer,
    };
    sqlx::postgres::PgConnectOptions::new().host(host).username(username).password(password).port(port).ssl_mode(mode)
}

/// Calls `PgConnectOptions::database` with `database`. The options are opaque here, so
/// nothing is stated.
#[verifier::external_body]
fn pg_with_database(options: sqlx::postgres::PgConnectOptions, database: &str) -> (r: sqlx::postgres::PgConnectOptions) {
    options.database(database)
}

/// Calls `ConnectOptions::log_statements` with the `log::LevelFilter` that `level` names.
/// The options are opaque here, so nothing is stated.
#[verifier::external_body]
fn pg_log_statements(options: sqlx::postgres::PgConnectOptions, level: LogLevel) -> (r: sqlx::postgres::PgConnectOptions) {
    let filter = match level {
        LogLevel::Off => tracing_log::log::LevelFilter::Off,
        LogLevel::Error => tracing_log::log::LevelFilter::Error,
        LogLevel::Warn => tracing_log::log::LevelFilter::Warn,
        LogLevel::Info => tracing_log::log::LevelFilter::Info,
        LogLevel::Debug => tracing_log::log::LevelFilter::Debug,
        LogLevel::Trace => tracing_log::log::LevelFilter::Trace,
    };
    sqlx::ConnectOptions::log_statements(options, filter)
}

impl PgConnectSettings {
    /// The `sqlx` connection options these settings describe: the server part first, then
    /// the database and the statement log level where they are given.
    pub fn connect_options(&self) -> sqlx::postgres::PgConnectOptions {
        let mut options = pg_connect_options(
            self.host.as_str(),
            self.username.as_str(),
            self.password.as_str(),
            self.port,
            self.ssl_mode,
        );
        match &self.database {
            Some(database) => {
                options = pg_with_database(options, database.as_str());
            },
            None => {},
        }
        match self.log_level {
            Some(level) => {
                options = pg_log_statements(options, level);
            },
            None => {},
        }
        options
    }
}

impl<P: RefHKT<str>> DatabaseSettings<P> {
    /// The SSL mode of the connection: required when the settings ask for it, else
    /// preferred.
    pub fn ssl_mode(&self) -> (r: SslMode)
        ensures
            r == (if self.require_ssl { SslMode::Require } else { SslMode::Prefer }),
    {
        if self.require_ssl {
            SslMode::Require
        } else {
            SslMode::Prefer
        }
    }

    /// The options that reach the server, without choosing a database.
    pub fn without_db(&self) -> (r: PgConnectSettings)
        ensures
            r.host@ == self.host@,
            r.username@ == self.username@,
            r.password@ == self.password@,
            r.port == self.port,
            r.ssl_mode == (if self.require_ssl { SslMode::Require } else { SslMode::Prefer }),
            r.database is None,
            r.log_level is None,
    {
        PgConnectSettings {
            host: (&*self.host).to_owned(),
            username: (&*self.username).to_owned(),
            password: (&*self.password).to_owned(),
            port: self.port,
            ssl_mode: self.ssl_mode(),
            database: None,
            log_level: None,
        }
    }

    /// The options that reach the configured database, logging every statement at the
    /// `Trace` level.
    pub fn with_db(&self) -> (r: PgConnectSettings)
        ensures
            r.host@ == self.host@,
            r.username@ == self.username@,
            r.password@ == self.password@,
            r.port == self.port,
            r.ssl_mode == (if self.require_ssl { SslMode::Require } else { SslMode::Prefer }),
            r.database matches Some(d) && d@ == self.database_name@,
            r.log_level == Some(LogLevel::Trace),
    {
        let mut settings = self.without_db();
        settings.database = Some((&*self.database_name).to_owned());
        settings.log_level = Some(LogLevel::Trace);
        settings
    }
}

impl<P: SharedPointerHKT<str>> Clone for DatabaseSettings<P> {
    /// Shares each string with the copy.
    fn clone(&self) -> (r: Self)
        ensures
            r.username@ == self.username@,
            r.password@ == self.password@,
            r.port == self.port,
            r.host@ == self.host@,
            r.database_name@ == self.database_name@,
            r.require_ssl == self.require_ssl,
    {
        DatabaseSettings {
            username: self.username.clone(),
            password: self.password.clone(),
            port: self.port,
            host: self.host.clone(),
            database_name: self.database_name.clone(),
            require_ssl: self.require_ssl,
        }
    }
}

/// Where the HTTP server listens.
pub struct ApplicationSettings<P: RefHKT<str>> {
    pub port: u16,
    pub host: K1<P, str>,
}

impl<P: RefHKT<str>> ApplicationSettings<P> {
    pub fn new(port: u16, host: K1<P, str>) -> (r: Self)
        ensures
            r.port == port,
            r.host == host,
    {
        ApplicationSettings { port, host }
    }
}

impl<P: SharedPointerHKT<str>> Clone for ApplicationSettings<P> {
    /// Shares the host with the copy.
    fn clone(&self) -> (r: Self)
        ensures
            r.port == self.port,
            r.host@ == self.host@,
    {
        ApplicationSettings { port: self.port, host: self.host.clone() }
    }
}

/// How to reach the e-mail delivery service.
pub struct EmailClientSettings<P: RefHKT<str>> {
    pub base_url: K1<P, str>,
    pub sender_email: K1<P, str>,
    pub authorization_token: K1<P, str>,
    pub timeout_milliseconds: u64,
}

/// The duration of `ms` milliseconds, as `std::time::Duration::from_millis` makes it.
pub uninterp spec fn duration_from_millis(ms: u64) -> std::time::Duration;

/// Calls `std::time::Duration::from_millis`, whose result is fixed by its argument.
#[verifier::external_body]
fn millis(ms: u64) -> (r: std::time::Duration)
    ensures
        r == duration_from_millis(ms),
{
    std::time::Duration::from_millis(ms)
}

impl<P: RefHKT<str>> EmailClientSettings<P> {
    pub fn new(
        base_url: K1<P, str>,
        sender_email: K1<P, str>,
        authorization_token: K1<P, str>,
        timeout_milliseconds: u64,
    ) -> (r: Self)
        ensures
            r.base_url == base_url,
            r.sender_email == sender_email,
            r.authorization_token == authorization_token,
            r.timeout_milliseconds == timeout_milliseconds,
    {
        EmailClientSettings { base_url, sender_email, authorization_token, timeout_milliseconds }
    }

    /// How long a request to the e-mail service may take.
    pub fn timeout(&self) -> (r: std::time::Duration)
        ensures
            r == duration_from_millis(self.timeout_milliseconds),
    {
        millis(self.timeout_milliseconds)
    }
}

impl<P: SharedPointerHKT<str>> EmailClientSettings<P> {
    /// The configured sender address, if `validator` accepts it.
    pub fn sender(&self) -> (r: Result<SubscriberEmail<P>, SubscriberEmailParseError>)
        ensures
            email_parse_result(self.sender_email@, r),
    {
        SubscriberEmail::try_from(self.sender_email.clone())
    }
}

impl<P: SharedPointerHKT<str>> Clone for EmailClientSettings<P> {
    /// Shares each string with the copy.
    fn clone(&self) -> (r: Self)
        ensures
            r.base_url@ == self.base_url@,
            r.sender_email@ == self.sender_email@,
            r.authorization_token@ == self.authorization_token@,
            r.timeout_milliseconds == self.timeout_milliseconds,
    {
        EmailClientSettings {
            base_url: self.base_url.clone(),
            sender_email: self.sender_email.clone(),
            authorization_token: self.authorization_token.clone(),
            timeout_milliseconds: self.timeout_milliseconds,
        }
    }
}

/// The environment the application runs in.
#[derive(Debug, Clone, Copy, PartialEq, Eq, Structural)]
pub enum Environment {
    Local,
    Production,
}

pub open spec fn environment_name(e: Environment) -> Seq<char> {
    match e {
        Environment::Local => "local"@,
        Environment::Production => "production"@,
    }
}

impl Environment {
    /// The name of the environment, which also names its configuration file.
    pub fn as_str(&self) -> (r: &'static str)
        ensures
            r@ == environment_name(*self),
    {
        match self {
            Environment::Local => "local",
            Environment::Production => "production",
        }
    }
}

/// `c` lowered if it is an ASCII capital letter.
pub open spec fn ascii_lower(c: char) -> char {
    if 'A' <= c <= 'Z' {
        ((c as u32) + 32) as char
    } else {
        c
    }
}

/// `s` with its ASCII capital letters lowered.
pub open spec fn ascii_lowercase(s: Seq<char>) -> Seq<char> {
    s.map_values(|c: char| ascii_lower(c))
}

/// The lowercase form of `s`, as `str::to_lowercase` gives it.
pub uninterp spec fn unicode_lowercase(s: Seq<char>) -> Seq<char>;

/// Calls `str::to_lowercase`. Besides naming the result, the contract states what its
/// documentation and the Unicode data give for ASCII text: each capital letter is
/// lowered and every other ASCII character is kept.
#[verifier::external_body]
fn to_lowercase(s: &str) -> (r: String)
    ensures
        r@ == unicode_lowercase(s@),
        vstd::utf8::is_ascii_chars(s@) ==> r@ == ascii_lowercase(s@),
{
    s.to_lowercase()
}

/// The message that refuses the environment name `lowered` (already lowercase).
pub open spec fn unsupported_environment_message(lowered: Seq<char>) -> Seq<char> {
    lowered + " is not a supported environment. Use either `local` or `production`."@
}

/// What `Environment::try_from` gives for a name whose lowercase form is `lowered`.
pub open spec fn environment_from_lowercase(lowered: Seq<char>) -> Result<Environment, Seq<char>> {
    if lowered == "local"@ {
        Ok(Environment::Local)
    } else if lowered == "production"@ {
        Ok(Environment::Production)
    } else {
        Err(unsupported_environment_message(lowered))
    }
}

impl TryFrom<String> for Environment {
    type Error = String;

    /// Reads an environment name, whatever its case.
    fn try_from(s: String) -> (r: Result<Environment, String>)
        ensures
            match environment_from_lowercase(unicode_lowercase(s@)) {
                Ok(e) => r == Ok::<Environment, String>(e),
                Err(m) => r matches Err(msg) && msg@ == m,
            },
            vstd::utf8::is_ascii_chars(s@) ==> match environment_from_lowercase(ascii_lowercase(s@)) {
                Ok(e) => r == Ok::<Environment, String>(e),
                Err(m) => r matches Err(msg) && msg@ == m,
            },
    {
        let lowered = to_lowercase(s.as_str());
        if same_text(lowered.as_str(), "local") {
            Ok(Environment::Local)
        } else if same_text(lowered.as_str(), "production") {
            Ok(Environment::Production)
        } else {
            let mut message = lowered;
            message.append(" is not a supported environment. Use either `local` or `production`.");
            Err(message)
        }
    }
}

impl vstd::std_specs::convert::TryFromSpecImpl<String> for Environment {
    open spec fn obeys_try_from_spec() -> bool {
        false
    }

    open spec fn try_from_spec(v: String) -> Result<Environment, String> {
        match environment_from_lowercase(unicode_lowercase(v@)) {
            Ok(e) => Ok(e),
            Err(m) => Err(choose|msg: String| msg@ == m),
        }
    }
}

/// An environment's name is read back as that environment: `as_str` gives ASCII text
/// that lowering leaves as it is, and that `try_from` maps to the environment.
pub proof fn lemma_environment_name_round_trip(e: Environment)
    ensures
        vstd::utf8::is_ascii_chars(environment_name(e)),
        ascii_lowercase(environment_name(e)) == environment_name(e),
        environment_from_lowercase(ascii_lowercase(environment_name(e))) == Ok::<Environment, Seq<char>>(e),
{
    reveal_strlit("local");
    reveal_strlit("production");
    assert(ascii_lowercase(environment_name(e)) =~= environment_name(e));
    assert("local"@ != "production"@) by {
        assert("local"@.len() != "production"@.len());
    }
}

} // verus!
