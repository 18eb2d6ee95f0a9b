//! Session configuration: the four connection parameters, which of them is
//! required, and the connection URL built from them. The caller reads the
//! process environment and hands the raw values in; everything that can go
//! wrong before a connection is attempted is decided here.
use vstd::prelude::*;
use vstd::string::StringExecFns;

verus! {

/// Which required connection parameter is absent. Startup must halt on the
/// first missing one, named explicitly.
#[derive(Clone, Copy, PartialEq, Eq, Structural, Debug)]
pub enum ConfigError {
    MissingHost,
    MissingUser,
    MissingPassword,
}

/// The connection parameters a session is opened with.
pub struct Config {
    pub host: String,
    pub user: String,
    pub password: String,
    pub dbname: String,
}

/// The database name used when none is given.
pub open spec fn spec_default_dbname() -> Seq<char> {
    "postgres"@
}

/// The environment variable that a missing-parameter error names.
pub open spec fn spec_variable_name(e: ConfigError) -> Seq<char> {
    match e {
        ConfigError::MissingHost => "POSTGRES_HOST"@,
        ConfigError::MissingUser => "POSTGRES_USER"@,
        ConfigError::MissingPassword => "POSTGRES_PASSWORD"@,
    }
}

/// Names the environment variable whose absence caused the error, for the
/// startup diagnostic.
pub fn variable_name(e: ConfigError) -> (s: &'static str)
    ensures
        s@ == spec_variable_name(e),
{
    match e {
        ConfigError::MissingHost => "POSTGRES_HOST",
        ConfigError::MissingUser => "POSTGRES_USER",
        ConfigError::MissingPassword => "POSTGRES_PASSWORD",
    }
}

/// The URL the session is opened with: every parameter appears verbatim,
/// the port is fixed, and encrypted transport is demanded (`sslmode=require`).
pub open spec fn spec_connection_url(
    host: Seq<char>,
    user: Seq<char>,
    password: Seq<char>,
    dbname: Seq<char>,
) -> Seq<char> {
    "host="@ + host + " port=5432 user="@ + user + " password="@ + password + " dbname="@ + dbname
        + " sslmode=require"@
}

impl Config {
    /// Decides startup from the raw environment values: each required value
    /// must be present, and the check stops at the first absent one; the
    /// database name falls back to its default.
    pub fn from_env(
        host: Option<String>,
        user: Option<String>,
        password: Option<String>,
        dbname: Option<String>,
    ) -> (r: Result<Config, ConfigError>)
        ensures
            r is Ok <==> (host is Some && user is Some && password is Some),
            host is None ==> r == Result::<Config, ConfigError>::Err(ConfigError::MissingHost),
            host is Some && user is None ==> r == Result::<Config, ConfigError>::Err(
                ConfigError::MissingUser,
            ),
            host is Some && user is Some && password is None ==> r == Result::<
                Config,
                ConfigError,
            >::Err(ConfigError::MissingPassword),
            r matches Ok(c) ==> {
                &&& c.host == host->0
                &&& c.user == user->0
                &&& c.password == password->0
                &&& (dbname matches Some(d) ==> c.dbname == d)
                &&& (dbname is None ==> c.dbname@ == spec_default_dbname())
            },
    {
        let host = match host {
            Some(h) => h,
            None => {
                return Err(ConfigError::MissingHost);
            },
        };
        let user = match user {
            Some(u) => u,
            None => {
                return Err(ConfigError::MissingUser);
            },
        };
        let password = match password {
            Some(p) => p,
            None => {
                return Err(ConfigError::MissingPassword);
            },
        };
        let dbname = match dbname {
            Some(d) => d,
            None => String::from_str("postgres"),
        };
        Ok(Config { host, user, password, dbname })
    }

    /// Renders the connection URL for this configuration.
    pub fn connection_url(&self) -> (url: String)
        ensures
            url@ == spec_connection_url(self.host@, self.user@, self.password@, self.dbname@),
    {
        let mut url = String::from_str("host=");
        url.append(self.host.as_str());
        url.append(" port=5432 user=");
        url.append(self.user.as_str());
        url.append(" password=");
        url.append(self.password.as_str());
        url.append(" dbname=");
        url.append(self.dbname.as_str());
        url.append(" sslmode=require");
        url
    }
}

/// Encryption is not optional: every connection URL this library builds ends
/// in a clause that demands TLS, whatever the four parameters are.
pub proof fn lemma_url_demands_tls(
    host: Seq<char>,
    user: Seq<char>,
    password: Seq<char>,
    dbname: Seq<char>,
)
    ensures
        exists|prefix: Seq<char>|
            spec_connection_url(host, user, password, dbname) == prefix + " sslmode=require"@,
{
    let prefix = "host="@ + host + " port=5432 user="@ + user + " password="@ + password
        + " dbname="@ + dbname;
    assert(spec_connection_url(host, user, password, dbname) == prefix + " sslmode=require"@);
}

} // verus!
