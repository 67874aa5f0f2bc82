use vstd::prelude::*;
use vstd::string::StringExecFns;

use crate::config::{section_entries, text_entry, Config, ConfigSection, ConfigValue, entry_lookup};
use crate::error::{error_cause, Error};
use crate::utils::decimal::{decimal, decimal_string};

verus! {

pub const ERR_CONFIG_NO_USER: &'static str = "No user specified in db config";

pub const ERR_CONFIG_NO_HOST: &'static str = "No host specified in db config";

/// The largest port number.
pub const MAX_PORT: u64 = 65535;

/// The parameters of a database connection. `user` and `host` are always
/// there; every other field is independently optional.
#[derive(Debug)]
pub struct ConnectionString {
    pub user: String,
    pub host: String,
    pub password: Option<String>,
    pub dbname: Option<String>,
    pub options: Option<String>,
    pub application_name: Option<String>,
    pub sslmode: Option<String>,
    pub port: Option<String>,
    pub connect_timeout: Option<String>,
    pub keepalives: Option<String>,
    pub keepalives_idle: Option<String>,
    pub target_session_attrs: Option<String>,
    pub channel_binding: Option<String>,
}

/// The characters of an optional string.
pub open spec fn opt_view(o: Option<String>) -> Option<Seq<char>> {
    match o {
        Some(s) => Some(s@),
        None => None,
    }
}

/// The ` key=value` token of an optional field: nothing when it is absent.
pub open spec fn token(key: Seq<char>, value: Option<Seq<char>>) -> Seq<char> {
    match value {
        Some(v) => " "@ + key + "="@ + v,
        None => Seq::empty(),
    }
}

/// The port of a `db` section: a whole number that fits a port, in decimal.
pub open spec fn port_entry(entries: Seq<(String, ConfigValue)>) -> Option<Seq<char>> {
    match entry_lookup(entries, "port"@) {
        Some(ConfigValue::Unsigned(n)) => if n <= MAX_PORT {
            Some(decimal(n as nat))
        } else {
            None
        },
        _ => None,
    }
}

/// The outcome of building a descriptor from the entries `e`: it succeeds
/// exactly when `user` and `host` are strings, and then carries every field
/// that `e` gives; otherwise it is a configuration error about `user` when
/// that is missing, else about `host`.
pub open spec fn descriptor_outcome(
    e: Seq<(String, ConfigValue)>,
    r: Result<ConnectionString, Error>,
) -> bool {
    &&& r is Ok <==> (text_entry(e, "user"@) is Some && text_entry(e, "host"@) is Some)
    &&& match r {
        Ok(cs) => cs.built_from(e),
        Err(err) => err is Configuration && if text_entry(e, "user"@) is None {
            error_cause(err) == ERR_CONFIG_NO_USER@
        } else {
            error_cause(err) == ERR_CONFIG_NO_HOST@
        },
    }
}

impl ConnectionString {
    /// The wire form: `user` and `host` first, then each present optional
    /// field in a fixed order, all separated by single spaces.
    pub open spec fn render(self) -> Seq<char> {
        "user="@ + self.user@ + " host="@ + self.host@
            + token("password"@, opt_view(self.password))
            + token("dbname"@, opt_view(self.dbname))
            + token("options"@, opt_view(self.options))
            + token("application_name"@, opt_view(self.application_name))
            + token("sslmode"@, opt_view(self.sslmode))
            + token("port"@, opt_view(self.port))
            + token("connect_timeout"@, opt_view(self.connect_timeout))
            + token("keepalives"@, opt_view(self.keepalives))
            + token("keepalives_idle"@, opt_view(self.keepalives_idle))
            + token("target_session_attrs"@, opt_view(self.target_session_attrs))
            + token("channel_binding"@, opt_view(self.channel_binding))
    }

    /// Every field is the one the section gives: the strings under their
    /// keys, and the port as `port_entry` reads it.
    pub open spec fn built_from(self, e: Seq<(String, ConfigValue)>) -> bool {
        &&& text_entry(e, "user"@) == Some(self.user@)
        &&& text_entry(e, "host"@) == Some(self.host@)
        &&& opt_view(self.password) == text_entry(e, "password"@)
        &&& opt_view(self.dbname) == text_entry(e, "dbname"@)
        &&& opt_view(self.options) == text_entry(e, "options"@)
        &&& opt_view(self.application_name) == text_entry(e, "application_name"@)
        &&& opt_view(self.sslmode) == text_entry(e, "sslmode"@)
        &&& opt_view(self.port) == port_entry(e)
        &&& opt_view(self.connect_timeout) == text_entry(e, "connect_timeout"@)
        &&& opt_view(self.keepalives) == text_entry(e, "keepalives"@)
        &&& opt_view(self.keepalives_idle) == text_entry(e, "keepalives_idle"@)
        &&& opt_view(self.target_session_attrs) == text_entry(e, "target_session_attrs"@)
        &&& opt_view(self.channel_binding) == text_entry(e, "channel_binding"@)
    }

    /// Builds the descriptor from a `db` section. Fails with a configuration
    /// error when `user`, or else `host`, is not given as a string.
    pub fn from_section(section: &ConfigSection) -> (r: Result<ConnectionString, Error>)
        ensures
            descriptor_outcome(section.entries@, r),
    {
        let user = match section.get_text("user") {
            Some(u) => u,
            None => {
                return Err(Error::Configuration(String::from_str(ERR_CONFIG_NO_USER)));
            },
        };
        let host = match section.get_text("host") {
            Some(h) => h,
            None => {
                return Err(Error::Configuration(String::from_str(ERR_CONFIG_NO_HOST)));
            },
        };
        Ok(ConnectionString {
            user,
            host,
            password: section.get_text("password"),
            dbname: section.get_text("dbname"),
            options: section.get_text("options"),
            application_name: section.get_text("application_name"),
            sslmode: section.get_text("sslmode"),
            port: port_from_section(section),
            connect_timeout: section.get_text("connect_timeout"),
            keepalives: section.get_text("keepalives"),
            keepalives_idle: section.get_text("keepalives_idle"),
            target_session_attrs: section.get_text("target_session_attrs"),
            channel_binding: section.get_text("channel_binding"),
        })
    }

    /// The wire form of the descriptor.
    pub fn as_string(&self) -> (r: String)
        ensures
            r@ == self.render(),
    {
        let mut out = String::from_str("user=");
        out.append(self.user.as_str());
        out.append(" host=");
        out.append(self.host.as_str());
        push_token(&mut out, "password", &self.password);
        push_token(&mut out, "dbname", &self.dbname);
        push_token(&mut out, "options", &self.options);
        push_token(&mut out, "application_name", &self.application_name);
        push_token(&mut out, "sslmode", &self.sslmode);
        push_token(&mut out, "port", &self.port);
        push_token(&mut out, "connect_timeout", &self.connect_timeout);
        push_token(&mut out, "keepalives", &self.keepalives);
        push_token(&mut out, "keepalives_idle", &self.keepalives_idle);
        push_token(&mut out, "target_session_attrs", &self.target_session_attrs);
        push_token(&mut out, "channel_binding", &self.channel_binding);
        out
    }
}

/// Appends the token of one optional field.
fn push_token(out: &mut String, key: &str, value: &Option<String>)
    ensures
        final(out)@ == old(out)@ + token(key@, opt_view(*value)),
{
    match value {
        Some(v) => {
            out.append(" ");
            out.append(key);
            out.append("=");
            out.append(v.as_str());
            assert(final(out)@ =~= old(out)@ + token(key@, opt_view(*value)));
        },
        None => {
            assert(final(out)@ =~= old(out)@ + token(key@, opt_view(*value)));
        },
    }
}

/// The port of a `db` section, in decimal.
fn port_from_section(section: &ConfigSection) -> (r: Option<String>)
    ensures
        opt_view(r) == port_entry(section.entries@),
{
    match section.get("port") {
        Some(ConfigValue::Unsigned(n)) => if *n <= MAX_PORT {
            Some(decimal_string(*n))
        } else {
            None
        },
        _ => None,
    }
}

impl Default for ConnectionString {
    /// A local superuser connection with nothing else set.
    fn default() -> (r: ConnectionString)
        ensures
            r.user@ == "postgres"@,
            r.host@ == "localhost"@,
            r.password is None,
            r.dbname is None,
            r.options is None,
            r.application_name is None,
            r.sslmode is None,
            r.port is None,
            r.connect_timeout is None,
            r.keepalives is None,
            r.keepalives_idle is None,
            r.target_session_attrs is None,
            r.channel_binding is None,
    {
        ConnectionString {
            user: String::from_str("postgres"),
            host: String::from_str("localhost"),
            password: None,
            dbname: None,
            options: None,
            application_name: None,
            sslmode: None,
            port: None,
            connect_timeout: None,
            keepalives: None,
            keepalives_idle: None,
            target_session_attrs: None,
            channel_binding: None,
        }
    }
}

impl Config {
    /// The connection descriptor of the `db` section; a missing section
    /// reads as an empty one.
    pub fn db(&self) -> (r: Result<ConnectionString, Error>)
        ensures
            descriptor_outcome(section_entries(self.sections@, "db"@), r),
    {
        let empty = ConfigSection::new();
        let section = match self.get("db") {
            Some(s) => s,
            None => &empty,
        };
        assert(section.entries@ =~= section_entries(self.sections@, "db"@));
        ConnectionString::from_section(section)
    }
}

} // verus!
